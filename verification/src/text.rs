//! Verified string utilities: equality, prefix and suffix tests, and
//! splitting a space-separated word list, each with an exact contract over
//! the character sequences.

use vstd::prelude::*;
use vstd::string::StrSliceExecFns;

verus! {

/// True iff the two strings hold the same characters.
pub fn str_eq(a: &str, b: &str) -> (r: bool)
    ensures
        r == (a@ == b@),
{
    let alen = a.unicode_len();
    let blen = b.unicode_len();
    if alen != blen {
        return false;
    }
    let mut i: usize = 0;
    while i < alen
        invariant
            alen == a@.len(),
            alen == b@.len(),
            i <= alen,
            forall|j: int| 0 <= j < i ==> a@[j] == b@[j],
        decreases alen - i,
    {
        if a.get_char(i) != b.get_char(i) {
            return false;
        }
        i += 1;
    }
    proof {
        assert(a@ =~= b@);
    }
    true
}

/// True iff the two optional strings are both absent or hold the same
/// characters.
pub open spec fn spec_opt_str(o: Option<String>) -> Option<Seq<char>> {
    match o {
        Some(s) => Some(s@),
        None => None,
    }
}

/// Equality of two optional strings, as character sequences.
pub fn opt_str_eq(a: &Option<String>, b: &Option<String>) -> (r: bool)
    ensures
        r == (spec_opt_str(*a) == spec_opt_str(*b)),
{
    match (a, b) {
        (Some(x), Some(y)) => str_eq(x.as_str(), y.as_str()),
        (None, None) => true,
        _ => false,
    }
}

/// True iff `p` is a prefix of `s`.
pub open spec fn spec_has_prefix(s: Seq<char>, p: Seq<char>) -> bool {
    p.len() <= s.len() && s.subrange(0, p.len() as int) == p
}

/// Prefix test with an exact contract.
pub fn has_prefix(s: &str, p: &str) -> (r: bool)
    ensures
        r == spec_has_prefix(s@, p@),
{
    let slen = s.unicode_len();
    let plen = p.unicode_len();
    if plen > slen {
        return false;
    }
    let mut i: usize = 0;
    while i < plen
        invariant
            slen == s@.len(),
            plen == p@.len(),
            plen <= slen,
            i <= plen,
            forall|j: int| 0 <= j < i ==> s@[j] == p@[j],
        decreases plen - i,
    {
        if s.get_char(i) != p.get_char(i) {
            proof {
                assert(s@.subrange(0, p@.len() as int)[i as int] == s@[i as int]);
            }
            return false;
        }
        i += 1;
    }
    proof {
        assert(s@.subrange(0, p@.len() as int) =~= p@);
    }
    true
}

/// True iff `x` is a suffix of `s`.
pub open spec fn spec_has_suffix(s: Seq<char>, x: Seq<char>) -> bool {
    x.len() <= s.len() && s.subrange(s.len() - x.len(), s.len() as int) == x
}

/// Suffix test with an exact contract.
pub fn has_suffix(s: &str, x: &str) -> (r: bool)
    ensures
        r == spec_has_suffix(s@, x@),
{
    let slen = s.unicode_len();
    let xlen = x.unicode_len();
    if xlen > slen {
        return false;
    }
    let off = slen - xlen;
    let mut i: usize = 0;
    while i < xlen
        invariant
            slen == s@.len(),
            xlen == x@.len(),
            xlen <= slen,
            off == slen - xlen,
            i <= xlen,
            forall|j: int| 0 <= j < i ==> s@[off + j] == x@[j],
        decreases xlen - i,
    {
        if s.get_char(off + i) != x.get_char(i) {
            proof {
                assert(s@.subrange(s@.len() - x@.len(), s@.len() as int)[i as int]
                    == s@[off + i]);
            }
            return false;
        }
        i += 1;
    }
    proof {
        assert(s@.subrange(s@.len() - x@.len(), s@.len() as int) =~= x@);
    }
    true
}

/// What remains of `s` after a prefix `p`, when `p` is indeed a prefix.
pub fn strip_prefix_str<'a>(s: &'a str, p: &str) -> (r: Option<&'a str>)
    ensures
        match r {
            Some(rest) => spec_has_prefix(s@, p@)
                && rest@ == s@.subrange(p@.len() as int, s@.len() as int),
            None => !spec_has_prefix(s@, p@),
        },
{
    if has_prefix(s, p) {
        let slen = s.unicode_len();
        let plen = p.unicode_len();
        Some(s.substring_char(plen, slen))
    } else {
        None
    }
}


/// A copy of an optional string, by value.
pub fn clone_opt_string(o: &Option<String>) -> (r: Option<String>)
    ensures
        spec_opt_str(r) == spec_opt_str(*o),
{
    match o {
        Some(s) => Some(s.clone()),
        None => None,
    }
}

/// The index at which the word starting at `i` ends: the first position at
/// or after `i` holding a space, or the end of the text.
pub open spec fn spec_word_end(s: Seq<char>, i: int) -> int
    decreases s.len() - i,
    when 0 <= i <= s.len()
{
    if i >= s.len() {
        i
    } else if s[i] == ' ' {
        i
    } else {
        spec_word_end(s, i + 1)
    }
}

/// Bounds of [`spec_word_end`].
pub proof fn lemma_word_end_bounds(s: Seq<char>, i: int)
    requires
        0 <= i <= s.len(),
    ensures
        i <= spec_word_end(s, i) <= s.len(),
    decreases s.len() - i,
{
    if i >= s.len() {
    } else if s[i] == ' ' {
    } else {
        lemma_word_end_bounds(s, i + 1);
    }
}

/// Where a scan that saw no space from `a` up to `b`, and a space or the
/// end at `b`, stands: exactly at the word end.
pub proof fn lemma_word_end_at(s: Seq<char>, a: int, b: int)
    requires
        0 <= a <= b <= s.len(),
        forall|j: int| a <= j < b ==> s[j] != ' ',
        b == s.len() || s[b] == ' ',
    ensures
        spec_word_end(s, a) == b,
    decreases b - a,
{
    if a == b {
    } else {
        lemma_word_end_at(s, a + 1, b);
    }
}

/// The space-separated words of the text from position `i` on, empty
/// pieces skipped.
pub open spec fn spec_split_from(s: Seq<char>, i: int) -> Seq<Seq<char>>
    decreases s.len() - i,
    when 0 <= i <= s.len()
{
    if i >= s.len() {
        Seq::empty()
    } else if s[i] == ' ' {
        spec_split_from(s, i + 1)
    } else {
        proof {
            lemma_word_end_bounds(s, i + 1);
        }
        seq![s.subrange(i, spec_word_end(s, i))] + spec_split_from(s, spec_word_end(s, i))
    }
}

/// The space-separated words of a text.
pub open spec fn spec_split_words(s: Seq<char>) -> Seq<Seq<char>> {
    spec_split_from(s, 0)
}

/// Split a text into its space-separated words.
pub fn split_words(s: &str) -> (r: Vec<String>)
    ensures
        r.deep_view() == spec_split_words(s@),
{
    let n = s.unicode_len();
    let mut out: Vec<String> = Vec::new();
    let mut i: usize = 0;
    while i < n
        invariant
            i <= n,
            n == s@.len(),
            out.deep_view() + spec_split_from(s@, i as int) == spec_split_words(s@),
        decreases n - i,
    {
        if s.get_char(i) == ' ' {
            i += 1;
        } else {
            let start = i;
            let mut j = i;
            while j < n
                invariant_except_break
                    start <= j <= n,
                    n == s@.len(),
                    forall|k: int| start <= k < j ==> s@[k] != ' ',
                ensures
                    start <= j <= n,
                    forall|k: int| start <= k < j ==> s@[k] != ' ',
                    j == n || s@[j as int] == ' ',
                decreases n - j,
            {
                if s.get_char(j) == ' ' {
                    break;
                }
                j += 1;
            }
            proof {
                lemma_word_end_at(s@, start as int, j as int);
            }
            let w = s.substring_char(start, j);
            let ghost old_dv = out.deep_view();
            out.push(w.to_owned());
            proof {
                assert(out.deep_view() =~= old_dv.push(w@));
                assert(w@ =~= s@.subrange(start as int, spec_word_end(s@, start as int)));
                assert(old_dv.push(w@) + spec_split_from(s@, j as int) =~= old_dv + (seq![
                    s@.subrange(start as int, spec_word_end(s@, start as int)),
                ] + spec_split_from(s@, spec_word_end(s@, start as int))));
            }
            i = j;
        }
    }
    proof {
        assert(out.deep_view() + spec_split_from(s@, n as int) =~= out.deep_view());
    }
    out
}

/// True iff the list holds the word.
pub fn list_contains(list: &Vec<String>, w: &str) -> (r: bool)
    ensures
        r == list.deep_view().contains(w@),
{
    let n = list.len();
    let mut i: usize = 0;
    while i < n
        invariant
            i <= n,
            n == list.len(),
            forall|j: int| 0 <= j < i ==> list.deep_view()[j] != w@,
        decreases n - i,
    {
        proof {
            assert(list.deep_view()[i as int] == list@[i as int]@);
        }
        if str_eq(list[i].as_str(), w) {
            return true;
        }
        i += 1;
    }
    proof {
        if list.deep_view().contains(w@) {
            let k = choose|k: int| 0 <= k < list.deep_view().len() && list.deep_view()[k] == w@;
        }
    }
    false
}

/// Whether every word of the requested scope is among the allowed words.
pub open spec fn spec_scope_allowed(requested: Seq<char>, allowed: Seq<Seq<char>>) -> bool {
    forall|k: int|
        0 <= k < spec_split_words(requested).len() ==> allowed.contains(
            #[trigger] spec_split_words(requested)[k],
        )
}

/// Check a requested scope string against the allowed scope words.
pub fn scope_allowed(requested: &str, allowed: &Vec<String>) -> (r: bool)
    ensures
        r == spec_scope_allowed(requested@, allowed.deep_view()),
{
    let words = split_words(requested);
    let n = words.len();
    let mut i: usize = 0;
    while i < n
        invariant
            i <= n,
            n == words.len(),
            words.deep_view() == spec_split_words(requested@),
            forall|k: int| 0 <= k < i ==> allowed.deep_view().contains(
                #[trigger] spec_split_words(requested@)[k],
            ),
        decreases n - i,
    {
        proof {
            assert(words.deep_view()[i as int] == words@[i as int]@);
        }
        if !list_contains(allowed, words[i].as_str()) {
            return false;
        }
        i += 1;
    }
    true
}

/// `a + b`, capped at the largest `u64`.
pub open spec fn spec_sat_add(a: u64, b: u64) -> u64 {
    if a + b > u64::MAX {
        u64::MAX
    } else {
        (a + b) as u64
    }
}

/// Saturating addition, used for expiry arithmetic.
pub fn sat_add(a: u64, b: u64) -> (r: u64)
    ensures
        r == spec_sat_add(a, b),
{
    if b > u64::MAX - a {
        u64::MAX
    } else {
        a + b
    }
}

/// A copy of a vector of strings, by value.
pub fn clone_string_vec(v: &Vec<String>) -> (r: Vec<String>)
    ensures
        r.deep_view() == v.deep_view(),
{
    let n = v.len();
    let mut out: Vec<String> = Vec::new();
    let mut i: usize = 0;
    while i < n
        invariant
            i <= n,
            n == v.len(),
            out@.len() == i,
            forall|j: int| 0 <= j < i ==> out.deep_view()[j] == v.deep_view()[j],
        decreases n - i,
    {
        out.push(v[i].clone());
        proof {
            assert(out.deep_view()[i as int] == v.deep_view()[i as int]);
            assert(forall|j: int| 0 <= j < i ==> out.deep_view()[j] == v.deep_view()[j]);
        }
        i += 1;
    }
    proof {
        assert(out.deep_view() =~= v.deep_view());
    }
    out
}

/// True iff `p` occurs in `s` as a contiguous substring.
pub open spec fn spec_contains_substr(s: Seq<char>, p: Seq<char>) -> bool {
    exists|i: int| 0 <= i <= s.len() - p.len() && #[trigger] s.subrange(i, i + p.len()) == p
}

/// Whether `p` matches `s` at offset `off`.
fn matches_at(s: &str, p: &str, off: usize) -> (r: bool)
    requires
        off + p@.len() <= s@.len(),
    ensures
        r == (s@.subrange(off as int, off + p@.len()) == p@),
{
    let slen = s.unicode_len();
    let plen = p.unicode_len();
    let mut i: usize = 0;
    while i < plen
        invariant
            slen == s@.len(),
            plen == p@.len(),
            off + plen <= slen,
            i <= plen,
            forall|j: int| 0 <= j < i ==> s@[off + j] == p@[j],
        decreases plen - i,
    {
        if s.get_char(off + i) != p.get_char(i) {
            proof {
                assert(s@.subrange(off as int, off + p@.len())[i as int] == s@[off + i]);
            }
            return false;
        }
        i += 1;
    }
    proof {
        assert(s@.subrange(off as int, off + p@.len()) =~= p@);
    }
    true
}

/// Substring search with an exact contract.
pub fn contains_substr(s: &str, p: &str) -> (r: bool)
    ensures
        r == spec_contains_substr(s@, p@),
{
    let slen = s.unicode_len();
    let plen = p.unicode_len();
    if plen > slen {
        return false;
    }
    if plen == 0 {
        proof {
            assert(s@.subrange(0, 0 + p@.len() as int) =~= p@);
        }
        return true;
    }
    let last = slen - plen;
    let mut i: usize = 0;
    while i <= last
        invariant
            slen == s@.len(),
            plen == p@.len(),
            1 <= plen <= slen,
            last == slen - plen,
            i <= last + 1,
            forall|j: int| 0 <= j < i ==> #[trigger] s@.subrange(j, j + p@.len()) != p@,
        decreases last + 1 - i,
    {
        if matches_at(s, p, i) {
            return true;
        }
        i += 1;
    }
    false
}

/// The two texts, joined.
pub fn concat2(a: &str, b: &str) -> (r: String)
    ensures
        r@ == a@ + b@,
{
    let mut s = a.to_owned();
    s.append(b);
    s
}

/// The three texts, joined.
pub fn concat3(a: &str, b: &str, c: &str) -> (r: String)
    ensures
        r@ == a@ + b@ + c@,
{
    let mut s = a.to_owned();
    s.append(b);
    s.append(c);
    s
}

/// The list joined with the separator between consecutive elements.
pub open spec fn spec_join(ss: Seq<Seq<char>>, sep: Seq<char>) -> Seq<char>
    decreases ss.len(),
{
    if ss.len() == 0 {
        Seq::empty()
    } else if ss.len() == 1 {
        ss[0]
    } else {
        spec_join(ss.drop_last(), sep) + sep + ss.last()
    }
}

/// Join a list of strings with a separator.
pub fn join_with(list: &Vec<String>, sep: &str) -> (r: String)
    ensures
        r@ == spec_join(list.deep_view(), sep@),
{
    let n = list.len();
    let mut out = String::new();
    if n == 0 {
        proof {
            assert(out@ =~= spec_join(list.deep_view(), sep@));
        }
        return out;
    }
    out.append(list[0].as_str());
    proof {
        assert(list.deep_view()[0] == list@[0]@);
        assert(list.deep_view().subrange(0, 1) =~= seq![list.deep_view()[0]]);
        assert(spec_join(list.deep_view().subrange(0, 1), sep@) == list.deep_view()[0]);
    }
    let mut i: usize = 1;
    while i < n
        invariant
            1 <= i <= n,
            n == list.len(),
            out@ == spec_join(list.deep_view().subrange(0, i as int), sep@),
        decreases n - i,
    {
        out.append(sep);
        out.append(list[i].as_str());
        proof {
            assert(list.deep_view()[i as int] == list@[i as int]@);
            let pre = list.deep_view().subrange(0, i + 1);
            assert(pre.drop_last() =~= list.deep_view().subrange(0, i as int));
            assert(pre.last() == list.deep_view()[i as int]);
        }
        i += 1;
    }
    proof {
        assert(list.deep_view().subrange(0, n as int) =~= list.deep_view());
    }
    out
}

} // verus!
