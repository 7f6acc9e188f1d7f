//! Gallery data handling shared by the command-line client and the
//! preview service: the URLs they request, thumbnail extraction, the
//! gallery web link, and the image-file filter of the upload command.
//! Network fetching and file listing stay with the surrounding
//! application, which hands the plain values in.

use vstd::prelude::*;
use crate::text::{concat2, concat3, spec_has_prefix, spec_has_suffix, strip_prefix_str};

verus! {

/// What gallery handling can fail with.
#[derive(Clone, Copy, Debug, PartialEq, Eq, Structural)]
pub enum GalleryError {
    /// The gallery answer held no items.
    NoItems,
    /// No item carried a thumbnail image.
    NoThumbnails,
    /// The required `uri` parameter is missing.
    MissingUri,
    /// The HTML template could not be rendered.
    Template,
}

/// The creator of a gallery, as the gallery API reports it.
#[derive(Clone, Debug)]
pub struct GalleryCreator {
    pub handle: Option<String>,
}

/// One gallery item, reduced to what the logic reads: its thumbnail URL.
#[derive(Clone, Debug)]
pub struct GalleryImage {
    pub thumb: String,
}

/// A gallery answer, reduced to what the logic reads.
#[derive(Clone, Debug)]
pub struct GalleryData {
    pub items: Vec<GalleryImage>,
    pub title: Option<String>,
    pub creator: Option<GalleryCreator>,
}

impl GalleryData {
    /// The thumbnail URLs of the items, in order.
    pub open spec fn spec_thumbs(self) -> Seq<Seq<char>> {
        self.items@.map_values(|i: GalleryImage| i.thumb@)
    }
}

/// What URL-encoding a query value gives.  The encoding depends on the
/// text alone.
pub uninterp spec fn urlencoded_of(s: Seq<char>) -> Seq<char>;

/// Relies on urlencoding's `encode`: percent-encodes everything outside
/// the unreserved set, as a function of the text alone.
#[verifier::external_body]
pub(crate) fn urlencode(s: &str) -> (r: String)
    ensures
        r@ == urlencoded_of(s@),
{
    urlencoding::encode(s).into_owned()
}

/// The URL that lists an actor's galleries.
pub fn build_actor_galleries_url(base: &str, did: &str) -> (r: String)
    ensures
        r@ == base@ + "/xrpc/social.grain.gallery.getActorGalleries?actor="@ + urlencoded_of(
            did@,
        ),
{
    let encoded = urlencode(did);
    concat3(base, "/xrpc/social.grain.gallery.getActorGalleries?actor=", encoded.as_str())
}

/// The URL that fetches one gallery.
pub fn build_gallery_url(base: &str, gallery_uri: &str) -> (r: String)
    ensures
        r@ == base@ + "/xrpc/social.grain.gallery.getGallery?uri="@ + urlencoded_of(
            gallery_uri@,
        ),
{
    let encoded = urlencode(gallery_uri);
    concat3(base, "/xrpc/social.grain.gallery.getGallery?uri=", encoded.as_str())
}

/// The web address of a gallery: its `at://` URI moved under the site.
pub open spec fn spec_gallery_web_url(uri: Seq<char>) -> Seq<char> {
    if spec_has_prefix(uri, "at://"@) {
        "https://grain.social/"@ + uri.subrange("at://"@.len() as int, uri.len() as int)
    } else {
        "https://grain.social/"@ + uri
    }
}

/// The web address a gallery opens at in a browser.
pub fn gallery_web_url(uri: &str) -> (r: String)
    ensures
        r@ == spec_gallery_web_url(uri@),
{
    match strip_prefix_str(uri, "at://") {
        Some(rest) => concat2("https://grain.social/", rest),
        None => concat2("https://grain.social/", uri),
    }
}

/// The first `max` non-empty entries of a thumbnail list, in order.
pub open spec fn spec_take_thumbs(ts: Seq<Seq<char>>, max: nat) -> Seq<Seq<char>>
    decreases ts.len(),
{
    if ts.len() == 0 || max == 0 {
        Seq::empty()
    } else if ts[0].len() > 0 {
        seq![ts[0]] + spec_take_thumbs(ts.drop_first(), (max - 1) as nat)
    } else {
        spec_take_thumbs(ts.drop_first(), max)
    }
}

/// Extract up to `max_count` thumbnail URLs from a gallery: items without
/// one are skipped, and a gallery yielding none is an error.
pub fn extract_thumbnails(gallery_data: &GalleryData, max_count: usize) -> (r: Result<
    Vec<String>,
    GalleryError,
>)
    ensures
        match r {
            Ok(ts) => ts.deep_view() == spec_take_thumbs(
                gallery_data.spec_thumbs(),
                max_count as nat,
            ) && ts.deep_view().len() > 0,
            Err(e) => e == GalleryError::NoThumbnails && spec_take_thumbs(
                gallery_data.spec_thumbs(),
                max_count as nat,
            ).len() == 0,
        },
{
    let n = gallery_data.items.len();
    let mut out: Vec<String> = Vec::new();
    let mut i: usize = 0;
    proof {
        assert(gallery_data.spec_thumbs().skip(0) =~= gallery_data.spec_thumbs());
    }
    while i < n && out.len() < max_count
        invariant
            i <= n,
            n == gallery_data.items.len(),
            gallery_data.spec_thumbs().len() == n,
            out.deep_view().len() <= max_count,
            spec_take_thumbs(gallery_data.spec_thumbs(), max_count as nat) =~= out.deep_view()
                + spec_take_thumbs(
                gallery_data.spec_thumbs().skip(i as int),
                (max_count - out.deep_view().len()) as nat,
            ),
            out.deep_view().len() < max_count || spec_take_thumbs(
                gallery_data.spec_thumbs().skip(i as int),
                (max_count - out.deep_view().len()) as nat,
            ).len() == 0,
        decreases n - i,
    {
        let ghost thumbs = gallery_data.spec_thumbs();
        proof {
            assert(thumbs.skip(i as int)[0] == thumbs[i as int]);
            assert(thumbs[i as int] == gallery_data.items@[i as int].thumb@);
            assert(thumbs.skip(i as int).drop_first() =~= thumbs.skip(i + 1));
        }
        let t = &gallery_data.items[i].thumb;
        if !t.as_str().is_empty() {
            let ghost old_dv = out.deep_view();
            out.push(t.clone());
            proof {
                assert(out.deep_view() =~= old_dv.push(t@));
                assert(old_dv.push(t@) + spec_take_thumbs(
                    thumbs.skip(i + 1),
                    (max_count - out.deep_view().len()) as nat,
                ) =~= old_dv + (seq![thumbs[i as int]] + spec_take_thumbs(
                    thumbs.skip(i + 1),
                    (max_count - out.deep_view().len()) as nat,
                )));
            }
        }
        i += 1;
    }
    proof {
        if i == n {
            assert(gallery_data.spec_thumbs().skip(n as int) =~= Seq::<Seq<char>>::empty());
        }
        assert(out.deep_view() + Seq::<Seq<char>>::empty() =~= out.deep_view());
    }
    if out.len() == 0 {
        Err(GalleryError::NoThumbnails)
    } else {
        Ok(out)
    }
}

/// What case folding a file name gives.  The folded text depends on the
/// characters alone.
pub uninterp spec fn lower_of(s: Seq<char>) -> Seq<char>;

/// Relies on str's `to_lowercase`: the Unicode-lowercased text, a function
/// of the characters alone.
#[verifier::external_body]
pub(crate) fn lowercase(s: &str) -> (r: String)
    ensures
        r@ == lower_of(s@),
{
    s.to_lowercase()
}

/// Whether a file name names a JPEG image, by its case-folded ending.
pub open spec fn spec_is_image_file(name: Seq<char>) -> bool {
    spec_has_suffix(lower_of(name), ".jpg"@) || spec_has_suffix(lower_of(name), ".jpeg"@)
}

/// The file names that name images, in order.
pub open spec fn spec_image_files(names: Seq<Seq<char>>) -> Seq<Seq<char>>
    decreases names.len(),
{
    if names.len() == 0 {
        Seq::empty()
    } else if spec_is_image_file(names[0]) {
        seq![names[0]] + spec_image_files(names.drop_first())
    } else {
        spec_image_files(names.drop_first())
    }
}

/// Keep the file names whose case-folded ending names a JPEG image.
pub fn filter_image_files(names: &Vec<String>) -> (r: Vec<String>)
    ensures
        r.deep_view() == spec_image_files(names.deep_view()),
{
    let n = names.len();
    let mut out: Vec<String> = Vec::new();
    let mut i: usize = 0;
    proof {
        assert(names.deep_view().skip(0) =~= names.deep_view());
    }
    while i < n
        invariant
            i <= n,
            n == names.len(),
            names.deep_view().len() == n,
            spec_image_files(names.deep_view()) =~= out.deep_view() + spec_image_files(
                names.deep_view().skip(i as int),
            ),
        decreases n - i,
    {
        proof {
            assert(names.deep_view().skip(i as int)[0] == names.deep_view()[i as int]);
            assert(names.deep_view()[i as int] == names@[i as int]@);
            assert(names.deep_view().skip(i as int).drop_first() =~= names.deep_view().skip(
                i + 1,
            ));
        }
        let low = lowercase(names[i].as_str());
        if crate::text::has_suffix(low.as_str(), ".jpg") || crate::text::has_suffix(
            low.as_str(),
            ".jpeg",
        ) {
            let ghost old_dv = out.deep_view();
            out.push(names[i].clone());
            proof {
                assert(out.deep_view() =~= old_dv.push(names.deep_view()[i as int]));
                assert(old_dv.push(names.deep_view()[i as int]) + spec_image_files(
                    names.deep_view().skip(i + 1),
                ) =~= old_dv + (seq![names.deep_view()[i as int]] + spec_image_files(
                    names.deep_view().skip(i + 1),
                )));
            }
        }
        i += 1;
    }
    proof {
        assert(names.deep_view().skip(n as int) =~= Seq::<Seq<char>>::empty());
        assert(out.deep_view() + Seq::<Seq<char>>::empty() =~= out.deep_view());
    }
    out
}

} // verus!
