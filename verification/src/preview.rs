//! The gallery preview service's protocol logic: query-parameter
//! handling, template-variant selection, HTML generation through the
//! template engine, and the URLs the screenshot step navigates to.

use vstd::prelude::*;
use crate::client_flow::{Param, ParamV};
use crate::gallery::{urlencode, urlencoded_of, GalleryError};
use crate::text::{concat2, str_eq};

verus! {

/// The adaptive grid template.
pub open spec fn spec_adaptive_template() -> Seq<char> {
    "<!doctype html><html><head><meta charset=\"utf-8\"><title>{{ title }}</title></head><body class=\"adaptive\" data-gallery-uri=\"{{ gallery_uri }}\"><header><h1>{{ title }}</h1><p>{{ handle }}</p></header><main id=\"grid\"></main></body></html>"@
}

/// The collage template.
pub open spec fn spec_collage_template() -> Seq<char> {
    "<!doctype html><html><head><meta charset=\"utf-8\"><title>{{ title }}</title></head><body class=\"collage\" data-gallery-uri=\"{{ gallery_uri }}\"><header><h1>{{ title }}</h1><p>{{ handle }}</p></header><main id=\"collage\"></main></body></html>"@
}

/// What rendering a template over the three values gives.  The rendering
/// depends on the template and the values alone.
pub uninterp spec fn rendered_of(
    template: Seq<char>,
    gallery_uri: Seq<char>,
    title: Seq<char>,
    handle: Seq<char>,
) -> Seq<char>;

/// Relies on minijinja's `Environment::render_str`: renders the template
/// over `gallery_uri`, `title` and `handle`, as a function of its
/// arguments alone; a template the engine refuses yields nothing.
#[verifier::external_body]
fn render_template(template: &str, gallery_uri: &str, title: &str, handle: &str) -> (r: Option<
    String,
>)
    ensures
        match r {
            Some(html) => html@ == rendered_of(template@, gallery_uri@, title@, handle@),
            None => true,
        },
{
    let mut ctx = std::collections::BTreeMap::new();
    ctx.insert("gallery_uri", gallery_uri);
    ctx.insert("title", title);
    ctx.insert("handle", handle);
    minijinja::Environment::new().render_str(template, ctx).ok()
}

/// The template a variant name selects: `"collage"` picks the collage
/// layout, everything else the adaptive one.
pub open spec fn spec_template_for(variant: Seq<char>) -> Seq<char> {
    if variant == "collage"@ {
        spec_collage_template()
    } else {
        spec_adaptive_template()
    }
}

/// Render the grid page of a gallery in the given variant.
pub fn generate_grid_html_with_uri(
    gallery_uri: &str,
    title: String,
    handle: String,
    variant: &str,
) -> (r: Result<String, GalleryError>)
    ensures
        match r {
            Ok(html) => html@ == rendered_of(
                spec_template_for(variant@),
                gallery_uri@,
                title@,
                handle@,
            ),
            Err(e) => e == GalleryError::Template,
        },
{
    let template = if str_eq(variant, "collage") {
        "<!doctype html><html><head><meta charset=\"utf-8\"><title>{{ title }}</title></head><body class=\"collage\" data-gallery-uri=\"{{ gallery_uri }}\"><header><h1>{{ title }}</h1><p>{{ handle }}</p></header><main id=\"collage\"></main></body></html>"
    } else {
        "<!doctype html><html><head><meta charset=\"utf-8\"><title>{{ title }}</title></head><body class=\"adaptive\" data-gallery-uri=\"{{ gallery_uri }}\"><header><h1>{{ title }}</h1><p>{{ handle }}</p></header><main id=\"grid\"></main></body></html>"
    };
    match render_template(template, gallery_uri, title.as_str(), handle.as_str()) {
        Some(html) => Ok(html),
        None => Err(GalleryError::Template),
    }
}

/// Render the adaptive grid page of a gallery.
pub fn generate_adaptive_grid_html_with_uri(gallery_uri: &str, title: String, handle: String) -> (r:
    Result<String, GalleryError>)
    ensures
        match r {
            Ok(html) => html@ == rendered_of(
                spec_adaptive_template(),
                gallery_uri@,
                title@,
                handle@,
            ),
            Err(e) => e == GalleryError::Template,
        },
{
    proof {
        reveal_strlit("adaptive");
        reveal_strlit("collage");
        assert("adaptive"@.len() == 8);
        assert("collage"@.len() == 7);
        assert("adaptive"@ != "collage"@);
    }
    generate_grid_html_with_uri(gallery_uri, title, handle, "adaptive")
}

/// The value of the first query parameter with this name, if any.
pub open spec fn spec_param_value(ps: Seq<ParamV>, name: Seq<char>) -> Option<Seq<char>>
    decreases ps.len(),
{
    if ps.len() == 0 {
        None
    } else if ps[0].name == name {
        Some(ps[0].value)
    } else {
        spec_param_value(ps.drop_first(), name)
    }
}

/// Look the first query parameter with this name up.
fn param_get<'a>(params: &'a Vec<Param>, name: &str) -> (r: Option<&'a String>)
    ensures
        match r {
            Some(v) => spec_param_value(params.deep_view_params(), name@) == Some(v@),
            None => spec_param_value(params.deep_view_params(), name@) is None,
        },
{
    let n = params.len();
    let mut i: usize = 0;
    proof {
        assert(params.deep_view_params().skip(0) =~= params.deep_view_params());
    }
    while i < n
        invariant
            i <= n,
            n == params.len(),
            params.deep_view_params().len() == n,
            spec_param_value(params.deep_view_params(), name@) == spec_param_value(
                params.deep_view_params().skip(i as int),
                name@,
            ),
        decreases n - i,
    {
        proof {
            assert(params.deep_view_params()[i as int] == params@[i as int]@);
            assert(params.deep_view_params().skip(i as int)[0]
                == params.deep_view_params()[i as int]);
            assert(params.deep_view_params().skip(i as int).drop_first()
                =~= params.deep_view_params().skip(i + 1));
        }
        if str_eq(params[i].name.as_str(), name) {
            return Some(&params[i].value);
        }
        i += 1;
    }
    proof {
        assert(params.deep_view_params().skip(n as int) =~= Seq::<ParamV>::empty());
    }
    None
}

/// The parameter views of a query, in order.
pub trait ParamsView {
    /// The parameter views, in order.
    spec fn deep_view_params(&self) -> Seq<ParamV>;
}

impl ParamsView for Vec<Param> {
    open spec fn deep_view_params(&self) -> Seq<ParamV> {
        self@.map_values(|p: Param| p@)
    }
}

/// Serve a gallery preview from query parameters: `uri` is required,
/// `title` and `handle` default to empty, and `variant` defaults to the
/// adaptive layout.
pub fn handle_adaptive_preview(params: &Vec<Param>) -> (r: Result<String, GalleryError>)
    ensures
        match r {
            Ok(html) => spec_param_value(params.deep_view_params(), "uri"@) is Some && html@
                == rendered_of(
                spec_template_for(
                    match spec_param_value(params.deep_view_params(), "variant"@) {
                        Some(v) => v,
                        None => "adaptive"@,
                    },
                ),
                spec_param_value(params.deep_view_params(), "uri"@)->0,
                match spec_param_value(params.deep_view_params(), "title"@) {
                    Some(t) => t,
                    None => Seq::empty(),
                },
                match spec_param_value(params.deep_view_params(), "handle"@) {
                    Some(h) => h,
                    None => Seq::empty(),
                },
            ),
            Err(GalleryError::MissingUri) => spec_param_value(
                params.deep_view_params(),
                "uri"@,
            ) is None,
            Err(GalleryError::Template) => spec_param_value(
                params.deep_view_params(),
                "uri"@,
            ) is Some,
            Err(_) => false,
        },
{
    let gallery_uri = match param_get(params, "uri") {
        Some(u) => u.clone(),
        None => {
            return Err(GalleryError::MissingUri);
        },
    };
    let title = match param_get(params, "title") {
        Some(t) => t.clone(),
        None => String::new(),
    };
    let handle = match param_get(params, "handle") {
        Some(h) => h.clone(),
        None => String::new(),
    };
    let variant = match param_get(params, "variant") {
        Some(v) => v.clone(),
        None => "adaptive".to_owned(),
    };
    generate_grid_html_with_uri(gallery_uri.as_str(), title, handle, variant.as_str())
}

/// The preview URL the screenshot step navigates to for a thumbnail
/// composite.
pub fn build_preview_url(
    base_url: &str,
    thumb_urls: &Vec<String>,
    title: &str,
    handle: &str,
) -> (r: String)
    ensures
        r@ == base_url@ + "/composite-preview?thumbs="@ + urlencoded_of(
            crate::text::spec_join(thumb_urls.deep_view(), ","@),
        ) + "&title="@ + urlencoded_of(title@) + "&handle="@ + urlencoded_of(handle@),
{
    let thumbs_param = crate::text::join_with(thumb_urls, ",");
    let e_thumbs = urlencode(thumbs_param.as_str());
    let e_title = urlencode(title);
    let e_handle = urlencode(handle);
    let mut out = base_url.to_owned();
    out.append("/composite-preview?thumbs=");
    out.append(e_thumbs.as_str());
    out.append("&title=");
    out.append(e_title.as_str());
    out.append("&handle=");
    out.append(e_handle.as_str());
    out
}

/// The preview URL the composite endpoint captures: the gallery URI with
/// its title and creator handle.
pub fn build_adaptive_preview_url(
    base_url: &str,
    gallery_uri: &str,
    title: &str,
    handle: &str,
) -> (r: String)
    ensures
        r@ == base_url@ + "/gallery-preview?uri="@ + urlencoded_of(gallery_uri@) + "&title="@
            + urlencoded_of(title@) + "&handle="@ + urlencoded_of(handle@),
{
    let e_uri = urlencode(gallery_uri);
    let e_title = urlencode(title);
    let e_handle = urlencode(handle);
    let mut out = base_url.to_owned();
    out.append("/gallery-preview?uri=");
    out.append(e_uri.as_str());
    out.append("&title=");
    out.append(e_title.as_str());
    out.append("&handle=");
    out.append(e_handle.as_str());
    out
}

} // verus!
