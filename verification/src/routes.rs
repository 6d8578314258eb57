//! Response plans for the ancillary routes: the landing page, the static
//! assets, the downloadable source archive, the two no-op routes, and the
//! redirect the landing-page form produces. The bodies themselves (the
//! rendered page, the asset files, the archive) live outside the library;
//! what is fixed here is each route's status line, media type, and headers.

use vstd::prelude::*;

verus! {

/// The media types the ancillary routes serve.
#[derive(Debug, Clone, Copy, PartialEq, Eq, Structural)]
pub enum MediaType {
    Html,
    Css,
    JavaScript,
    Zip,
}

/// Status line, media type, and content-disposition header of one route's
/// response. A route that sends no body has no media type.
pub struct RoutePlan {
    pub status: u16,
    pub media: Option<MediaType>,
    pub disposition: Option<&'static str>,
}

/// The landing page: an HTML page, served with status 200.
pub fn index() -> (r: RoutePlan)
    ensures
        r.status == 200,
        r.media == Some(MediaType::Html),
        r.disposition is None,
{
    RoutePlan { status: 200, media: Some(MediaType::Html), disposition: None }
}

/// The stylesheet: served as CSS with status 200.
pub fn css() -> (r: RoutePlan)
    ensures
        r.status == 200,
        r.media == Some(MediaType::Css),
        r.disposition is None,
{
    RoutePlan { status: 200, media: Some(MediaType::Css), disposition: None }
}

/// The clipboard script: served as JavaScript with status 200.
pub fn copy_js() -> (r: RoutePlan)
    ensures
        r.status == 200,
        r.media == Some(MediaType::JavaScript),
        r.disposition is None,
{
    RoutePlan { status: 200, media: Some(MediaType::JavaScript), disposition: None }
}

/// The downloadable source archive: a zip attachment with a fixed file name.
pub fn code() -> (r: RoutePlan)
    ensures
        r.status == 200,
        r.media == Some(MediaType::Zip),
        r.disposition matches Some(d) && d@ == "attachment; filename=\"emojos.in.zip\""@,
{
    RoutePlan {
        status: 200,
        media: Some(MediaType::Zip),
        disposition: Some("attachment; filename=\"emojos.in.zip\""),
    }
}

/// There is no favicon: the route answers 404 with no body.
pub fn favicon_ico() -> (r: RoutePlan)
    ensures
        r.status == 404,
        r.media is None,
        r.disposition is None,
{
    RoutePlan { status: 404, media: None, disposition: None }
}

/// Crawlers get an empty 204 answer.
pub fn robots_txt() -> (r: RoutePlan)
    ensures
        r.status == 204,
        r.media is None,
        r.disposition is None,
{
    RoutePlan { status: 204, media: None, disposition: None }
}

/// Where the landing-page form redirects: the instance route, with each
/// display flag present in the query string only when it was checked.
pub struct RedirectTarget {
    pub instance: String,
    pub show_all: Option<bool>,
    pub show_animated: Option<bool>,
}

/// Turn a form submission into the redirect target for the instance route.
/// A checked flag becomes a `show_x=true` query parameter; an unchecked one
/// is left out of the query string entirely.
pub fn instance_form(instance: String, show_all: bool, show_animated: bool) -> (r: RedirectTarget)
    ensures
        r.instance@ == instance@,
        r.show_all == (if show_all {
            Some(true)
        } else {
            None::<bool>
        }),
        r.show_animated == (if show_animated {
            Some(true)
        } else {
            None::<bool>
        }),
{
    RedirectTarget {
        instance,
        show_all: if show_all {
            Some(true)
        } else {
            None
        },
        show_animated: if show_animated {
            Some(true)
        } else {
            None
        },
    }
}

impl RedirectTarget {
    /// The query-string suffix of the redirect URI: one `show_x=true`
    /// parameter per checked flag, empty when neither was checked.
    pub fn query_suffix(&self) -> (r: &'static str)
        ensures
            (self.show_all is Some && self.show_animated is Some) ==> r@
                == "?show_all=true&show_animated=true"@,
            (self.show_all is Some && self.show_animated is None) ==> r@ == "?show_all=true"@,
            (self.show_all is None && self.show_animated is Some) ==> r@ == "?show_animated=true"@,
            (self.show_all is None && self.show_animated is None) ==> r@ == ""@,
    {
        match (&self.show_all, &self.show_animated) {
            (Some(_), Some(_)) => "?show_all=true&show_animated=true",
            (Some(_), None) => "?show_all=true",
            (None, Some(_)) => "?show_animated=true",
            (None, None) => "",
        }
    }
}

} // verus!
