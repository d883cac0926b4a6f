//! Sites: the site record, its identifier and builders, and how a request's
//! URL selects the site to read.

use vstd::prelude::*;
use crate::pages::PageId;

verus! {

/// Read access to a site's attributes.
pub trait SiteTrait {
    spec fn id_view(&self) -> Seq<char>;

    spec fn domain_view(&self) -> Seq<char>;

    spec fn name_view(&self) -> Seq<char>;

    spec fn description_view(&self) -> Seq<char>;

    fn id(&self) -> (r: String)
        ensures
            r@ == self.id_view(),
    ;

    fn domain(&self) -> (r: String)
        ensures
            r@ == self.domain_view(),
    ;

    fn name(&self) -> (r: String)
        ensures
            r@ == self.name_view(),
    ;

    fn description(&self) -> (r: String)
        ensures
            r@ == self.description_view(),
    ;
}

/// A site served by the engine.
#[derive(Clone)]
pub struct Site {
    pub id: String,
    pub domain: String,
    pub name: String,
    pub description: String,
}

impl Site {
    /// Builds a site; note the order of the arguments: the identifier comes last.
    pub fn new(domain: String, name: String, description: String, id: String) -> (s: Site)
        ensures
            s.id_view() == id@,
            s.domain_view() == domain@,
            s.name_view() == name@,
            s.description_view() == description@,
    {
        Site { id, domain, name, description }
    }
}

impl SiteTrait for Site {
    open spec fn id_view(&self) -> Seq<char> {
        self.id@
    }

    open spec fn domain_view(&self) -> Seq<char> {
        self.domain@
    }

    open spec fn name_view(&self) -> Seq<char> {
        self.name@
    }

    open spec fn description_view(&self) -> Seq<char> {
        self.description@
    }

    fn id(&self) -> (r: String) {
        self.id.clone()
    }

    fn domain(&self) -> (r: String) {
        self.domain.clone()
    }

    fn name(&self) -> (r: String) {
        self.name.clone()
    }

    fn description(&self) -> (r: String) {
        self.description.clone()
    }
}

/// The identifier of a site.
pub trait SiteId {
    spec fn value_view(&self) -> Seq<char>;

    fn value(&self) -> (r: String)
        ensures
            r@ == self.value_view(),
    ;
}

/// The identifier a [`SiteIdBuilder`] makes.
pub struct SiteIdImpl {
    value: String,
}

impl SiteId for SiteIdImpl {
    closed spec fn value_view(&self) -> Seq<char> {
        self.value@
    }

    fn value(&self) -> (r: String) {
        self.value.clone()
    }
}

/// Makes site identifiers from their text.
pub trait SiteIdBuilder {
    fn build(&self, id: String) -> (r: SiteIdImpl)
        ensures
            r.value_view() == id@,
    ;
}

/// The builder of site identifiers.
pub struct SiteIdBuilderImpl;

impl SiteIdBuilderImpl {
    pub fn new() -> (r: SiteIdBuilderImpl) {
        SiteIdBuilderImpl
    }
}

impl SiteIdBuilder for SiteIdBuilderImpl {
    fn build(&self, id: String) -> (r: SiteIdImpl) {
        SiteIdImpl { value: id }
    }
}

/// Turns a site value into the site the engine hands out.
pub trait SiteBuilder {
    fn build(&self, site: Site) -> (r: Site)
        ensures
            r == site,
    ;
}

/// The builder of sites.
pub struct SiteBuilderImpl;

impl SiteBuilderImpl {
    pub fn new() -> (r: SiteBuilderImpl) {
        SiteBuilderImpl
    }
}

impl SiteBuilder for SiteBuilderImpl {
    fn build(&self, site: Site) -> (r: Site) {
        site
    }
}

/// How a site is looked up in storage.
pub enum SiteReadOption {
    SiteId(SiteIdImpl),
    Domain(String),
}

/// The pages of a site.
pub struct SitePages {
    pub pages: Vec<PageId>,
}

/// What [`url_host`] gives back: the host part of a URL's text, or `None`
/// when the text is no URL or has no host.
pub uninterp spec fn url_host_of(url: Seq<char>) -> Option<Seq<char>>;

/// A plain lower-case domain: letters `a` to `z` and dots, beginning and
/// ending with a letter.
pub open spec fn is_plain_domain(h: Seq<char>) -> bool {
    &&& h.len() > 0
    &&& forall|i: int| 0 <= i < h.len() ==> ('a' <= #[trigger] h[i] && h[i] <= 'z') || h[i] == '.'
    &&& 'a' <= h[0] && h[0] <= 'z'
    &&& 'a' <= h[h.len() - 1] && h[h.len() - 1] <= 'z'
}

/// Calls `url::Url::parse` on the text and then `Url::host_str` on the parsed
/// URL. The contract claims that the result is a function of the text (named
/// `url_host_of`), and that for `http://` followed by a plain lower-case
/// domain and `/` the host is that domain, character for character: the
/// parser reads the host up to the `/`, the IDNA step passes a text of
/// letters `a` to `z` and dots through unchanged, and a last label of letters
/// is no number, so the host is a domain, which `host_str` gives back as it
/// stands. What the parser does with other texts is left to the `url` crate.
#[verifier::external_body]
fn url_host(url: &str) -> (r: Option<String>)
    ensures
        r.deep_view() == url_host_of(url@),
        forall|h: Seq<char>| #[trigger] is_plain_domain(h) && url@ == "http://"@ + h + "/"@ ==> r.deep_view() == Some(h),
{
    match url::Url::parse(url) {
        Ok(parsed) => parsed.host_str().map(|h| h.to_string()),
        Err(_) => None,
    }
}

/// The storage lookup for a request to `url`: the site whose domain is the
/// URL's host; `None` when the text is no URL or has no host.
pub fn site_query_checked(url: &str) -> (r: Option<SiteReadOption>)
    ensures
        url_host_of(url@) is None ==> r is None,
        url_host_of(url@) is Some ==> (r matches Some(SiteReadOption::Domain(d)) && d@
            == url_host_of(url@)->0),
        forall|h: Seq<char>|
            #[trigger] is_plain_domain(h) && url@ == "http://"@ + h + "/"@ ==> (r matches Some(
                SiteReadOption::Domain(d),
            ) && d@ == h),
{
    match url_host(url) {
        Some(host) => Some(SiteReadOption::Domain(host)),
        None => None,
    }
}

} // verus!
