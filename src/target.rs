use vstd::prelude::*;
use crate::text::concat;

verus! {

#[verifier::external_type_specification]
#[verifier::external_body]
pub struct ExUrlParseError(url::ParseError);

/// The parts of a parsed URL, as `(scheme, host, path, query)`, or `None`
/// where the text is not a URL.
pub uninterp spec fn url_parts_of(
    s: Seq<char>,
) -> Option<(Seq<char>, Option<Seq<char>>, Seq<char>, Option<Seq<char>>)>;

pub open spec fn opt_view(o: Option<String>) -> Option<Seq<char>> {
    match o {
        Some(s) => Some(s@),
        None => None,
    }
}

/// The components of a URL that dispatch reads.
pub struct UrlParts {
    pub scheme: String,
    pub host: Option<String>,
    pub path: String,
    pub query: Option<String>,
}

impl UrlParts {
    pub open spec fn parts(&self) -> (Seq<char>, Option<Seq<char>>, Seq<char>, Option<Seq<char>>) {
        (self.scheme@, opt_view(self.host), self.path@, opt_view(self.query))
    }
}

/// Relies on `url::Url::parse` and its accessors `scheme`, `host_str`, `path`
/// and `query`: the parts depend on the text alone.
#[verifier::external_body]
pub(crate) fn parse_url(s: &str) -> (r: Result<UrlParts, url::ParseError>)
    ensures
        r is Ok <==> url_parts_of(s@) is Some,
        r is Ok ==> url_parts_of(s@) == Some(r->Ok_0.parts()),
{
    let u = url::Url::parse(s)?;
    Ok(UrlParts {
        scheme: String::from(u.scheme()),
        host: u.host_str().map(String::from),
        path: String::from(u.path()),
        query: u.query().map(String::from),
    })
}

/// The path followed, where there is a query, by `?` and the query.
pub open spec fn path_and_extras(path: Seq<char>, query: Option<Seq<char>>) -> Seq<char> {
    match query {
        Some(q) => path + seq!['?'] + q,
        None => path,
    }
}

/// The payload delivered for a URL: the host read as a first path segment.
pub open spec fn full_path_of(host: Seq<char>, path: Seq<char>, query: Option<Seq<char>>) -> Seq<char> {
    seq!['/'] + host + path_and_extras(path, query)
}

/// Why a dispatch did not happen.
#[derive(Debug, PartialEq, Eq)]
pub enum DispatchError {
    /// The text is not a URL.
    InvalidUrl,
    /// The URL has no host.
    MissingHost,
    /// No command is stored for the scheme.
    NotRegistered,
    /// The stored command is unreadable or empty.
    MalformedConfig,
    /// The fallback process could not be started.
    SpawnFailed { exe: String, args: Vec<String> },
}

/// What a URL resolves to.
pub struct DispatchTarget {
    pub scheme: String,
    pub host: String,
    pub full_path: String,
}

/// Combines the path and the query string of a URL.
pub fn get_path_and_extras(parts: &UrlParts) -> (r: String)
    ensures
        r@ == path_and_extras(parts.path@, opt_view(parts.query)),
{
    match &parts.query {
        Some(q) => {
            let mut r = concat(parts.path.as_str(), "?");
            proof {
                reveal_strlit("?");
            }
            r.append(q.as_str());
            r
        },
        None => String::from_str(parts.path.as_str()),
    }
}

/// The dispatch target of the parts of a URL.
pub fn target_from_parts(parts: UrlParts) -> (r: Result<DispatchTarget, DispatchError>)
    ensures
        parts.host is None <==> r == Err::<DispatchTarget, DispatchError>(DispatchError::MissingHost),
        r is Ok <==> parts.host is Some,
        r is Ok ==> r->Ok_0.scheme@ == parts.scheme@ && r->Ok_0.host@ == parts.host->Some_0@
            && r->Ok_0.full_path@ == full_path_of(parts.host->Some_0@, parts.path@, opt_view(parts.query)),
{
    let extras = get_path_and_extras(&parts);
    match parts.host {
        None => Err(DispatchError::MissingHost),
        Some(host) => {
            let mut full_path = concat("/", host.as_str());
            proof {
                reveal_strlit("/");
            }
            full_path.append(extras.as_str());
            assert(full_path@ =~= full_path_of(host@, parts.path@, opt_view(parts.query)));
            Ok(DispatchTarget { scheme: parts.scheme, host, full_path })
        },
    }
}

/// Parses the URL of a dispatch.
pub fn parse_target(url: &str) -> (r: Result<DispatchTarget, DispatchError>)
    ensures
        url_parts_of(url@) is None <==> r == Err::<DispatchTarget, DispatchError>(DispatchError::InvalidUrl),
        (url_parts_of(url@) matches Some(p) && p.1 is None)
            <==> r == Err::<DispatchTarget, DispatchError>(DispatchError::MissingHost),
        r is Ok <==> (url_parts_of(url@) matches Some(p) && p.1 is Some),
        r is Ok ==> ({
            let p = url_parts_of(url@)->Some_0;
            &&& r->Ok_0.scheme@ == p.0
            &&& r->Ok_0.host@ == p.1->Some_0
            &&& r->Ok_0.full_path@ == full_path_of(p.1->Some_0, p.2, p.3)
        }),
{
    match parse_url(url) {
        Err(_) => Err(DispatchError::InvalidUrl),
        Ok(parts) => target_from_parts(parts),
    }
}

} // verus!
