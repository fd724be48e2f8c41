//! A URI held as its components: scheme, authority, and path with query.

use vstd::prelude::*;
use vstd::string::*;

verus! {

/// The mathematical value of a [`PathAndQuery`].
pub struct PathAndQueryView {
    pub path: Seq<char>,
    pub query: Option<Seq<char>>,
}

/// The mathematical value of a [`Uri`].
pub struct UriView {
    pub scheme: Option<Seq<char>>,
    pub authority: Option<Seq<char>>,
    pub path_and_query: Option<PathAndQueryView>,
}

/// The path of a URI together with its query string, if any.
pub struct PathAndQuery {
    path: String,
    query: Option<String>,
}

/// A URI split into the components that endpoint resolution reads and writes.
pub struct Uri {
    scheme: Option<String>,
    authority: Option<String>,
    path_and_query: Option<PathAndQuery>,
}

pub open spec fn opt_view(s: Option<String>) -> Option<Seq<char>> {
    match s {
        Some(t) => Some(t@),
        None => None,
    }
}

impl View for PathAndQuery {
    type V = PathAndQueryView;

    closed spec fn view(&self) -> PathAndQueryView {
        PathAndQueryView { path: self.path@, query: opt_view(self.query) }
    }
}

impl View for Uri {
    type V = UriView;

    closed spec fn view(&self) -> UriView {
        UriView {
            scheme: opt_view(self.scheme),
            authority: opt_view(self.authority),
            path_and_query: match self.path_and_query {
                Some(pq) => Some(pq@),
                None => None,
            },
        }
    }
}

/// The text of a path and query: the path, then `?` and the query if there is one.
pub open spec fn path_and_query_text(pq: PathAndQueryView) -> Seq<char> {
    match pq.query {
        Some(q) => pq.path + seq!['?'] + q,
        None => pq.path,
    }
}

/// The text of a URI: `scheme://`, the authority, then the path and query,
/// each where present.
pub open spec fn uri_text(u: UriView) -> Seq<char> {
    let scheme = match u.scheme {
        Some(s) => s + seq![':', '/', '/'],
        None => Seq::empty(),
    };
    let authority = match u.authority {
        Some(a) => a,
        None => Seq::empty(),
    };
    let rest = match u.path_and_query {
        Some(pq) => path_and_query_text(pq),
        None => Seq::empty(),
    };
    scheme + authority + rest
}

fn clone_opt_string(s: &Option<String>) -> (r: Option<String>)
    ensures
        opt_view(r) == opt_view(*s),
{
    match s {
        Some(t) => Some(t.clone()),
        None => None,
    }
}

impl Clone for PathAndQuery {
    fn clone(&self) -> (r: PathAndQuery)
        ensures
            r@ == self@,
    {
        PathAndQuery { path: self.path.clone(), query: clone_opt_string(&self.query) }
    }
}

impl PathAndQuery {
    /// A path and query with the given components.
    pub(crate) fn from_parts(path: String, query: Option<String>) -> (r: PathAndQuery)
        ensures
            r@.path == path@,
            r@.query == opt_view(query),
    {
        PathAndQuery { path, query }
    }

    /// The path; `/` for an empty one.
    pub fn path(&self) -> (r: &str)
        ensures
            r@ == self@.path,
    {
        self.path.as_str()
    }

    /// The query string after `?`, if there is one.
    pub fn query(&self) -> (r: Option<&str>)
        ensures
            match r {
                Some(q) => self@.query == Some(q@),
                None => self@.query is None,
            },
    {
        match &self.query {
            Some(q) => Some(q.as_str()),
            None => None,
        }
    }

    /// The path and query as one string.
    pub fn to_string(&self) -> (r: String)
        ensures
            r@ == path_and_query_text(self@),
    {
        let mut r = self.path.clone();
        match &self.query {
            Some(q) => {
                r.append("?");
                r.append(q.as_str());
                proof { reveal_strlit("?"); }
            },
            None => {},
        }
        r
    }
}


/// What `http` makes of a URI text: `None` where it refuses the text.
pub uninterp spec fn parsed_uri(s: Seq<char>) -> Option<UriView>;

/// Whether `http` accepts a text as the authority of a URI.
pub uninterp spec fn authority_accepted(s: Seq<char>) -> bool;

/// Relies on `<http::Uri as FromStr>::from_str` to parse a URI, and on the
/// accessors `scheme_str`, `authority`, `path_and_query`, `PathAndQuery::path`
/// and `PathAndQuery::query` to read its components.
#[verifier::external_body]
fn parse_uri(s: &str) -> (r: Option<Uri>)
    ensures
        match r {
            Some(u) => parsed_uri(s@) == Some(u@),
            None => parsed_uri(s@) is None,
        },
{
    let u = <http::Uri as std::str::FromStr>::from_str(s).ok()?;
    Some(Uri {
        scheme: u.scheme_str().map(|x| x.to_string()),
        authority: u.authority().map(|a| a.as_str().to_string()),
        path_and_query: u.path_and_query().map(|pq| PathAndQuery {
            path: pq.path().to_string(),
            query: pq.query().map(|q| q.to_string()),
        }),
    })
}

/// Relies on `<http::uri::Authority as FromStr>::from_str` to validate an
/// authority; on success `Authority::as_str` gives back the whole input.
#[verifier::external_body]
pub(crate) fn parse_authority(s: &str) -> (r: Option<String>)
    ensures
        r is Some <==> authority_accepted(s@),
        r matches Some(a) ==> a@ == s@,
{
    let a = <http::uri::Authority as std::str::FromStr>::from_str(s).ok()?;
    Some(a.as_str().to_string())
}

impl Uri {
    /// Parses a URI text. `None` where `http` refuses it.
    pub fn parse(s: &str) -> (r: Option<Uri>)
        ensures
            match r {
                Some(u) => parsed_uri(s@) == Some(u@),
                None => parsed_uri(s@) is None,
            },
    {
        parse_uri(s)
    }

    /// A URI with the given components.
    pub(crate) fn from_parts(
        scheme: Option<String>,
        authority: Option<String>,
        path_and_query: Option<PathAndQuery>,
    ) -> (r: Uri)
        ensures
            r@.scheme == opt_view(scheme),
            r@.authority == opt_view(authority),
            r@.path_and_query == (match path_and_query {
                Some(pq) => Some(pq@),
                None => None::<PathAndQueryView>,
            }),
    {
        Uri { scheme, authority, path_and_query }
    }

    /// The scheme, such as `https`, if there is one.
    pub fn scheme(&self) -> (r: Option<&str>)
        ensures
            match r {
                Some(s) => self@.scheme == Some(s@),
                None => self@.scheme is None,
            },
    {
        match &self.scheme {
            Some(s) => Some(s.as_str()),
            None => None,
        }
    }

    /// The authority (host and optional port), if there is one.
    pub fn authority(&self) -> (r: Option<&str>)
        ensures
            match r {
                Some(a) => self@.authority == Some(a@),
                None => self@.authority is None,
            },
    {
        match &self.authority {
            Some(a) => Some(a.as_str()),
            None => None,
        }
    }

    /// The path and query, if there are any.
    pub fn path_and_query(&self) -> (r: Option<&PathAndQuery>)
        ensures
            match r {
                Some(pq) => self@.path_and_query == Some(pq@),
                None => self@.path_and_query is None,
            },
    {
        match &self.path_and_query {
            Some(pq) => Some(pq),
            None => None,
        }
    }

    /// The URI as text: `scheme://`, the authority, then the path and query,
    /// each where present.
    pub fn to_string(&self) -> (r: String)
        ensures
            r@ == uri_text(self@),
    {
        let mut r = String::new();
        match &self.scheme {
            Some(s) => {
                r.append(s.as_str());
                r.append("://");
                proof { reveal_strlit("://"); }
            },
            None => {},
        }
        match &self.authority {
            Some(a) => r.append(a.as_str()),
            None => {},
        }
        match &self.path_and_query {
            Some(pq) => {
                let t = pq.to_string();
                r.append(t.as_str());
            },
            None => {},
        }
        proof {
            assert(r@ =~= uri_text(self@));
        }
        r
    }
}

} // verus!
