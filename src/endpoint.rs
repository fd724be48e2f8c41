//! A fixed endpoint, and the middleware that points a request at it.

use vstd::prelude::*;
use vstd::string::*;

use crate::uri::{
    authority_accepted, parse_authority, uri_text, PathAndQuery, PathAndQueryView, Uri, UriView,
};

verus! {

/// The host that the naming convention gives a service in a region:
/// `{service}.{region}.amazonaws.com`.
pub open spec fn service_authority(service: Seq<char>, region: Seq<char>) -> Seq<char> {
    service + "."@ + region + ".amazonaws.com"@
}

/// The endpoint of a service in a region: `https`, the conventional host, and
/// the root path.
pub open spec fn service_endpoint(service: Seq<char>, region: Seq<char>) -> UriView {
    UriView {
        scheme: Some("https"@),
        authority: Some(service_authority(service, region)),
        path_and_query: Some(PathAndQueryView { path: "/"@, query: None }),
    }
}

/// Whether an endpoint can be applied: it has both a scheme and an authority.
pub open spec fn is_complete_endpoint(endpoint: UriView) -> bool {
    endpoint.scheme is Some && endpoint.authority is Some
}

/// The request URI pointed at an endpoint: the endpoint's scheme and
/// authority, the request's path and query.
pub open spec fn applied(endpoint: UriView, request: UriView) -> UriView {
    UriView {
        scheme: endpoint.scheme,
        authority: endpoint.authority,
        path_and_query: request.path_and_query,
    }
}

/// Why an endpoint cannot be applied to a request URI.
#[derive(Debug, Clone, Copy, PartialEq, Eq, Structural)]
pub enum EndpointError {
    /// The endpoint's URI has no authority.
    MissingAuthority,
    /// The endpoint's URI has no scheme.
    MissingScheme,
    /// The request URI has no path and query.
    MissingPathAndQuery,
}

/// A pre-resolved endpoint: the scheme and authority that requests are sent to.
pub struct StaticEndpoint {
    uri: Uri,
}

impl View for StaticEndpoint {
    type V = UriView;

    closed spec fn view(&self) -> UriView {
        self.uri@
    }
}

/// `{service}.{region}.amazonaws.com` as a string.
fn service_host(service: &str, region: &str) -> (r: String)
    ensures
        r@ == service_authority(service@, region@),
{
    let mut host = service.to_owned();
    host.append(".");
    host.append(region);
    host.append(".amazonaws.com");
    host
}

impl StaticEndpoint {
    /// The URI that this endpoint holds.
    pub fn uri(&self) -> (r: &Uri)
        ensures
            r@ == self@,
    {
        &self.uri
    }

    /// The endpoint of `service` in `region`:
    /// `https://{service}.{region}.amazonaws.com`.
    pub fn from_service_region(service: &str, region: &str) -> (r: StaticEndpoint)
        requires
            authority_accepted(service_authority(service@, region@)),
        ensures
            r@ == service_endpoint(service@, region@),
    {
        let host = service_host(service, region);
        let authority = parse_authority(host.as_str()).unwrap();
        let path_and_query = PathAndQuery::from_parts("/".to_owned(), None);
        let uri = Uri::from_parts(Some("https".to_owned()), Some(authority), Some(path_and_query));
        StaticEndpoint { uri }
    }

    /// The endpoint of `service` in `region` as `from_service_region` builds
    /// it, or `None` where the host is not a valid authority.
    pub fn try_from_service_region(service: &str, region: &str) -> (r: Option<StaticEndpoint>)
        ensures
            r is Some <==> authority_accepted(service_authority(service@, region@)),
            r matches Some(e) ==> e@ == service_endpoint(service@, region@),
    {
        let host = service_host(service, region);
        match parse_authority(host.as_str()) {
            Some(_) => Some(StaticEndpoint::from_service_region(service, region)),
            None => None,
        }
    }

    /// The endpoint that `uri` names. Nothing is checked here: `apply` needs
    /// a scheme and an authority.
    pub fn from_uri(uri: Uri) -> (r: StaticEndpoint)
        ensures
            r@ == uri@,
    {
        StaticEndpoint { uri }
    }

    /// `base_uri` pointed at this endpoint: this endpoint's scheme and
    /// authority, with the path and query of `base_uri` unchanged.
    pub fn apply(&self, base_uri: &Uri) -> (r: Uri)
        requires
            is_complete_endpoint(self@),
            base_uri@.path_and_query is Some,
        ensures
            r@ == applied(self@, base_uri@),
            r@.scheme == self@.scheme,
            r@.authority == self@.authority,
            r@.path_and_query == base_uri@.path_and_query,
    {
        let authority = self.uri.authority().unwrap().to_owned();
        let scheme = self.uri.scheme().unwrap().to_owned();
        let path_and_query = base_uri.path_and_query().unwrap().clone();
        Uri::from_parts(Some(scheme), Some(authority), Some(path_and_query))
    }

    /// `apply`, or the reason it cannot be done: a missing authority, then a
    /// missing scheme, of this endpoint, then a missing path and query of
    /// `base_uri`, in that order.
    pub fn try_apply(&self, base_uri: &Uri) -> (r: Result<Uri, EndpointError>)
        ensures
            self@.authority is None ==> r == Err::<Uri, EndpointError>(
                EndpointError::MissingAuthority,
            ),
            self@.authority is Some && self@.scheme is None ==> r == Err::<Uri, EndpointError>(
                EndpointError::MissingScheme,
            ),
            is_complete_endpoint(self@) && base_uri@.path_and_query is None ==> r == Err::<
                Uri,
                EndpointError,
            >(EndpointError::MissingPathAndQuery),
            r is Ok <==> is_complete_endpoint(self@) && base_uri@.path_and_query is Some,
            r matches Ok(u) ==> u@ == applied(self@, base_uri@),
    {
        if self.uri.authority().is_none() {
            Err(EndpointError::MissingAuthority)
        } else if self.uri.scheme().is_none() {
            Err(EndpointError::MissingScheme)
        } else if base_uri.path_and_query().is_none() {
            Err(EndpointError::MissingPathAndQuery)
        } else {
            Ok(self.apply(base_uri))
        }
    }
}

/// Something that can point a request URI at an endpoint, in place.
pub trait ProvideEndpoint {
    /// Whether `set_endpoint` can act on `request_uri`.
    spec fn can_set_endpoint(&self, request_uri: UriView) -> bool;

    /// What `set_endpoint` makes of `request_uri`.
    spec fn endpoint_for(&self, request_uri: UriView) -> UriView;

    /// Points `request_uri` at this endpoint.
    fn set_endpoint(&self, request_uri: &mut Uri)
        requires
            self.can_set_endpoint(old(request_uri)@),
        ensures
            final(request_uri)@ == self.endpoint_for(old(request_uri)@),
    ;
}

impl ProvideEndpoint for StaticEndpoint {
    open spec fn can_set_endpoint(&self, request_uri: UriView) -> bool {
        is_complete_endpoint(self@) && request_uri.path_and_query is Some
    }

    open spec fn endpoint_for(&self, request_uri: UriView) -> UriView {
        applied(self@, request_uri)
    }

    /// Replaces `request_uri` by `self.apply(request_uri)`.
    fn set_endpoint(&self, request_uri: &mut Uri) {
        let new_uri = self.apply(request_uri);
        *request_uri = new_uri;
    }
}

/// A request on its way out: its URI, its body, and the endpoint strategy
/// configured for it.
pub struct Operation<H, P> {
    pub uri: Uri,
    pub body: H,
    pub endpoint_config: P,
}

/// A pipeline step that points a request at the endpoint its configuration
/// names.
#[derive(Clone, Copy)]
pub struct EndpointMiddleware;

impl EndpointMiddleware {
    /// Calls the configured strategy's `set_endpoint` on the request's URI.
    /// This step never fails; the rest of the request is left alone.
    pub fn apply<H, P: ProvideEndpoint>(&self, request: &mut Operation<H, P>) -> (r: Result<
        (),
        EndpointError,
    >)
        requires
            old(request).endpoint_config.can_set_endpoint(old(request).uri@),
        ensures
            r is Ok,
            final(request).uri@ == old(request).endpoint_config.endpoint_for(old(request).uri@),
            final(request).body == old(request).body,
            final(request).endpoint_config == old(request).endpoint_config,
    {
        request.endpoint_config.set_endpoint(&mut request.uri);
        Ok(())
    }
}

/// The conventional endpoint of a service in a region reads
/// `https://{service}.{region}.amazonaws.com/`.
pub proof fn lemma_service_endpoint_text(service: Seq<char>, region: Seq<char>)
    ensures
        uri_text(service_endpoint(service, region)) == "https://"@ + service + "."@ + region
            + ".amazonaws.com/"@,
{
    reveal_strlit("https");
    reveal_strlit("https://");
    reveal_strlit("/");
    reveal_strlit(".amazonaws.com");
    reveal_strlit(".amazonaws.com/");
    assert(uri_text(service_endpoint(service, region)) =~= "https://"@ + service + "."@ + region
        + ".amazonaws.com/"@);
}

/// Applying an endpoint keeps the request's path and query exactly.
pub proof fn lemma_apply_keeps_path_and_query(endpoint: UriView, request: UriView)
    requires
        is_complete_endpoint(endpoint),
        request.path_and_query is Some,
    ensures
        applied(endpoint, request).path_and_query == request.path_and_query,
{
}

/// Applying an endpoint gives the endpoint's scheme and authority, whatever
/// the request had.
pub proof fn lemma_apply_overrides_scheme_and_authority(endpoint: UriView, request: UriView)
    requires
        is_complete_endpoint(endpoint),
        request.path_and_query is Some,
    ensures
        applied(endpoint, request).scheme == endpoint.scheme,
        applied(endpoint, request).authority == endpoint.authority,
{
}

/// Applying the same endpoint twice gives what applying it once gives, and the
/// second application is always possible.
pub proof fn lemma_apply_idempotent(endpoint: UriView, request: UriView)
    requires
        is_complete_endpoint(endpoint),
        request.path_and_query is Some,
    ensures
        applied(endpoint, request).path_and_query is Some,
        applied(endpoint, applied(endpoint, request)) == applied(endpoint, request),
{
}

} // verus!
