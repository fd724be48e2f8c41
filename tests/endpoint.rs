use operation::endpoint::{
    EndpointError, EndpointMiddleware, Operation, ProvideEndpoint, StaticEndpoint,
};
use operation::uri::Uri;

fn uri(s: &str) -> Uri {
    Uri::parse(s).unwrap()
}

#[test]
fn endpoint_from_svc() {
    let endpoint = StaticEndpoint::from_service_region("dynamodb", "us-west-2");
    assert_eq!(
        endpoint.uri().to_string(),
        "https://dynamodb.us-west-2.amazonaws.com/"
    );
}

#[test]
fn properly_update_uri() {
    let uri = Uri::parse("/get?k=123&v=456").unwrap();
    let endpoint = StaticEndpoint::from_uri(Uri::parse("http://localhost:8080/").unwrap());
    assert_eq!(
        endpoint.apply(&uri).to_string(),
        "http://localhost:8080/get?k=123&v=456"
    );
}

#[test]
fn service_region_components() {
    let endpoint = StaticEndpoint::from_service_region("s3", "eu-central-1");
    let u = endpoint.uri();
    assert_eq!(u.scheme(), Some("https"));
    assert_eq!(u.authority(), Some("s3.eu-central-1.amazonaws.com"));
    assert_eq!(u.path_and_query().unwrap().path(), "/");
    assert_eq!(u.path_and_query().unwrap().query(), None);
}

#[test]
fn try_from_service_region_accepts_plain_names() {
    let endpoint = StaticEndpoint::try_from_service_region("sqs", "ap-south-1").unwrap();
    assert_eq!(
        endpoint.uri().to_string(),
        "https://sqs.ap-south-1.amazonaws.com/"
    );
}

#[test]
fn try_from_service_region_refuses_invalid_host() {
    assert!(StaticEndpoint::try_from_service_region("bad service", "us-east-1").is_none());
    assert!(StaticEndpoint::try_from_service_region("sqs", "us east").is_none());
}

#[test]
fn parse_reads_components() {
    let u = uri("http://localhost:8080/get?k=1&v=2");
    assert_eq!(u.scheme(), Some("http"));
    assert_eq!(u.authority(), Some("localhost:8080"));
    let pq = u.path_and_query().unwrap();
    assert_eq!(pq.path(), "/get");
    assert_eq!(pq.query(), Some("k=1&v=2"));
    assert_eq!(pq.to_string(), "/get?k=1&v=2");
}

#[test]
fn parse_path_only_and_authority_only() {
    let p = uri("/a/b?x=1");
    assert_eq!(p.scheme(), None);
    assert_eq!(p.authority(), None);
    assert_eq!(p.to_string(), "/a/b?x=1");
    let a = uri("localhost:8080");
    assert_eq!(a.scheme(), None);
    assert_eq!(a.authority(), Some("localhost:8080"));
    assert!(a.path_and_query().is_none());
    assert_eq!(a.to_string(), "localhost:8080");
}

#[test]
fn parse_refuses_invalid_text() {
    assert!(Uri::parse("").is_none());
    assert!(Uri::parse("http://exa mple.com/").is_none());
}

#[test]
fn apply_keeps_path_and_query_exactly() {
    let endpoint = StaticEndpoint::from_uri(uri("https://example.org"));
    let request = uri("http://placeholder:1234/q/r?b=2&a=1&b=3");
    let out = endpoint.apply(&request);
    assert_eq!(out.path_and_query().unwrap().to_string(), "/q/r?b=2&a=1&b=3");
    assert_eq!(out.to_string(), "https://example.org/q/r?b=2&a=1&b=3");
}

#[test]
fn apply_overrides_scheme_and_authority() {
    let endpoint = StaticEndpoint::from_uri(uri("http://localhost:8080/ignored?x=1"));
    let request = uri("https://dynamodb.us-west-2.amazonaws.com/items");
    let out = endpoint.apply(&request);
    assert_eq!(out.scheme(), Some("http"));
    assert_eq!(out.authority(), Some("localhost:8080"));
    assert_eq!(out.to_string(), "http://localhost:8080/items");
}

#[test]
fn apply_twice_equals_apply_once() {
    let endpoint = StaticEndpoint::from_service_region("dynamodb", "us-west-2");
    let request = uri("/get?k=123&v=456");
    let once = endpoint.apply(&request);
    let twice = endpoint.apply(&once);
    assert_eq!(once.to_string(), twice.to_string());
    assert_eq!(
        twice.to_string(),
        "https://dynamodb.us-west-2.amazonaws.com/get?k=123&v=456"
    );
}

#[test]
fn try_apply_missing_authority() {
    let endpoint = StaticEndpoint::from_uri(uri("/only/a/path"));
    let r = endpoint.try_apply(&uri("/get"));
    assert_eq!(r.err(), Some(EndpointError::MissingAuthority));
}

#[test]
fn try_apply_missing_scheme() {
    let endpoint = StaticEndpoint::from_uri(uri("localhost:8080"));
    let r = endpoint.try_apply(&uri("/get"));
    assert_eq!(r.err(), Some(EndpointError::MissingScheme));
}

#[test]
fn try_apply_missing_path_and_query() {
    let endpoint = StaticEndpoint::from_uri(uri("http://localhost:8080/"));
    let r = endpoint.try_apply(&uri("example.com:443"));
    assert_eq!(r.err(), Some(EndpointError::MissingPathAndQuery));
}

#[test]
fn try_apply_success_matches_apply() {
    let endpoint = StaticEndpoint::from_uri(uri("http://localhost:8080/"));
    let request = uri("/get?k=123&v=456");
    let r = endpoint.try_apply(&request).unwrap();
    assert_eq!(r.to_string(), "http://localhost:8080/get?k=123&v=456");
}

#[test]
fn set_endpoint_rewrites_in_place() {
    let endpoint = StaticEndpoint::from_uri(uri("http://localhost:8080/"));
    let mut request = uri("/get?k=123&v=456");
    endpoint.set_endpoint(&mut request);
    assert_eq!(request.to_string(), "http://localhost:8080/get?k=123&v=456");
}

#[test]
fn middleware_points_request_at_configured_endpoint() {
    let mut op = Operation {
        uri: uri("/list?page=2"),
        body: vec![1u8, 2, 3],
        endpoint_config: StaticEndpoint::from_service_region("s3", "us-east-1"),
    };
    let r = EndpointMiddleware.apply(&mut op);
    assert!(r.is_ok());
    assert_eq!(
        op.uri.to_string(),
        "https://s3.us-east-1.amazonaws.com/list?page=2"
    );
    assert_eq!(op.body, vec![1u8, 2, 3]);
}
