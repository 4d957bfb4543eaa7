use http::uri::{Authority, Parts, PathAndQuery, Scheme};
use http::Uri;
use spawner::proxy::{
    rewrite_uri, MakeProxyService, ProxyError, ProxyReply, ProxyRequest, ProxyService, ProxyStage,
    ProxyStep, RewriteError, UriParts, UriPartsError, NOT_FOUND,
};

type Step = ProxyStep<u8, String>;

fn parts(scheme: Option<&str>, authority: Option<&str>, path: Option<&str>) -> UriParts {
    UriParts {
        scheme: scheme.map(|s| s.to_string()),
        authority: authority.map(|s| s.to_string()),
        path_and_query: path.map(|s| s.to_string()),
    }
}

fn begin(host: Option<&[u8]>, uri: UriParts) -> (ProxyRequest, Step) {
    let service = ProxyService { db: 1u8, client: 2u8 };
    service.handle(host, uri)
}

fn looking_up() -> ProxyRequest {
    begin(Some(b"a.example"), parts(None, None, Some("/p?q=1"))).0
}

#[test]
fn rewriting_replaces_scheme_and_authority() {
    let uri = parts(Some("https"), Some("a.example"), Some("/path?query=1"));
    let new = rewrite_uri("127.0.0.1:5000", &uri).unwrap();
    assert_eq!(new.scheme, Some("http".to_string()));
    assert_eq!(new.authority, Some("127.0.0.1:5000".to_string()));
    assert_eq!(new.path_and_query, Some("/path?query=1".to_string()));
    let new = rewrite_uri("b", &parts(None, None, Some("/"))).unwrap();
    assert_eq!(new.scheme, Some("http".to_string()));
    assert_eq!(new.authority, Some("b".to_string()));
}

#[test]
fn only_the_last_rewrite_counts() {
    let uri = parts(None, None, Some("/x"));
    let twice = rewrite_uri("second:2", &rewrite_uri("first:1", &uri).unwrap()).unwrap();
    let once = rewrite_uri("second:2", &uri).unwrap();
    assert_eq!(twice.scheme, once.scheme);
    assert_eq!(twice.authority, once.authority);
    assert_eq!(twice.path_and_query, once.path_and_query);
    assert_eq!(twice.check(), Ok(()));
}

#[test]
fn addresses_must_be_authorities() {
    let uri = parts(None, None, Some("/"));
    for address in ["", "a b", "a/b", "http://a", "a:1:2", "user@", "[::1", "a%20", "\u{e9}"] {
        assert!(
            matches!(
                rewrite_uri(address, &uri),
                Err(RewriteError::InvalidAuthority(_))
            ),
            "{:?}",
            address
        );
    }
    let long = "a".repeat(70_000);
    assert_eq!(rewrite_uri(&long, &uri).unwrap().authority, Some(long));
    for address in ["a", "A-1.b:80", "127.0.0.1:65535", "localhost:", ":", "user@host", "[::1]:80"] {
        assert_eq!(
            rewrite_uri(address, &uri).unwrap().authority,
            Some(address.to_string())
        );
    }
}

#[test]
fn a_uri_without_a_path_is_not_rewritten() {
    let uri = parts(None, Some("a.example:443"), None);
    assert!(matches!(
        rewrite_uri("b:1", &uri),
        Err(RewriteError::InvalidParts(UriPartsError::PathAndQueryMissing))
    ));
    assert!(matches!(
        rewrite_uri("", &uri),
        Err(RewriteError::InvalidAuthority(_))
    ));
}

#[test]
fn parts_are_checked_like_those_of_a_uri() {
    for scheme in [None, Some("http")] {
        for authority in [None, Some("a.example")] {
            for path in [None, Some("/p")] {
                let mut outside = Parts::default();
                outside.scheme = scheme.map(|_| Scheme::HTTP);
                outside.authority = authority.map(Authority::from_static);
                outside.path_and_query = path.map(PathAndQuery::from_static);
                let expected = Uri::from_parts(outside).map(|_| ()).map_err(|e| e.to_string());
                let checked = parts(scheme, authority, path).check();
                assert_eq!(checked.map_err(|e| e.to_string()), expected);
            }
        }
    }
}

#[test]
fn missing_parts_are_told() {
    assert_eq!(UriPartsError::SchemeMissing.to_string(), "scheme missing");
    assert_eq!(UriPartsError::AuthorityMissing.to_string(), "authority missing");
    assert_eq!(UriPartsError::PathAndQueryMissing.to_string(), "path missing");
    assert_eq!(
        parts(None, Some("a"), Some("/")).check(),
        Err(UriPartsError::SchemeMissing)
    );
    assert_eq!(
        parts(Some("http"), None, Some("/")).check(),
        Err(UriPartsError::AuthorityMissing)
    );
}

#[test]
fn the_named_host_is_looked_up() {
    let (request, step) = begin(Some("a.example:8080".as_bytes()), parts(None, None, Some("/")));
    assert!(matches!(step, ProxyStep::LookUp { host } if host == "a.example:8080"));
    assert_eq!(request.stage, ProxyStage::LookingUp);
    let (_, step) = begin(Some("\u{e9}.example".as_bytes()), parts(None, None, Some("/")));
    assert!(matches!(step, ProxyStep::LookUp { host } if host == "\u{e9}.example"));
}

#[test]
fn a_host_that_is_no_text_is_an_error() {
    for bytes in [&[0xffu8][..], &[0xc3u8][..], &[b'a', 0x80][..], &[0xed, 0xa0, 0x80][..]] {
        let (request, step) = begin(Some(bytes), parts(None, None, Some("/")));
        assert!(matches!(step, ProxyStep::Fail(ProxyError::InvalidHost(_))));
        assert_eq!(request.stage, ProxyStage::Finished);
    }
}

#[test]
fn an_unknown_host_is_not_found() {
    assert_eq!(NOT_FOUND, 404);
    let (mut request, step) = begin(None, parts(None, None, Some("/")));
    assert!(matches!(step, ProxyStep::RespondEmpty { status: 404 }));
    let next: Option<Step> = request.step(ProxyReply::Route(Ok(None)));
    assert!(next.is_none());
    let mut request = looking_up();
    let next: Option<Step> = request.step(ProxyReply::Route(Ok(None)));
    assert!(matches!(next, Some(ProxyStep::RespondEmpty { status: 404 })));
}

#[test]
fn a_request_goes_to_its_route() {
    let mut request = looking_up();
    let step: Option<Step> =
        request.step(ProxyReply::Route(Ok(Some("127.0.0.1:4000".to_string()))));
    match step {
        Some(ProxyStep::Forward { uri }) => {
            assert_eq!(uri.scheme, Some("http".to_string()));
            assert_eq!(uri.authority, Some("127.0.0.1:4000".to_string()));
            assert_eq!(uri.path_and_query, Some("/p?q=1".to_string()));
        }
        _ => panic!("expected the request to be sent on"),
    }
    let step: Option<Step> = request.step(ProxyReply::Response(Ok(5)));
    assert!(matches!(step, Some(ProxyStep::Respond(5))));
    let step: Option<Step> = request.step(ProxyReply::Response(Ok(6)));
    assert!(step.is_none());
}

#[test]
fn failures_end_a_request() {
    let mut request = looking_up();
    let step: Option<Step> = request.step(ProxyReply::Route(Err("db".to_string())));
    assert!(matches!(step, Some(ProxyStep::Fail(ProxyError::Lookup(e))) if e == "db"));
    let step: Option<Step> = request.step(ProxyReply::Route(Ok(None)));
    assert!(step.is_none());

    let mut request = looking_up();
    let step: Option<Step> = request.step(ProxyReply::Route(Ok(Some("a b".to_string()))));
    assert!(matches!(
        step,
        Some(ProxyStep::Fail(ProxyError::Rewrite(RewriteError::InvalidAuthority(_))))
    ));
    assert_eq!(request.stage, ProxyStage::Finished);

    let mut request = begin(Some(b"a"), parts(None, Some("a:1"), None)).0;
    let step: Option<Step> = request.step(ProxyReply::Route(Ok(Some("b:1".to_string()))));
    assert!(matches!(
        step,
        Some(ProxyStep::Fail(ProxyError::Rewrite(RewriteError::InvalidParts(
            UriPartsError::PathAndQueryMissing
        ))))
    ));

    let mut request = looking_up();
    let _: Option<Step> = request.step(ProxyReply::Route(Ok(Some("b:1".to_string()))));
    let step: Option<Step> = request.step(ProxyReply::Response(Err("refused".to_string())));
    assert!(matches!(step, Some(ProxyStep::Fail(ProxyError::Upstream(e))) if e == "refused"));
}

#[test]
fn replies_out_of_turn_are_ignored() {
    let mut request = looking_up();
    let step: Option<Step> = request.step(ProxyReply::Response(Ok(1)));
    assert!(step.is_none());
    assert_eq!(request.stage, ProxyStage::LookingUp);
}

#[test]
fn services_share_routes_and_client() {
    let maker = MakeProxyService::new("db".to_string(), 9u8);
    let service = maker.call();
    assert_eq!(service.db, "db");
    assert_eq!(service.client, 9);
    let copy = service.clone();
    assert_eq!(copy.db, "db");
    assert_eq!(copy.client, 9);
}
