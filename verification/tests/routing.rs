use gateway::{BackendAddress, Decision, Header, RouteError, RouteTable, GW};

fn blog() -> BackendAddress {
    BackendAddress::new("127.0.0.1", 4321, false, "example.com")
}

fn table() -> RouteTable {
    let mut table = RouteTable::new();
    table.insert("blog", blog());
    table.insert("sso", BackendAddress::new("127.0.0.1", 8085, false, "example.com"));
    table.insert("short", BackendAddress::new("s.example.com", 443, false, "example.com"));
    table
}

fn gw() -> GW {
    GW::new("example.com", "./static", "gateway", table()).unwrap()
}

#[test]
fn empty_base_domain_is_refused() {
    assert!(GW::new("", "./static", "gateway", RouteTable::new()).is_none());
}

#[test]
fn base_domain_with_a_path_is_refused() {
    assert!(GW::new("example.com/app", "./static", "gateway", RouteTable::new()).is_none());
    assert!(GW::new("/", "./static", "gateway", RouteTable::new()).is_none());
    assert!(GW::new("localhost:6188", "./static", "gateway", RouteTable::new()).is_some());
}

#[test]
fn gateway_keeps_its_configuration() {
    let g = gw();
    assert_eq!(g.base_domain(), "example.com");
    assert_eq!(g.static_root(), "./static");
    assert_eq!(g.server_name(), "gateway");
    assert_eq!(g.routes().len(), 3);
    assert!(!g.is_hardened());
    let h = g.with_hardening(true);
    assert!(h.is_hardened());
    assert_eq!(h.base_domain(), "example.com");
    assert_eq!(h.routes().lookup("blog"), Some(blog()));
    assert!(!h.with_hardening(false).is_hardened());
}

#[test]
fn root_site_reads_for_get_and_head() {
    let g = gw();
    assert_eq!(g.resolve("", "GET", "/x"), Decision::ServeStatic("./static/x".to_string()));
    assert_eq!(g.resolve("", "HEAD", "/x"), Decision::ServeStatic("./static/x".to_string()));
}

#[test]
fn root_site_refuses_other_methods() {
    let g = gw();
    for m in ["POST", "PUT", "DELETE", "PATCH", "OPTIONS", "get", ""] {
        assert_eq!(g.resolve("", m, "/"), Decision::Error(RouteError::MethodNotAllowed));
    }
}

#[test]
fn root_path_resolves_to_the_index() {
    assert_eq!(gw().resolve("", "GET", "/"), Decision::ServeStatic("./static/index.html".to_string()));
}

#[test]
fn about_path_resolves_without_index() {
    assert_eq!(gw().resolve("", "GET", "/about"), Decision::ServeStatic("./static/about".to_string()));
}

#[test]
fn known_label_is_forwarded_whatever_the_request() {
    let g = gw();
    assert_eq!(g.resolve("blog", "GET", "/"), Decision::ForwardTo(blog()));
    assert_eq!(g.resolve("blog", "POST", "/submit"), Decision::ForwardTo(blog()));
    assert_eq!(g.resolve("blog", "DELETE", "/../x"), Decision::ForwardTo(blog()));
    assert_eq!(
        g.resolve("short", "GET", "/"),
        Decision::ForwardTo(BackendAddress::new("s.example.com", 443, false, "example.com"))
    );
}

#[test]
fn unknown_label_is_not_found() {
    let g = gw();
    assert_eq!(g.resolve("doesnotexist", "GET", "/"), Decision::Error(RouteError::NotFound));
    assert_eq!(g.resolve("Blog", "GET", "/"), Decision::Error(RouteError::NotFound));
    assert_eq!(g.resolve("blo", "POST", "/"), Decision::Error(RouteError::NotFound));
}

#[test]
fn resolving_twice_gives_the_same_decision() {
    let g = gw();
    for (label, method, path) in
        [("", "GET", "/"), ("", "POST", "/"), ("blog", "GET", "/a"), ("nope", "GET", "/")]
    {
        assert_eq!(g.resolve(label, method, path), g.resolve(label, method, path));
    }
    assert_eq!(g.static_response(Some(vec![7, 8])), g.static_response(Some(vec![7, 8])));
}

#[test]
fn scenario_forward_to_blog() {
    let mut table = RouteTable::new();
    table.insert("blog", blog());
    let g = GW::new("example.com", "./static", "gateway", table).unwrap();
    match g.route(Some("blog.example.com"), "GET", "/") {
        Decision::ForwardTo(a) => {
            assert_eq!(a.host, "127.0.0.1");
            assert_eq!(a.port, 4321);
            assert!(!a.tls);
        },
        other => panic!("not forwarded: {:?}", other),
    }
}

#[test]
fn scenario_root_index_is_served() {
    let g = gw();
    let file = match g.route(Some("example.com"), "GET", "/") {
        Decision::ServeStatic(file) => file,
        other => panic!("not served: {:?}", other),
    };
    assert_eq!(file, "./static/index.html");
    let contents = b"<html>home</html>".to_vec();
    let response = g.static_response(Some(contents.clone())).unwrap();
    assert_eq!(response.status, 200);
    assert_eq!(response.body, contents);
    assert_eq!(
        response.headers,
        vec![
            Header { name: "Server".to_string(), value: "gateway".to_string() },
            Header { name: "Content-Length".to_string(), value: "17".to_string() },
            Header { name: "Content-Type".to_string(), value: "text/html".to_string() },
        ]
    );
}

#[test]
fn scenario_missing_file_is_404() {
    let g = gw();
    let e = g.static_response(None).unwrap_err();
    assert_eq!(e, RouteError::NotFound);
    assert_eq!(e.status(), 404);
}

#[test]
fn scenario_foreign_host_is_400() {
    match gw().route(Some("evil.com"), "GET", "/") {
        Decision::Error(e) => {
            assert_eq!(e, RouteError::InvalidDomain);
            assert_eq!(e.status(), 400);
        },
        other => panic!("not rejected: {:?}", other),
    }
}

#[test]
fn scenario_post_to_root_is_405() {
    match gw().route(Some("example.com"), "POST", "/") {
        Decision::Error(e) => {
            assert_eq!(e, RouteError::MethodNotAllowed);
            assert_eq!(e.status(), 405);
        },
        other => panic!("not rejected: {:?}", other),
    }
}

#[test]
fn scenario_unknown_subdomain_is_404() {
    match gw().route(Some("unknown.example.com"), "GET", "/") {
        Decision::Error(e) => {
            assert_eq!(e, RouteError::NotFound);
            assert_eq!(e.status(), 404);
        },
        other => panic!("not rejected: {:?}", other),
    }
}

#[test]
fn missing_host_is_an_invalid_domain() {
    let g = gw();
    assert_eq!(g.route(None, "GET", "/"), Decision::Error(RouteError::InvalidDomain));
    assert_eq!(g.route(Some(""), "GET", "/"), Decision::Error(RouteError::InvalidDomain));
    assert_eq!(g.classify(None), Err(RouteError::InvalidDomain));
    assert_eq!(g.request_filter(None, "GET", "/"), Err(RouteError::InvalidDomain));
    assert_eq!(g.upstream_peer(None), Err(RouteError::InvalidDomain));
}

#[test]
fn gateway_classifies_by_its_base_domain() {
    let g = gw();
    assert_eq!(g.classify(Some("blog.example.com")), Ok("blog".to_string()));
    assert_eq!(g.classify(Some("example.com")), Ok(String::new()));
    assert_eq!(g.classify(Some("evilexample.com")), Ok("evil".to_string()));
    let h = g.with_hardening(true);
    assert_eq!(h.classify(Some("evilexample.com")), Err(RouteError::InvalidDomain));
    assert_eq!(h.classify(Some("blog.example.com")), Ok("blog".to_string()));
}

#[test]
fn filter_serves_the_root_site() {
    let g = gw();
    assert_eq!(
        g.request_filter(Some("example.com"), "GET", "/"),
        Ok(Some("./static/index.html".to_string()))
    );
    assert_eq!(
        g.request_filter(Some("example.com"), "HEAD", "/about"),
        Ok(Some("./static/about".to_string()))
    );
    assert_eq!(
        g.request_filter(Some("example.com"), "POST", "/"),
        Err(RouteError::MethodNotAllowed)
    );
    assert_eq!(g.request_filter(Some("evil.com"), "GET", "/"), Err(RouteError::InvalidDomain));
}

#[test]
fn filter_leaves_subdomains_to_the_backends() {
    let g = gw();
    assert_eq!(g.request_filter(Some("blog.example.com"), "POST", "/x"), Ok(None));
    assert_eq!(g.request_filter(Some("unknown.example.com"), "GET", "/"), Ok(None));
}

#[test]
fn upstream_is_the_configured_backend() {
    let g = gw();
    assert_eq!(g.upstream_peer(Some("blog.example.com")), Ok(blog()));
    assert_eq!(g.upstream_peer(Some("unknown.example.com")), Err(RouteError::NotFound));
    assert_eq!(g.upstream_peer(Some("example.com")), Err(RouteError::NotFound));
    assert_eq!(g.upstream_peer(Some("evil.com")), Err(RouteError::InvalidDomain));
}

#[test]
fn filter_and_upstream_agree_with_route() {
    let g = gw();
    for host in ["example.com", "blog.example.com", "unknown.example.com", "evil.com", ""] {
        for method in ["GET", "POST"] {
            let whole = g.route(Some(host), method, "/p");
            let stepwise = match g.request_filter(Some(host), method, "/p") {
                Err(e) => Decision::Error(e),
                Ok(Some(file)) => Decision::ServeStatic(file),
                Ok(None) => match g.upstream_peer(Some(host)) {
                    Ok(a) => Decision::ForwardTo(a),
                    Err(e) => Decision::Error(e),
                },
            };
            assert_eq!(whole, stepwise);
        }
    }
}

#[test]
fn hardening_refuses_parent_segments() {
    let plain = gw();
    assert_eq!(
        plain.resolve("", "GET", "/../secret"),
        Decision::ServeStatic("./static/../secret".to_string())
    );
    let hard = gw().with_hardening(true);
    assert_eq!(hard.resolve("", "GET", "/../secret"), Decision::Error(RouteError::NotFound));
    assert_eq!(hard.resolve("", "POST", "/../secret"), Decision::Error(RouteError::MethodNotAllowed));
    assert_eq!(hard.resolve("", "GET", "/a..b"), Decision::ServeStatic("./static/a..b".to_string()));
    assert_eq!(hard.resolve("", "GET", "/"), Decision::ServeStatic("./static/index.html".to_string()));
    assert_eq!(hard.resolve("blog", "GET", "/../x"), Decision::ForwardTo(blog()));
}

#[test]
fn hardening_refuses_hosts_off_the_boundary() {
    let hard = gw().with_hardening(true);
    assert_eq!(
        hard.route(Some("evilexample.com"), "GET", "/"),
        Decision::Error(RouteError::InvalidDomain)
    );
    assert_eq!(hard.route(Some("blog.example.com"), "GET", "/"), Decision::ForwardTo(blog()));
    assert_eq!(
        gw().route(Some("evilexample.com"), "GET", "/"),
        Decision::Error(RouteError::NotFound)
    );
}

#[test]
fn statuses_match_the_http_codes() {
    assert_eq!(RouteError::InvalidDomain.status(), http::StatusCode::BAD_REQUEST.as_u16());
    assert_eq!(RouteError::MethodNotAllowed.status(), http::StatusCode::METHOD_NOT_ALLOWED.as_u16());
    assert_eq!(RouteError::NotFound.status(), http::StatusCode::NOT_FOUND.as_u16());
}

#[test]
fn reasons_are_short_texts() {
    assert_eq!(RouteError::InvalidDomain.reason(), "invalid domain");
    assert_eq!(RouteError::MethodNotAllowed.reason(), "method not allowed");
    assert_eq!(RouteError::NotFound.reason(), "not found");
}
