use trunk::config::{check_rules_unambiguous, ProxyRule, ServeConfig};
use trunk::ignore::IgnoreList;
use trunk::serve::{
    dispatch, handle_request, http_addr, index_fallback, listen_addr, OutputTree, Response,
    RouteDecision, StaticFile,
};

fn rule(prefix: &str, backend: &str, rewrite: Option<&str>) -> ProxyRule {
    ProxyRule {
        prefix: prefix.as_bytes().to_vec(),
        backend: backend.as_bytes().to_vec(),
        rewrite: rewrite.map(|r| r.as_bytes().to_vec()),
    }
}

fn two_rule_config() -> ServeConfig {
    ServeConfig {
        dist: b"dist".to_vec(),
        public_url: b"/".to_vec(),
        port: 8080,
        open: false,
        hot_reload: true,
        proxy_backend: None,
        proxies: vec![
            rule("/api", "http://a", None),
            rule("/ws", "http://b", None),
        ],
    }
}

fn tree() -> OutputTree {
    OutputTree {
        files: vec![
            StaticFile {
                path: b"index.html".to_vec(),
                body: b"<html>root</html>".to_vec(),
            },
            StaticFile {
                path: b"app.css".to_vec(),
                body: b"body{}".to_vec(),
            },
        ],
    }
}

#[test]
fn matching_path_serves_file_bytes_unmodified() {
    let t = tree();
    let r = handle_request(
        &t,
        &b"/".to_vec(),
        &b"<html>root</html>".to_vec(),
        &b"/app.css".to_vec(),
    );
    assert_eq!(r.status, 200);
    assert!(!r.html);
    assert_eq!(r.body, b"body{}".to_vec());
}

#[test]
fn html_file_served_with_html_content_type() {
    let t = tree();
    let r = handle_request(
        &t,
        &b"/".to_vec(),
        &b"<html>root</html>".to_vec(),
        &b"/index.html".to_vec(),
    );
    assert_eq!(r.status, 200);
    assert!(r.html);
    assert_eq!(r.body, b"<html>root</html>".to_vec());
}

#[test]
fn unmatched_path_gets_fallback_document() {
    let t = tree();
    let r = handle_request(
        &t,
        &b"/".to_vec(),
        &b"<html>root</html>".to_vec(),
        &b"/settings/profile".to_vec(),
    );
    assert_eq!(r.status, 200);
    assert!(r.html);
    assert_eq!(r.body, b"<html>root</html>".to_vec());
}

#[test]
fn traversal_path_gets_fallback_not_file() {
    let t = OutputTree {
        files: vec![StaticFile {
            path: b"../secret".to_vec(),
            body: b"hidden".to_vec(),
        }],
    };
    let r = handle_request(
        &t,
        &b"/".to_vec(),
        &b"<html>root</html>".to_vec(),
        &b"/../secret".to_vec(),
    );
    assert_eq!(r.status, 200);
    assert!(r.html);
    assert_eq!(r.body, b"<html>root</html>".to_vec());
}

#[test]
fn fallback_leaves_other_statuses_unchanged() {
    let inner = Response {
        status: 500,
        html: false,
        body: b"boom".to_vec(),
    };
    let r = index_fallback(inner, &b"<html>root</html>".to_vec());
    assert_eq!(r.status, 500);
    assert!(!r.html);
    assert_eq!(r.body, b"boom".to_vec());
}

#[test]
fn first_file_wins_on_duplicate_paths() {
    let t = OutputTree {
        files: vec![
            StaticFile {
                path: b"a.txt".to_vec(),
                body: b"first".to_vec(),
            },
            StaticFile {
                path: b"a.txt".to_vec(),
                body: b"second".to_vec(),
            },
        ],
    };
    assert_eq!(t.resolve(&b"a.txt".to_vec()), Some(b"first".to_vec()));
    assert_eq!(t.resolve(&b"missing".to_vec()), None);
}

#[test]
fn proxy_rules_route_by_first_matching_prefix() {
    let cfg = two_rule_config();
    match dispatch(&cfg, &b"/api/x".to_vec()) {
        RouteDecision::Forward { rule, target } => {
            assert_eq!(rule, 0);
            assert_eq!(target, b"http://a/x".to_vec());
        }
        RouteDecision::Serve => panic!("expected forward"),
    }
    match dispatch(&cfg, &b"/ws/y".to_vec()) {
        RouteDecision::Forward { rule, target } => {
            assert_eq!(rule, 1);
            assert_eq!(target, b"http://b/y".to_vec());
        }
        RouteDecision::Serve => panic!("expected forward"),
    }
}

#[test]
fn unrelated_path_is_never_forwarded() {
    let cfg = two_rule_config();
    assert!(matches!(
        dispatch(&cfg, &b"/app".to_vec()),
        RouteDecision::Serve
    ));
    assert!(matches!(
        dispatch(&cfg, &b"/apix".to_vec()),
        RouteDecision::Serve
    ));
}

#[test]
fn single_backend_takes_precedence_over_rule_list() {
    let mut cfg = two_rule_config();
    cfg.proxy_backend = Some(rule("/api", "http://primary", None));
    match dispatch(&cfg, &b"/api/x".to_vec()) {
        RouteDecision::Forward { rule, target } => {
            assert_eq!(rule, 0);
            assert_eq!(target, b"http://primary/x".to_vec());
        }
        RouteDecision::Serve => panic!("expected forward"),
    }
    match dispatch(&cfg, &b"/ws/y".to_vec()) {
        RouteDecision::Forward { rule, target } => {
            assert_eq!(rule, 2);
            assert_eq!(target, b"http://b/y".to_vec());
        }
        RouteDecision::Serve => panic!("expected forward"),
    }
}

#[test]
fn rewrite_replaces_stripped_prefix() {
    let cfg = ServeConfig {
        proxies: vec![rule("/api", "http://a", Some("/v2"))],
        ..two_rule_config()
    };
    match dispatch(&cfg, &b"/api/x".to_vec()) {
        RouteDecision::Forward { target, .. } => {
            assert_eq!(target, b"http://a/v2/x".to_vec());
        }
        RouteDecision::Serve => panic!("expected forward"),
    }
}

#[test]
fn exact_prefix_match_forwards_to_backend_root() {
    let cfg = two_rule_config();
    match dispatch(&cfg, &b"/api".to_vec()) {
        RouteDecision::Forward { rule, target } => {
            assert_eq!(rule, 0);
            assert_eq!(target, b"http://a".to_vec());
        }
        RouteDecision::Serve => panic!("expected forward"),
    }
}

#[test]
fn shadowing_rules_are_flagged_ambiguous() {
    let ambiguous = vec![rule("/api", "http://a", None), rule("/api/v2", "http://b", None)];
    assert!(!check_rules_unambiguous(&ambiguous));
    let fine = vec![rule("/api", "http://a", None), rule("/ws", "http://b", None)];
    assert!(check_rules_unambiguous(&fine));
}

#[test]
fn announced_paths_do_not_trigger_rebuilds() {
    let mut ignored = IgnoreList::new();
    ignored.announce(b"dist/index.html".to_vec());
    assert!(!ignored.should_rebuild(&b"dist/index.html".to_vec()));
    assert!(ignored.should_rebuild(&b"src/main.css".to_vec()));
}

#[test]
fn addresses_format_port_and_prefix() {
    assert_eq!(
        http_addr(8080, &b"/".to_vec()),
        b"http://127.0.0.1:8080/".to_vec()
    );
    assert_eq!(listen_addr(3000), b"0.0.0.0:3000".to_vec());
    assert_eq!(listen_addr(7), b"0.0.0.0:7".to_vec());
}
