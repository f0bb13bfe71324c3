use server_directory::pages::{css, Response};
use server_directory::routing::{decode_percent_bytes, decode_segment, match_route, AssetKind, Method, Route};

fn category_of(path: &str) -> Option<String> {
    match match_route(Method::Get, path) {
        Some(Route::Category { category_name }) => Some(category_name),
        _ => None,
    }
}

#[test]
fn root_goes_to_index() {
    assert!(matches!(match_route(Method::Get, "/"), Some(Route::Index)));
}

#[test]
fn api_servers_route() {
    assert!(matches!(match_route(Method::Get, "/api/servers"), Some(Route::ApiServers)));
}

#[test]
fn category_route_captures_name() {
    assert_eq!(category_of("/category/Gaming"), Some("Gaming".to_string()));
}

#[test]
fn category_route_needs_one_segment() {
    assert_eq!(category_of("/category/"), None);
    assert_eq!(category_of("/category/a/b"), None);
    assert!(match_route(Method::Get, "/category/").is_none());
}

#[test]
fn details_route_captures_address() {
    match match_route(Method::Get, "/details/conduit.example.org") {
        Some(Route::Details { server_url }) => assert_eq!(server_url, "conduit.example.org"),
        _ => panic!("details route not matched"),
    }
}

#[test]
fn asset_routes_pick_directory_by_extension() {
    match match_route(Method::Get, "/assets/style/main.css") {
        Some(Route::Asset { kind, filename }) => {
            assert_eq!(kind, AssetKind::Css);
            assert_eq!(filename, "style/main.css");
        }
        _ => panic!("css route not matched"),
    }
    match match_route(Method::Get, "/assets/app.js") {
        Some(Route::Asset { kind, filename }) => {
            assert_eq!(kind, AssetKind::Js);
            assert_eq!(filename, "app.js");
        }
        _ => panic!("js route not matched"),
    }
    assert!(match_route(Method::Get, "/assets/logo.png").is_none());
}

#[test]
fn only_get_is_served() {
    assert!(match_route(Method::Post, "/").is_none());
    assert!(match_route(Method::Delete, "/api/servers").is_none());
}

#[test]
fn unknown_paths_are_not_found() {
    assert!(match_route(Method::Get, "/nowhere").is_none());
    assert!(match_route(Method::Get, "").is_none());
    assert!(match_route(Method::Get, "/api/servers/").is_none());
}

#[test]
fn captured_segments_are_percent_decoded() {
    assert_eq!(category_of("/category/Open%20Source"), Some("Open Source".to_string()));
    assert_eq!(category_of("/category/a%2Fb"), Some("a/b".to_string()));
    assert_eq!(category_of("/category/caf%C3%A9"), Some("café".to_string()));
    assert_eq!(category_of("/category/caf%c3%a9"), Some("café".to_string()));
}

#[test]
fn decode_keeps_malformed_escapes() {
    assert_eq!(decode_segment("100%"), "100%");
    assert_eq!(decode_segment("%zz%4"), "%zz%4");
    assert_eq!(decode_segment("%41%62c"), "Abc");
    assert_eq!(decode_segment(""), "");
    assert_eq!(decode_segment("a%FFb"), "a\u{FFFD}b");
    assert_eq!(decode_segment("caf%C3%A9%20bar"), "café bar");
    assert_eq!(decode_segment("já"), "já");
}

#[test]
fn escapes_decode_to_bytes() {
    assert_eq!(decode_percent_bytes(b"%C3%A9%zz%4"), vec![0xC3, 0xA9, b'%', b'z', b'z', b'%', b'4']);
    assert_eq!(decode_percent_bytes(b"%2f"), vec![b'/']);
    assert!(decode_percent_bytes(b"").is_empty());
}

#[test]
fn encoded_traversal_is_rejected() {
    match match_route(Method::Get, "/assets/..%2F..%2Fsecret.css") {
        Some(Route::Asset { kind, filename }) => {
            assert_eq!(kind, AssetKind::Css);
            assert_eq!(filename, "../../secret.css");
            assert!(matches!(css(&filename), Response::NotFound));
        }
        _ => panic!("css route not matched"),
    }
}
