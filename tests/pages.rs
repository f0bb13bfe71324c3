use server_directory::assets::normalize_path;
use server_directory::html::{push_escaped, render_listing, ListingPage};
use server_directory::model::{Category, Registration, Server};
use server_directory::pages::{
    category_endpoint, css, details_endpoint, index, js, respond, select_category, servers,
    Response, StoreError,
};
use server_directory::routing::{match_route, AssetKind, Method};

fn cats(names: &[&str]) -> Vec<Category> {
    names.iter().map(|n| Category::new(n.to_string())).collect()
}

fn html_of(r: Response) -> String {
    match r {
        Response::Html(s) => s,
        _ => panic!("expected an HTML page"),
    }
}

fn store_failure() -> StoreError {
    StoreError { message: "connection refused".to_string() }
}

const HEAD: &str = "<!DOCTYPE html>\n<html>\n<head>\n<meta charset=\"utf-8\">\n<title>Servers</title>\n</head>\n<body>\n<nav>\n<ul>\n";
const TAIL: &str = "</ul>\n</nav>\n</body>\n</html>\n";

#[test]
fn index_lists_every_category_unmarked() {
    let r = index(Ok(cats(&["Gaming", "Tech"])));
    assert_eq!(r.status(), 200);
    let expected = format!(
        "{}<li><a href=\"/category/Gaming\">Gaming</a></li>\n<li><a href=\"/category/Tech\">Tech</a></li>\n{}",
        HEAD, TAIL
    );
    assert_eq!(html_of(r), expected);
}

#[test]
fn index_with_no_categories() {
    assert_eq!(html_of(index(Ok(Vec::new()))), format!("{}{}", HEAD, TAIL));
}

#[test]
fn known_category_is_marked_and_list_kept() {
    let page = html_of(category_endpoint("Tech", Ok(cats(&["Gaming", "Tech", "Music"]))));
    let expected = format!(
        "{}<li><a href=\"/category/Gaming\">Gaming</a></li>\n<li class=\"current\"><a href=\"/category/Tech\">Tech</a></li>\n<li><a href=\"/category/Music\">Music</a></li>\n{}",
        HEAD, TAIL
    );
    assert_eq!(page, expected);
    assert_eq!(page.matches("class=\"current\"").count(), 1);
}

#[test]
fn category_match_is_case_sensitive() {
    let page = html_of(category_endpoint("tech", Ok(cats(&["Tech"]))));
    assert!(!page.contains("current"));
}

#[test]
fn unknown_category_falls_back_to_index() {
    let list = ["Gaming", "Tech"];
    let a = html_of(category_endpoint("Cooking", Ok(cats(&list))));
    let b = html_of(index(Ok(cats(&list))));
    assert_eq!(a, b);
}

#[test]
fn store_failure_is_server_error() {
    for r in [index(Err(store_failure())), category_endpoint("Tech", Err(store_failure()))] {
        assert_eq!(r.status(), 500);
        match r {
            Response::ServerError(m) => assert_eq!(m, "Failed to load categories"),
            _ => panic!("expected a server failure"),
        }
    }
}

#[test]
fn api_servers_is_empty_object() {
    let r = servers();
    assert_eq!(r.status(), 200);
    match r {
        Response::Json(s) => assert_eq!(s, "{}"),
        _ => panic!("expected JSON"),
    }
}

#[test]
fn details_ignore_address() {
    let a = html_of(details_endpoint("one.example"));
    let b = html_of(details_endpoint("two.example"));
    assert_eq!(a, b);
    assert!(a.contains("<h1>Conduit Nordgedanken</h1>"));
    assert!(a.contains("<li>@mtrnord:conduit.nordgedanken.dev</li>"));
    assert!(a.contains("Registration open"));
    assert!(a.contains("<p>Be Nice</p>"));
}

#[test]
fn placeholder_server_fields() {
    let s = Server::placeholder();
    assert_eq!(s.name, "Conduit Nordgedanken");
    assert_eq!(s.url, "https://conduit.nordgedanken.dev");
    assert_eq!(s.server_name, "nordgedanken.dev");
    assert!(s.logo_url.is_none());
    assert_eq!(s.admins, vec!["@mtrnord:conduit.nordgedanken.dev".to_string()]);
    assert!(s.categories.is_empty());
    assert_eq!(s.registration_status, Registration::Open);
}

#[test]
fn select_first_exact_match() {
    let list = cats(&["a", "b", "b"]);
    assert_eq!(select_category(&list, "b").map(|c| c.name), Some("b".to_string()));
    assert!(select_category(&list, "B").is_none());
    assert!(select_category(&Vec::new(), "b").is_none());
}

#[test]
fn category_names_are_escaped() {
    let page = ListingPage { categories: cats(&["<b>&'\""]), current_category: None };
    let out = render_listing(&page);
    assert!(out.contains(
        "<li><a href=\"/category/&lt;b&gt;&amp;&#39;&quot;\">&lt;b&gt;&amp;&#39;&quot;</a></li>\n"
    ));
    let mut s = String::from("x");
    push_escaped(&mut s, "a<é>");
    assert_eq!(s, "xa&lt;é&gt;");
}

fn file_of(r: Response) -> String {
    match r {
        Response::File(p) => p.file_path(),
        _ => panic!("expected a file"),
    }
}

#[test]
fn assets_resolve_under_their_root() {
    assert_eq!(file_of(css("main.css")), "assets/css/main.css");
    assert_eq!(file_of(js("lib/app.js")), "assets/js/lib/app.js");
    assert_eq!(file_of(css("a/./b//../c.css")), "assets/css/a/c.css");
    match css("x.css") {
        Response::File(p) => assert_eq!(p.kind, AssetKind::Css),
        _ => panic!("expected a file"),
    }
}

#[test]
fn traversal_outside_root_is_rejected() {
    for path in ["../secret.css", "a/../../etc/passwd.css", "/../x.js", ".."] {
        let r = if path.ends_with(".js") { js(path) } else { css(path) };
        assert_eq!(r.status(), 404);
        assert!(matches!(r, Response::NotFound));
    }
    assert!(matches!(css("a/.."), Response::NotFound));
}

#[test]
fn normalize_drops_dots_and_empty_segments() {
    assert_eq!(normalize_path("./a//b/"), Some(vec!["a".to_string(), "b".to_string()]));
    assert_eq!(normalize_path("a/../.."), None);
    assert_eq!(normalize_path(""), Some(Vec::new()));
}

#[test]
fn respond_dispatches_by_route() {
    let route = match_route(Method::Get, "/category/Tech").unwrap();
    assert!(route.needs_categories());
    let page = html_of(respond(&route, Some(Ok(cats(&["Tech"])))));
    assert!(page.contains("<li class=\"current\">"));
    assert_eq!(respond(&route, None).status(), 500);
    assert_eq!(respond(&route, Some(Err(store_failure()))).status(), 500);

    let api = match_route(Method::Get, "/api/servers").unwrap();
    assert!(!api.needs_categories());
    for fetched in [None, Some(Err(store_failure())), Some(Ok(cats(&["x"])))] {
        match respond(&api, fetched) {
            Response::Json(s) => assert_eq!(s, "{}"),
            _ => panic!("expected JSON"),
        }
    }

    let details = match_route(Method::Get, "/details/a").unwrap();
    assert_eq!(html_of(respond(&details, None)), html_of(details_endpoint("b")));

    let asset = match_route(Method::Get, "/assets/../x.js").unwrap();
    assert!(matches!(respond(&asset, None), Response::NotFound));
}
