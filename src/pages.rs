//! The request handlers: from route parameters and fetched data to a response.

use vstd::prelude::*;
use crate::assets::{all_plain, lemma_normalized_stays_inside, normalize, normalize_path, AssetPath, AssetPathView};
use crate::html::{details_html, listing_html, render_details, render_listing, ListingPage, ListingPageView};
use crate::model::{names_of, spec_placeholder_server, Category, Server};
use crate::routing::{AssetKind, Route, RouteView};

verus! {

/// Any failure to fetch categories from the store; callers treat all alike.
pub struct StoreError {
    pub message: String,
}

/// What a handler answers with.
pub enum Response {
    /// An HTML document, status 200.
    Html(String),
    /// A JSON document, status 200.
    Json(String),
    /// A static file to stream, status 200 once it is read.
    File(AssetPath),
    /// Status 404, no body required.
    NotFound,
    /// Status 500 with a diagnostic message.
    ServerError(String),
}

/// A response with its text seen as characters.
pub ghost enum ResponseView {
    Html(Seq<char>),
    Json(Seq<char>),
    File(AssetPathView),
    NotFound,
    ServerError(Seq<char>),
}

impl View for Response {
    type V = ResponseView;

    open spec fn view(&self) -> ResponseView {
        match self {
            Response::Html(s) => ResponseView::Html(s@),
            Response::Json(s) => ResponseView::Json(s@),
            Response::File(p) => ResponseView::File(p@),
            Response::NotFound => ResponseView::NotFound,
            Response::ServerError(s) => ResponseView::ServerError(s@),
        }
    }
}

/// The HTTP status code each kind of response carries.
pub open spec fn spec_status(r: ResponseView) -> u16 {
    match r {
        ResponseView::NotFound => 404,
        ResponseView::ServerError(_) => 500,
        _ => 200,
    }
}

impl Response {
    /// The HTTP status code of the response.
    pub fn status(&self) -> (r: u16)
        ensures
            r == spec_status(self@),
    {
        match self {
            Response::NotFound => 404,
            Response::ServerError(_) => 500,
            _ => 200,
        }
    }
}

/// The body of the failure response when the store could not be read.
pub open spec fn load_failure() -> Seq<char> {
    "Failed to load categories"@
}

/// The outcome of a store fetch: the category names, or `None` on failure.
pub open spec fn fetched_view(fetched: Result<Vec<Category>, StoreError>) -> Option<Seq<Seq<char>>> {
    match fetched {
        Ok(cats) => Some(names_of(cats@)),
        Err(_) => None,
    }
}

/// The selection for a requested name: the category of that name, if one was fetched.
pub open spec fn selection(cats: Seq<Seq<char>>, name: Seq<char>) -> Option<Seq<char>> {
    if cats.contains(name) {
        Some(name)
    } else {
        None
    }
}

/// The listing page for the category filter route.
pub open spec fn category_page(name: Seq<char>, cats: Seq<Seq<char>>) -> ListingPageView {
    ListingPageView { categories: cats, current_category: selection(cats, name) }
}

/// The listing page for the root route.
pub open spec fn index_page(cats: Seq<Seq<char>>) -> ListingPageView {
    ListingPageView { categories: cats, current_category: None }
}

/// The response of `GET /`.
pub open spec fn spec_index(fetched: Option<Seq<Seq<char>>>) -> ResponseView {
    match fetched {
        Some(cats) => ResponseView::Html(listing_html(index_page(cats))),
        None => ResponseView::ServerError(load_failure()),
    }
}

/// The response of `GET /category/{name}`.
pub open spec fn spec_category(name: Seq<char>, fetched: Option<Seq<Seq<char>>>) -> ResponseView {
    match fetched {
        Some(cats) => ResponseView::Html(listing_html(category_page(name, cats))),
        None => ResponseView::ServerError(load_failure()),
    }
}

/// The detail page; the address is not looked up yet.
pub open spec fn spec_details(server_url: Seq<char>) -> ResponseView {
    ResponseView::Html(details_html(spec_placeholder_server()))
}

/// A static asset answer: the file under its root, or not found when the path
/// leaves the root or names the root itself.
pub open spec fn spec_asset(kind: AssetKind, filename: Seq<char>) -> ResponseView {
    match normalize(filename) {
        Some(dirs) => if dirs.len() > 0 {
            ResponseView::File(AssetPathView { kind, segments: dirs })
        } else {
            ResponseView::NotFound
        },
        None => ResponseView::NotFound,
    }
}

/// The first fetched category whose name is exactly `name`.
pub fn select_category(categories: &Vec<Category>, name: &str) -> (r: Option<Category>)
    ensures
        match r {
            Some(c) => selection(names_of(categories@), name@) == Some(c@),
            None => selection(names_of(categories@), name@) is None,
        },
{
    let ghost names = names_of(categories@);
    let wanted = String::from_str(name);
    let mut i: usize = 0;
    while i < categories.len()
        invariant
            i <= categories@.len(),
            names == names_of(categories@),
            wanted@ == name@,
            forall|j: int| 0 <= j < i ==> names[j] != name@,
        decreases categories@.len() - i,
    {
        if categories[i].name == wanted {
            assert(names[i as int] == name@);
            return Some(categories[i].duplicate());
        }
        i = i + 1;
    }
    None
}

/// Handler of `GET /`: every category, none selected.
pub fn index(fetched: Result<Vec<Category>, StoreError>) -> (r: Response)
    ensures
        r@ == spec_index(fetched_view(fetched)),
{
    match fetched {
        Ok(categories) => {
            let page = ListingPage { categories, current_category: None };
            Response::Html(render_listing(&page))
        },
        Err(_) => Response::ServerError(String::from_str("Failed to load categories")),
    }
}

/// Handler of `GET /category/{category_name}`: every category, the named one selected
/// when it was fetched.
pub fn category_endpoint(category_name: &str, fetched: Result<Vec<Category>, StoreError>) -> (r:
    Response)
    ensures
        r@ == spec_category(category_name@, fetched_view(fetched)),
{
    match fetched {
        Ok(categories) => {
            let current_category = select_category(&categories, category_name);
            let page = ListingPage { categories, current_category };
            assert(page@ == category_page(category_name@, names_of(page.categories@)));
            Response::Html(render_listing(&page))
        },
        Err(_) => Response::ServerError(String::from_str("Failed to load categories")),
    }
}

/// Handler of `GET /details/{server_url}`: the fixed detail page, for any address.
pub fn details_endpoint(server_url: &str) -> (r: Response)
    ensures
        r@ == spec_details(server_url@),
{
    let server = Server::placeholder();
    Response::Html(render_details(&server))
}

/// Handler of `GET /api/servers`: an empty JSON object.
pub fn servers() -> (r: Response)
    ensures
        r@ == ResponseView::Json("{}"@),
        spec_status(r@) == 200,
{
    Response::Json(String::from_str("{}"))
}

/// A static asset answer for either asset directory.
fn asset(kind: AssetKind, filename: &str) -> (r: Response)
    ensures
        r@ == spec_asset(kind, filename@),
{
    match normalize_path(filename) {
        Some(segments) => if segments.len() > 0 {
            Response::File(AssetPath { kind, segments })
        } else {
            Response::NotFound
        },
        None => Response::NotFound,
    }
}

/// Handler of `GET /assets/{filename}` for style sheets, served from `assets/css`.
pub fn css(filename: &str) -> (r: Response)
    ensures
        r@ == spec_asset(AssetKind::Css, filename@),
{
    asset(AssetKind::Css, filename)
}

/// Handler of `GET /assets/{filename}` for scripts, served from `assets/js`.
pub fn js(filename: &str) -> (r: Response)
    ensures
        r@ == spec_asset(AssetKind::Js, filename@),
{
    asset(AssetKind::Js, filename)
}

/// Whether the route's handler needs the categories fetched from the store.
pub open spec fn spec_needs_categories(route: RouteView) -> bool {
    route is Index || route is Category
}

/// The response of the handler a route is dispatched to; `fetched` is the store's
/// outcome, where `None` stands for a failed or missing fetch.
pub open spec fn spec_respond(route: RouteView, fetched: Option<Seq<Seq<char>>>) -> ResponseView {
    match route {
        RouteView::Index => spec_index(fetched),
        RouteView::Category(name) => spec_category(name, fetched),
        RouteView::Details(server_url) => spec_details(server_url),
        RouteView::ApiServers => ResponseView::Json("{}"@),
        RouteView::Asset(kind, filename) => spec_asset(kind, filename),
    }
}

impl Route {
    /// Whether this route's handler reads the categories from the store.
    pub fn needs_categories(&self) -> (r: bool)
        ensures
            r == spec_needs_categories(self@),
    {
        match self {
            Route::Index => true,
            Route::Category { .. } => true,
            _ => false,
        }
    }
}

/// Invokes the handler of a matched route. The store's outcome is handed in for the
/// routes that need it; a listing route without one answers as for a failed fetch.
pub fn respond(route: &Route, fetched: Option<Result<Vec<Category>, StoreError>>) -> (r: Response)
    ensures
        r@ == spec_respond(
            route@,
            match fetched {
                Some(f) => fetched_view(f),
                None => None,
            },
        ),
{
    let fetched = match fetched {
        Some(f) => f,
        None => Err(StoreError { message: String::from_str("no categories were fetched") }),
    };
    match route {
        Route::Index => index(fetched),
        Route::Category { category_name } => category_endpoint(category_name.as_str(), fetched),
        Route::Details { server_url } => details_endpoint(server_url.as_str()),
        Route::ApiServers => servers(),
        Route::Asset { kind, filename } => match kind {
            AssetKind::Css => css(filename.as_str()),
            AssetKind::Js => js(filename.as_str()),
        },
    }
}

/// A category name that no fetched category has gives the same page as the root
/// route: an unknown name never errors.
pub proof fn lemma_unknown_category_is_unfiltered(cats: Seq<Seq<char>>, name: Seq<char>)
    requires
        !cats.contains(name),
    ensures
        spec_category(name, Some(cats)) == spec_index(Some(cats)),
{
}

/// A category name that a fetched category has gives a page with the full,
/// unfiltered list, on which exactly the entries of that name are marked current.
pub proof fn lemma_known_category_is_marked(cats: Seq<Seq<char>>, name: Seq<char>)
    requires
        cats.contains(name),
    ensures
        spec_category(name, Some(cats)) == ResponseView::Html(listing_html(category_page(name, cats))),
        category_page(name, cats).categories == cats,
        category_page(name, cats).current_category == Some(name),
        category_page(name, cats).wf(),
        forall|i: int|
            0 <= i < cats.len() ==> (category_page(name, cats).is_marked(i) <==> cats[i] == name),
{
}

/// The selection on a category page, when present, is one of the listed categories.
pub proof fn lemma_selection_is_listed(cats: Seq<Seq<char>>, name: Seq<char>)
    ensures
        category_page(name, cats).wf(),
{
}

/// A static asset answer only ever names plain entries under its own root: a path
/// that climbs above the root is not found.
pub proof fn lemma_asset_stays_inside(kind: AssetKind, filename: Seq<char>)
    ensures
        spec_asset(kind, filename) matches ResponseView::File(p) ==> p.kind == kind && all_plain(
            p.segments,
        ),
        normalize(filename) is None ==> spec_asset(kind, filename) == ResponseView::NotFound,
{
    lemma_normalized_stays_inside(filename);
}

/// `GET /api/servers` answers with an empty JSON object and success, whatever the
/// store holds or whether it could be read.
pub proof fn lemma_api_servers_ignores_store(a: Option<Seq<Seq<char>>>, b: Option<Seq<Seq<char>>>)
    ensures
        spec_respond(RouteView::ApiServers, a) == ResponseView::Json("{}"@),
        spec_respond(RouteView::ApiServers, a) == spec_respond(RouteView::ApiServers, b),
        spec_status(spec_respond(RouteView::ApiServers, a)) == 200,
{
}

/// The detail page does not depend on the address asked for.
pub proof fn lemma_details_ignore_address(a: Seq<char>, b: Seq<char>)
    ensures
        spec_details(a) == spec_details(b),
        forall|f: Option<Seq<Seq<char>>>, g: Option<Seq<Seq<char>>>|
            spec_respond(RouteView::Details(a), f) == spec_respond(RouteView::Details(b), g),
{
}

/// When the store fetch fails, both listing routes answer with a server failure and
/// no page.
pub proof fn lemma_store_failure_is_server_failure(name: Seq<char>)
    ensures
        spec_index(None) == ResponseView::ServerError(load_failure()),
        spec_category(name, None) == ResponseView::ServerError(load_failure()),
        spec_status(spec_index(None)) == 500,
        spec_status(spec_category(name, None)) == 500,
        spec_respond(RouteView::Index, None) == ResponseView::ServerError(load_failure()),
        spec_respond(RouteView::Category(name), None) == ResponseView::ServerError(load_failure()),
{
}

} // verus!
