//! Rendering of the listing and detail pages as HTML text.

use vstd::prelude::*;
use crate::model::{names_of, Category, Registration, Server, ServerView};

verus! {

/// The HTML text that stands for one character of page content.
pub open spec fn escape_char(c: char) -> Seq<char> {
    if c == '&' {
        "&amp;"@
    } else if c == '<' {
        "&lt;"@
    } else if c == '>' {
        "&gt;"@
    } else if c == '"' {
        "&quot;"@
    } else if c == '\'' {
        "&#39;"@
    } else {
        seq![c]
    }
}

/// Text with each character replaced by its HTML text.
pub open spec fn escape(s: Seq<char>) -> Seq<char>
    decreases s.len(),
{
    if s.len() == 0 {
        Seq::empty()
    } else {
        escape(s.drop_last()) + escape_char(s.last())
    }
}

/// Appends `s`, escaped for HTML, to `out`.
pub fn push_escaped(out: &mut String, s: &str)
    ensures
        final(out)@ == old(out)@ + escape(s@),
{
    let n = s.unicode_len();
    let ghost start = out@;
    let mut i: usize = 0;
    while i < n
        invariant
            n == s@.len(),
            i <= n,
            out@ == start + escape(s@.subrange(0, i as int)),
        decreases n - i,
    {
        let c = s.get_char(i);
        proof {
            assert(s@.subrange(0, i + 1).drop_last() =~= s@.subrange(0, i as int));
            assert(s@.subrange(0, i + 1).last() == c);
        }
        if c == '&' {
            out.append("&amp;");
        } else if c == '<' {
            out.append("&lt;");
        } else if c == '>' {
            out.append("&gt;");
        } else if c == '"' {
            out.append("&quot;");
        } else if c == '\'' {
            out.append("&#39;");
        } else {
            let one = s.substring_char(i, i + 1);
            assert(one@ =~= seq![c]);
            out.append(one);
        }
        assert(out@ =~= start + escape(s@.subrange(0, i + 1)));
        i = i + 1;
    }
    assert(s@.subrange(0, n as int) =~= s@);
}

/// A listing page: every fetched category, and the one the visitor selected, if any.
pub struct ListingPage {
    pub categories: Vec<Category>,
    pub current_category: Option<Category>,
}

/// A listing page with each category seen as its name.
pub ghost struct ListingPageView {
    pub categories: Seq<Seq<char>>,
    pub current_category: Option<Seq<char>>,
}

impl View for ListingPage {
    type V = ListingPageView;

    open spec fn view(&self) -> ListingPageView {
        ListingPageView {
            categories: names_of(self.categories@),
            current_category: match self.current_category {
                Some(c) => Some(c@),
                None => None,
            },
        }
    }
}

impl ListingPageView {
    /// The selection, when present, is one of the listed categories.
    pub open spec fn wf(self) -> bool {
        match self.current_category {
            Some(c) => self.categories.contains(c),
            None => true,
        }
    }

    /// Whether the entry at `i` is marked as the current category.
    pub open spec fn is_marked(self, i: int) -> bool {
        self.current_category == Some(self.categories[i])
    }
}

/// One entry of the category navigation; the current category carries a mark.
pub open spec fn category_item(name: Seq<char>, current: bool) -> Seq<char> {
    (if current {
        "<li class=\"current\">"@
    } else {
        "<li>"@
    }) + "<a href=\"/category/"@ + escape(name) + "\">"@ + escape(name) + "</a></li>\n"@
}

/// The navigation entries of the categories, in order.
pub open spec fn category_items(names: Seq<Seq<char>>, current: Option<Seq<char>>) -> Seq<char>
    decreases names.len(),
{
    if names.len() == 0 {
        Seq::empty()
    } else {
        category_items(names.drop_last(), current) + category_item(
            names.last(),
            current == Some(names.last()),
        )
    }
}

/// The document up to the first navigation entry.
pub open spec fn listing_head() -> Seq<char> {
    "<!DOCTYPE html>\n<html>\n<head>\n<meta charset=\"utf-8\">\n<title>Servers</title>\n</head>\n<body>\n<nav>\n<ul>\n"@
}

/// The document after the last navigation entry.
pub open spec fn listing_tail() -> Seq<char> {
    "</ul>\n</nav>\n</body>\n</html>\n"@
}

/// The whole listing page document.
pub open spec fn listing_html(page: ListingPageView) -> Seq<char> {
    listing_head() + category_items(page.categories, page.current_category) + listing_tail()
}

/// Renders the listing page.
pub fn render_listing(page: &ListingPage) -> (r: String)
    ensures
        r@ == listing_html(page@),
{
    let ghost names = page@.categories;
    let ghost current = page@.current_category;
    let mut out = String::from_str(
        "<!DOCTYPE html>\n<html>\n<head>\n<meta charset=\"utf-8\">\n<title>Servers</title>\n</head>\n<body>\n<nav>\n<ul>\n",
    );
    let mut i: usize = 0;
    while i < page.categories.len()
        invariant
            i <= page.categories@.len(),
            names == names_of(page.categories@),
            current == page@.current_category,
            out@ == listing_head() + category_items(names.subrange(0, i as int), current),
        decreases page.categories@.len() - i,
    {
        let name = page.categories[i].name.as_str();
        let marked = match &page.current_category {
            Some(c) => c.name == page.categories[i].name,
            None => false,
        };
        proof {
            assert(names.subrange(0, i + 1).drop_last() =~= names.subrange(0, i as int));
            assert(names.subrange(0, i + 1).last() == name@);
            assert(marked == (current == Some(name@)));
        }
        if marked {
            out.append("<li class=\"current\">");
        } else {
            out.append("<li>");
        }
        out.append("<a href=\"/category/");
        push_escaped(&mut out, name);
        out.append("\">");
        push_escaped(&mut out, name);
        out.append("</a></li>\n");
        assert(out@ =~= listing_head() + category_items(names.subrange(0, i + 1), current));
        i = i + 1;
    }
    assert(names.subrange(0, i as int) =~= names);
    out.append("</ul>\n</nav>\n</body>\n</html>\n");
    assert(out@ =~= listing_html(page@));
    out
}

/// A bulleted entry for each text, in order.
pub open spec fn list_items(items: Seq<Seq<char>>) -> Seq<char>
    decreases items.len(),
{
    if items.len() == 0 {
        Seq::empty()
    } else {
        list_items(items.drop_last()) + "<li>"@ + escape(items.last()) + "</li>\n"@
    }
}

/// Appends one bulleted entry holding `s`, escaped.
fn push_list_item(out: &mut String, s: &str)
    ensures
        final(out)@ == old(out)@ + "<li>"@ + escape(s@) + "</li>\n"@,
{
    out.append("<li>");
    push_escaped(out, s);
    out.append("</li>\n");
}

/// Appends a bulleted entry for each text.
fn push_text_items(out: &mut String, items: &Vec<String>)
    ensures
        final(out)@ == old(out)@ + list_items(items@.map_values(|a: String| a@)),
{
    let ghost texts = items@.map_values(|a: String| a@);
    let ghost start = out@;
    let mut i: usize = 0;
    while i < items.len()
        invariant
            i <= items@.len(),
            texts == items@.map_values(|a: String| a@),
            out@ == start + list_items(texts.subrange(0, i as int)),
        decreases items@.len() - i,
    {
        proof {
            assert(texts.subrange(0, i + 1).drop_last() =~= texts.subrange(0, i as int));
        }
        push_list_item(out, items[i].as_str());
        assert(out@ =~= start + list_items(texts.subrange(0, i + 1)));
        i = i + 1;
    }
    assert(texts.subrange(0, i as int) =~= texts);
}

/// Appends a bulleted entry for each category name.
fn push_category_items(out: &mut String, items: &Vec<Category>)
    ensures
        final(out)@ == old(out)@ + list_items(names_of(items@)),
{
    let ghost texts = names_of(items@);
    let ghost start = out@;
    let mut i: usize = 0;
    while i < items.len()
        invariant
            i <= items@.len(),
            texts == names_of(items@),
            out@ == start + list_items(texts.subrange(0, i as int)),
        decreases items@.len() - i,
    {
        proof {
            assert(texts.subrange(0, i + 1).drop_last() =~= texts.subrange(0, i as int));
        }
        push_list_item(out, items[i].name.as_str());
        assert(out@ =~= start + list_items(texts.subrange(0, i + 1)));
        i = i + 1;
    }
    assert(texts.subrange(0, i as int) =~= texts);
}

/// The words shown for a registration status.
pub open spec fn status_text(r: Registration) -> Seq<char> {
    match r {
        Registration::Open => "Registration open"@,
        Registration::Closed => "Registration closed"@,
    }
}

/// The logo image, when the server has one.
pub open spec fn logo_html(logo: Option<Seq<char>>) -> Seq<char> {
    match logo {
        Some(l) => "<img class=\"logo\" src=\""@ + escape(l) + "\" alt=\"logo\">\n"@,
        None => Seq::empty(),
    }
}

/// The top of the detail page: title, names, address, logo and status.
pub open spec fn details_header(s: ServerView) -> Seq<char> {
    "<!DOCTYPE html>\n<html>\n<head>\n<meta charset=\"utf-8\">\n<title>"@ + escape(s.name)
        + "</title>\n</head>\n<body>\n<h1>"@ + escape(s.name) + "</h1>\n<p class=\"server-name\">"@
        + escape(s.server_name) + "</p>\n<p><a href=\""@ + escape(s.url) + "\">"@ + escape(s.url)
        + "</a></p>\n"@ + logo_html(s.logo_url) + "<p class=\"status\">"@ + status_text(
        s.registration_status,
    ) + "</p>\n"@
}

/// The rest of the detail page: admins, categories, rules and description.
pub open spec fn details_body(s: ServerView) -> Seq<char> {
    "<h2>Admins</h2>\n<ul>\n"@ + list_items(s.admins) + "</ul>\n<h2>Categories</h2>\n<ul>\n"@
        + list_items(s.categories) + "</ul>\n<h2>Rules</h2>\n<p>"@ + escape(s.rules)
        + "</p>\n<h2>Description</h2>\n<p>"@ + escape(s.description)
        + "</p>\n</body>\n</html>\n"@
}

/// The whole detail page document of a server.
pub open spec fn details_html(s: ServerView) -> Seq<char> {
    details_header(s) + details_body(s)
}

/// Appends the top of the detail page of `server`.
fn push_details_header(out: &mut String, server: &Server)
    ensures
        final(out)@ == old(out)@ + details_header(server@),
{
    let ghost start = out@;
    out.append("<!DOCTYPE html>\n<html>\n<head>\n<meta charset=\"utf-8\">\n<title>");
    push_escaped(out, server.name.as_str());
    out.append("</title>\n</head>\n<body>\n<h1>");
    push_escaped(out, server.name.as_str());
    out.append("</h1>\n<p class=\"server-name\">");
    push_escaped(out, server.server_name.as_str());
    out.append("</p>\n<p><a href=\"");
    push_escaped(out, server.url.as_str());
    out.append("\">");
    push_escaped(out, server.url.as_str());
    out.append("</a></p>\n");
    let ghost before_logo = out@;
    match &server.logo_url {
        Some(l) => {
            out.append("<img class=\"logo\" src=\"");
            push_escaped(out, l.as_str());
            out.append("\" alt=\"logo\">\n");
        },
        None => {},
    }
    assert(out@ =~= before_logo + logo_html(server@.logo_url));
    out.append("<p class=\"status\">");
    match server.registration_status {
        Registration::Open => out.append("Registration open"),
        Registration::Closed => out.append("Registration closed"),
    }
    out.append("</p>\n");
    assert(out@ =~= start + details_header(server@));
}

/// Appends the rest of the detail page of `server`.
fn push_details_body(out: &mut String, server: &Server)
    ensures
        final(out)@ == old(out)@ + details_body(server@),
{
    let ghost start = out@;
    out.append("<h2>Admins</h2>\n<ul>\n");
    push_text_items(out, &server.admins);
    out.append("</ul>\n<h2>Categories</h2>\n<ul>\n");
    push_category_items(out, &server.categories);
    out.append("</ul>\n<h2>Rules</h2>\n<p>");
    push_escaped(out, server.rules.as_str());
    out.append("</p>\n<h2>Description</h2>\n<p>");
    push_escaped(out, server.description.as_str());
    out.append("</p>\n</body>\n</html>\n");
    assert(out@ =~= start + details_body(server@));
}

/// Renders the detail page of a server.
pub fn render_details(server: &Server) -> (r: String)
    ensures
        r@ == details_html(server@),
{
    let mut out = String::new();
    push_details_header(&mut out, server);
    push_details_body(&mut out, server);
    assert(out@ =~= details_html(server@));
    out
}

} // verus!
