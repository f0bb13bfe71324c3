//! The entities the site lists: categories and servers.

use vstd::prelude::*;

verus! {

/// A named grouping used to filter the server listing; its name is its identity.
pub struct Category {
    pub name: String,
}

impl View for Category {
    type V = Seq<char>;

    open spec fn view(&self) -> Seq<char> {
        self.name@
    }
}

/// The names of a sequence of categories, in order.
pub open spec fn names_of(cats: Seq<Category>) -> Seq<Seq<char>> {
    cats.map_values(|c: Category| c@)
}

impl Category {
    pub fn new(name: String) -> (r: Category)
        ensures
            r@ == name@,
    {
        Category { name }
    }

    /// A category with the same name as this one.
    pub fn duplicate(&self) -> (r: Category)
        ensures
            r@ == self@,
    {
        Category { name: self.name.clone() }
    }
}

/// Whether a listed server accepts new registrations.
#[derive(Clone, Copy, Debug, PartialEq, Eq, Structural)]
pub enum Registration {
    Open,
    Closed,
}

/// One listed service of the directory.
pub struct Server {
    pub name: String,
    pub url: String,
    pub server_name: String,
    pub logo_url: Option<String>,
    pub admins: Vec<String>,
    pub categories: Vec<Category>,
    pub rules: String,
    pub description: String,
    pub registration_status: Registration,
}

/// A server with every text field seen as its characters.
pub ghost struct ServerView {
    pub name: Seq<char>,
    pub url: Seq<char>,
    pub server_name: Seq<char>,
    pub logo_url: Option<Seq<char>>,
    pub admins: Seq<Seq<char>>,
    pub categories: Seq<Seq<char>>,
    pub rules: Seq<char>,
    pub description: Seq<char>,
    pub registration_status: Registration,
}

impl View for Server {
    type V = ServerView;

    open spec fn view(&self) -> ServerView {
        ServerView {
            name: self.name@,
            url: self.url@,
            server_name: self.server_name@,
            logo_url: match self.logo_url {
                Some(l) => Some(l@),
                None => None,
            },
            admins: self.admins@.map_values(|a: String| a@),
            categories: names_of(self.categories@),
            rules: self.rules@,
            description: self.description@,
            registration_status: self.registration_status,
        }
    }
}

/// The one server the detail page shows until servers are looked up by address.
pub open spec fn spec_placeholder_server() -> ServerView {
    ServerView {
        name: "Conduit Nordgedanken"@,
        url: "https://conduit.nordgedanken.dev"@,
        server_name: "nordgedanken.dev"@,
        logo_url: None,
        admins: seq!["@mtrnord:conduit.nordgedanken.dev"@],
        categories: Seq::empty(),
        rules: "Be Nice"@,
        description: "A conduit Testserver"@,
        registration_status: Registration::Open,
    }
}

impl Server {
    /// Builds the fixed server that the detail page shows for every address.
    pub fn placeholder() -> (r: Server)
        ensures
            r@ == spec_placeholder_server(),
    {
        let mut admins: Vec<String> = Vec::new();
        admins.push(String::from_str("@mtrnord:conduit.nordgedanken.dev"));
        let r = Server {
            name: String::from_str("Conduit Nordgedanken"),
            url: String::from_str("https://conduit.nordgedanken.dev"),
            server_name: String::from_str("nordgedanken.dev"),
            logo_url: None,
            admins,
            categories: Vec::new(),
            rules: String::from_str("Be Nice"),
            description: String::from_str("A conduit Testserver"),
            registration_status: Registration::Open,
        };
        assert(r@.admins =~= seq!["@mtrnord:conduit.nordgedanken.dev"@]);
        assert(r@.categories =~= Seq::<Seq<char>>::empty());
        r
    }
}

} // verus!
