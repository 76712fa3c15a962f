//! The web front end's routes and what each one shows.
use vstd::prelude::*;
use vstd::string::StringExecFns;

verus! {

/// The pages of the front end.
#[derive(Debug, Clone, Copy, PartialEq, Eq, Structural)]
pub enum Route {
    Login,
    Home,
    Secure,
    NotFound,
}

/// The path each route is served at.
pub open spec fn route_path(r: Route) -> Seq<char> {
    match r {
        Route::Login => "/"@,
        Route::Home => "/home"@,
        Route::Secure => "/secure"@,
        Route::NotFound => "/404"@,
    }
}

/// What the router shows for a route.
#[derive(Debug, Clone, Copy)]
pub enum Page {
    /// The login form.
    LoginForm,
    /// A page that holds a single heading.
    Heading(&'static str),
    /// The secure page (see [`secure`]).
    SecurePage,
}

/// What the secure page holds: a heading and a button that leads elsewhere.
#[derive(Debug, Clone, Copy)]
pub struct SecureView {
    pub heading: &'static str,
    pub button_label: &'static str,
    pub button_target: Route,
}

impl Route {
    /// The path this route is served at.
    pub fn path(&self) -> (p: &'static str)
        ensures
            p@ == route_path(*self),
    {
        match self {
            Route::Login => "/",
            Route::Home => "/home",
            Route::Secure => "/secure",
            Route::NotFound => "/404",
        }
    }
}

/// What the router shows for `routes`: the login form, a `Home` or `404`
/// heading, or the secure page.
pub fn switch(routes: Route) -> (page: Page)
    ensures
        routes == Route::Login ==> page is LoginForm,
        routes == Route::Home ==> (page matches Page::Heading(h) && h@ == "Home"@),
        routes == Route::Secure ==> page is SecurePage,
        routes == Route::NotFound ==> (page matches Page::Heading(h) && h@ == "404"@),
{
    match routes {
        Route::Login => Page::LoginForm,
        Route::Home => Page::Heading("Home"),
        Route::Secure => Page::SecurePage,
        Route::NotFound => Page::Heading("404"),
    }
}

/// The secure page: heading `Secure`, and a `Go Home` button that leads to
/// the home route.
pub fn secure() -> (view: SecureView)
    ensures
        view.heading@ == "Secure"@,
        view.button_label@ == "Go Home"@,
        view.button_target == Route::Home,
{
    SecureView { heading: "Secure", button_label: "Go Home", button_target: Route::Home }
}

/// The browser title for a page whose own title is `content`: `{content} - Blog`.
pub fn page_title(content: &str) -> (title: String)
    ensures
        title@ == content@ + " - Blog"@,
{
    let mut t = String::from_str(content);
    t.append(" - Blog");
    t
}

/// Law: no two routes share a path, so a path leads to one page only.
pub proof fn law_route_paths_distinct(a: Route, b: Route)
    requires
        a != b,
    ensures
        route_path(a) != route_path(b),
{
    reveal_strlit("/");
    reveal_strlit("/home");
    reveal_strlit("/secure");
    reveal_strlit("/404");
    assert(route_path(Route::Login).len() == 1);
    assert(route_path(Route::Home).len() == 5);
    assert(route_path(Route::Secure).len() == 7);
    assert(route_path(Route::NotFound).len() == 4);
}

} // verus!
