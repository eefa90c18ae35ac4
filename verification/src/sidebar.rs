//! The side bar of the web front end: showing and hiding it, the search it
//! starts, and the links it offers.

use vstd::prelude::*;
use crate::routes::{PostQuery, Route};

verus! {

/// Whether the side bar is shown.
#[derive(Debug, Clone, Copy, PartialEq, Eq, Structural)]
pub enum SidebarVisibility {
    Show,
    Hidden,
}

/// What the side bar reacts to: its hide button, and a submitted search.
#[derive(Debug, Clone, PartialEq)]
pub enum SidebarMsg {
    Toggle,
    Search(String),
}

/// The style that hides the side bar.
pub open spec fn hidden_style() -> Seq<char> {
    "display: none !important;"@
}

/// The style of a side bar that is shown, or not.
pub open spec fn style_for(shown: bool) -> Seq<char> {
    if shown {
        Seq::<char>::empty()
    } else {
        hidden_style()
    }
}

/// The side bar.
pub struct Sidebar {
    visibility: SidebarVisibility,
    style: String,
}

/// Where a search sends the browser.
#[derive(Debug, Clone, PartialEq)]
pub struct SidebarNavigation {
    pub route: Route,
    pub query: PostQuery,
}

impl Sidebar {
    /// Whether the side bar is shown.
    pub closed spec fn shown(&self) -> bool {
        self.visibility is Show
    }

    /// The style of the side bar.
    pub closed spec fn style_text(&self) -> Seq<char> {
        self.style@
    }

    /// The side bar's style is the one of its visibility.
    #[verifier::type_invariant]
    pub closed spec fn well_formed(&self) -> bool {
        self.style@ == style_for(self.shown())
    }

    /// A side bar that is shown.
    pub fn new() -> (r: Sidebar)
        ensures
            r.shown(),
            r.style_text() == style_for(true),
    {
        Sidebar { visibility: SidebarVisibility::Show, style: String::new() }
    }

    /// Hides a shown side bar or shows a hidden one; the page then hides or
    /// shows the space it takes and is drawn again, so this returns `true`.
    pub fn toggle(&mut self) -> (rerender: bool)
        ensures
            rerender,
            old(self).style_text() == style_for(old(self).shown()),
            final(self).shown() == !old(self).shown(),
            final(self).style_text() == style_for(final(self).shown()),
    {
        proof {
            use_type_invariant(&*self);
        }
        match self.visibility {
            SidebarVisibility::Show => {
                *self = Sidebar {
                    visibility: SidebarVisibility::Hidden,
                    style: String::from_str("display: none !important;"),
                };
            },
            SidebarVisibility::Hidden => {
                *self = Sidebar { visibility: SidebarVisibility::Show, style: String::new() };
            },
        }
        true
    }


    /// The side bar's style.
    pub fn style(&self) -> (r: &str)
        ensures
            r@ == self.style_text(),
    {
        self.style.as_str()
    }

    /// Where a search for `query` sends the browser from a page with query
    /// `current`: the gallery, in the current order, with the search text.
    pub fn search(current: &PostQuery, query: String) -> (r: SidebarNavigation)
        ensures
            r.route == Route::Gallery,
            r.query.sort == current.sort,
            r.query.query == query,
    {
        SidebarNavigation {
            route: Route::Gallery,
            query: PostQuery { sort: current.sort.clone(), query },
        }
    }
}

/// Hiding and showing the side bar again, or the other way round, leaves it
/// as it was.
pub proof fn lemma_toggle_twice_restores(a: Sidebar, b: Sidebar, c: Sidebar)
    requires
        a.style_text() == style_for(a.shown()),
        b.shown() == !a.shown(),
        b.style_text() == style_for(b.shown()),
        c.shown() == !b.shown(),
        c.style_text() == style_for(c.shown()),
    ensures
        c.shown() == a.shown(),
        c.style_text() == a.style_text(),
{
}

/// Where a side bar link leads.
#[derive(Debug, Clone, PartialEq)]
pub enum NavTarget {
    /// A page of the site, with the query to open it with, if any.
    Page(Route, Option<PostQuery>),
    /// A page elsewhere.
    External(String),
}

/// A side bar link: its text and where it leads.
#[derive(Debug, Clone, PartialEq)]
pub struct NavLink {
    pub text: String,
    pub target: NavTarget,
}

/// A link to a page of the site.
pub open spec fn links_to(l: NavLink, text: Seq<char>, route: Route) -> bool {
    &&& l.text@ == text
    &&& l.target matches NavTarget::Page(r, q) && r == route && q is None
}

/// The side bar's links, in order: home, the gallery (newest first, no
/// search), tags, about, and the project's source page.
pub fn nav_links() -> (r: Vec<NavLink>)
    ensures
        r@.len() == 5,
        links_to(r@[0], "HOME"@, Route::Home),
        r@[1].text@ == "GALLERY"@,
        r@[1].target matches NavTarget::Page(route, q) && route == Route::Gallery && (q matches Some(
            pq,
        ) && pq.sort@ == "new"@ && pq.query@.len() == 0),
        links_to(r@[2], "TAGS"@, Route::Tags),
        links_to(r@[3], "ABOUT"@, Route::About),
        r@[4].text@ == "GITHUB"@,
        r@[4].target matches NavTarget::External(url) && url@
            == "https://github.com/player01osu/yuri-web"@,
{
    let query = PostQuery { sort: String::from_str("new"), query: String::new() };
    let mut v: Vec<NavLink> = Vec::new();
    v.push(NavLink { text: String::from_str("HOME"), target: NavTarget::Page(Route::Home, None) });
    v.push(
        NavLink {
            text: String::from_str("GALLERY"),
            target: NavTarget::Page(Route::Gallery, Some(query)),
        },
    );
    v.push(NavLink { text: String::from_str("TAGS"), target: NavTarget::Page(Route::Tags, None) });
    v.push(
        NavLink { text: String::from_str("ABOUT"), target: NavTarget::Page(Route::About, None) },
    );
    v.push(
        NavLink {
            text: String::from_str("GITHUB"),
            target: NavTarget::External(String::from_str("https://github.com/player01osu/yuri-web")),
        },
    );
    v
}

} // verus!
