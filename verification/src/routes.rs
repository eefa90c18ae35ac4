//! The pages of the web front end: its routes, and which page and gallery
//! order each route shows.

use vstd::prelude::*;
use crate::gallery::{sort_order_named, SortOrder};

verus! {

/// The routes of the site.
#[derive(Debug, Clone, Copy, PartialEq, Eq, Structural)]
pub enum Route {
    Home,
    GalleryRouter,
    Gallery,
    About,
    Tags,
}

/// The routes of the gallery's orders.
#[derive(Debug, Clone, Copy, PartialEq, Eq, Structural)]
pub enum GalleryRoute {
    New,
    Top,
    Views,
}

/// What a gallery page is given: the name of its order.
#[derive(Debug, Clone, PartialEq)]
pub struct GalleryProps {
    pub sort: String,
}

/// The query of a gallery page: its order and its search text.
#[derive(Debug, Clone, PartialEq)]
pub struct PostQuery {
    pub sort: String,
    pub query: String,
}

impl Default for PostQuery {
    /// No order and no search text.
    fn default() -> (r: PostQuery)
        ensures
            r.sort@.len() == 0,
            r.query@.len() == 0,
    {
        PostQuery { sort: String::new(), query: String::new() }
    }
}

/// The page that a route shows.
#[derive(Debug, Clone, PartialEq)]
pub enum Page {
    /// The welcome page.
    StaticPages,
    /// A choice among the gallery's order routes.
    GalleryRoutes,
    /// A gallery in the given order.
    Gallery(GalleryProps),
    About,
    Tags,
}

/// The order name that a gallery order route asks for.
pub open spec fn gallery_sort_name(r: GalleryRoute) -> Seq<char> {
    match r {
        GalleryRoute::New => "new"@,
        GalleryRoute::Top => "top"@,
        GalleryRoute::Views => "views"@,
    }
}

/// The gallery page of a gallery order route.
pub fn gallery_switch(route: &GalleryRoute) -> (r: Page)
    ensures
        r matches Page::Gallery(p) && p.sort@ == gallery_sort_name(*route),
{
    match route {
        GalleryRoute::New => Page::Gallery(GalleryProps { sort: String::from_str("new") }),
        GalleryRoute::Top => Page::Gallery(GalleryProps { sort: String::from_str("top") }),
        GalleryRoute::Views => Page::Gallery(GalleryProps { sort: String::from_str("views") }),
    }
}

/// The page of a route: the plain gallery lists the newest posts first.
pub fn switch(route: &Route) -> (r: Page)
    ensures
        *route is Home ==> r is StaticPages,
        *route is GalleryRouter ==> r is GalleryRoutes,
        *route is Gallery ==> (r matches Page::Gallery(p) && p.sort@ == "new"@),
        *route is About ==> r is About,
        *route is Tags ==> r is Tags,
{
    match route {
        Route::Home => Page::StaticPages,
        Route::GalleryRouter => Page::GalleryRoutes,
        Route::Gallery => Page::Gallery(GalleryProps { sort: String::from_str("new") }),
        Route::About => Page::About,
        Route::Tags => Page::Tags,
    }
}

/// The order that a gallery order route names.
pub open spec fn route_order(r: GalleryRoute) -> SortOrder {
    match r {
        GalleryRoute::New => SortOrder::New,
        GalleryRoute::Top => SortOrder::Top,
        GalleryRoute::Views => SortOrder::Views,
    }
}

/// Every order that the front end's gallery routes ask for by name is the
/// order that the gallery listing reads from that name, and the name is one
/// that the listing knows.
pub proof fn lemma_gallery_routes_name_known_orders(r: GalleryRoute)
    ensures
        sort_order_named(gallery_sort_name(r)) == route_order(r),
        gallery_sort_name(r) == "new"@ || gallery_sort_name(r) == "top"@ || gallery_sort_name(r)
            == "views"@,
{
    reveal_strlit("new");
    reveal_strlit("top");
    reveal_strlit("views");
    assert("top"@[0] != "new"@[0]);
    assert("views"@.len() != "new"@.len());
    assert("views"@.len() != "top"@.len());
}

} // verus!
