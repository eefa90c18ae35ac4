use bson::Document;
use yuri_web::feedback::{comment_push, like_change, unlike_change, with_commenter};
use yuri_web::gallery::{page_amount, sort_keys, sort_order, Gallery, SortField, SortKey, SortOrder};
use yuri_web::object_id::{is_post_id, PostId};
use yuri_web::post::Comment;
use yuri_web::routes::{gallery_switch, switch, GalleryProps, GalleryRoute, Page, PostQuery, Route};
use yuri_web::sidebar::{nav_links, NavTarget, Sidebar};

const ID: &str = "65a1b2c3d4e5f60718293a4b";

fn doc_with(n: i32) -> Document {
    let mut d = Document::new();
    d.insert("n", n);
    d
}

#[test]
fn sort_names_select_orders() {
    assert_eq!(sort_order("new"), SortOrder::New);
    assert_eq!(sort_order("top"), SortOrder::Top);
    assert_eq!(sort_order("views"), SortOrder::Views);
    assert_eq!(sort_order("oldest"), SortOrder::New);
}

#[test]
fn sort_keys_list_fields_descending() {
    let desc = |field| SortKey { field, direction: -1 };
    assert_eq!(sort_keys(SortOrder::New), vec![desc(SortField::Time)]);
    assert_eq!(sort_keys(SortOrder::Top), vec![desc(SortField::Likes), desc(SortField::Time)]);
    assert_eq!(sort_keys(SortOrder::Views), vec![desc(SortField::Views), desc(SortField::Time)]);
    assert_eq!(SortField::Likes.key(), "stats.likes");
    assert_eq!(SortField::Views.key(), "stats.views");
    assert_eq!(SortField::Time.key(), "time");
}

#[test]
fn page_amount_is_ten_per_page() {
    assert_eq!(page_amount(0), 0);
    assert_eq!(page_amount(3), 30);
    assert_eq!(page_amount(6553), 65530);
}

#[test]
fn gallery_query_limits_to_amount() {
    let g = Gallery::new(page_amount(2));
    let q = g.find_spec("top");
    assert_eq!(q.limit, 20);
    assert_eq!(q.sort, sort_keys(SortOrder::Top));
}

#[test]
fn gallery_answers_found_documents() {
    let mut g = Gallery::new(10);
    let found = vec![doc_with(1), doc_with(2)];
    g.show_results(found.clone());
    assert_eq!(g.into_documents(), found);
}

#[test]
fn empty_gallery_answers_nothing() {
    let mut g = Gallery::new(10);
    g.show_results(Vec::new());
    assert!(g.into_documents().is_empty());
    assert!(Gallery::new(5).into_documents().is_empty());
}

#[test]
fn like_and_unlike_change_by_one() {
    let l = like_change(ID);
    let u = unlike_change(ID);
    assert_eq!(l.delta, 1);
    assert_eq!(u.delta, -1);
    assert_eq!(l.post, u.post);
    assert_eq!(l.post.to_hex(), ID);
    assert_eq!(10 + l.delta + u.delta, 10);
}

#[test]
fn likes_add_up_in_any_order() {
    let steps = [true, false, true, true, false, true];
    let total: i32 = steps
        .iter()
        .map(|&liked| if liked { like_change(ID).delta } else { unlike_change(ID).delta })
        .sum();
    assert_eq!(total, 4 - 2);
}

#[test]
fn signed_comment_keeps_commenter() {
    let c = Comment { commenter: "rin".to_string(), body: "nice".to_string() };
    let p = comment_push(ID, c);
    assert_eq!(p.comment.commenter, "rin");
    assert_eq!(p.comment.body, "nice");
    assert_eq!(p.post.to_hex(), ID);
}

#[test]
fn anonymous_comment_gets_uuid() {
    let c = Comment { commenter: String::new(), body: "hi".to_string() };
    let p = comment_push(ID, c);
    let name = p.comment.commenter;
    assert_eq!(name.len(), 36);
    for (i, ch) in name.chars().enumerate() {
        if [8, 13, 18, 23].contains(&i) {
            assert_eq!(ch, '-');
        } else {
            assert!(ch.is_ascii_digit() || ('a'..='f').contains(&ch));
        }
    }
    assert_eq!(name.chars().nth(14), Some('4'));
}

#[test]
fn post_id_test_tells_valid_ids() {
    assert!(is_post_id(ID));
    assert!(is_post_id("65A1B2C3D4E5F60718293A4B"));
    assert!(!is_post_id("12"));
    assert!(!is_post_id("65a1b2c3d4e5f60718293a4g"));
    assert_eq!(PostId::from_text(ID).to_hex(), ID);
}

#[test]
fn with_commenter_fills_only_anonymous() {
    let anon = Comment { commenter: String::new(), body: "b".to_string() };
    assert_eq!(with_commenter(anon, "x".to_string()).commenter, "x");
    let named = Comment { commenter: "n".to_string(), body: "b".to_string() };
    assert_eq!(with_commenter(named, "x".to_string()).commenter, "n");
}

#[test]
fn routes_pick_pages() {
    assert_eq!(switch(&Route::Home), Page::StaticPages);
    assert_eq!(switch(&Route::GalleryRouter), Page::GalleryRoutes);
    assert_eq!(switch(&Route::Gallery), Page::Gallery(GalleryProps { sort: "new".to_string() }));
    assert_eq!(switch(&Route::About), Page::About);
    assert_eq!(switch(&Route::Tags), Page::Tags);
}

#[test]
fn gallery_routes_pick_orders() {
    for (r, name, order) in [
        (GalleryRoute::New, "new", SortOrder::New),
        (GalleryRoute::Top, "top", SortOrder::Top),
        (GalleryRoute::Views, "views", SortOrder::Views),
    ] {
        assert_eq!(gallery_switch(&r), Page::Gallery(GalleryProps { sort: name.to_string() }));
        assert_eq!(sort_order(name), order);
    }
}

#[test]
fn post_query_default_is_empty() {
    let q = PostQuery::default();
    assert_eq!(q.sort, "");
    assert_eq!(q.query, "");
}

#[test]
fn sidebar_toggles_and_back() {
    let mut s = Sidebar::new();
    assert_eq!(s.style(), "");
    assert!(s.toggle());
    assert_eq!(s.style(), "display: none !important;");
    assert!(s.toggle());
    assert_eq!(s.style(), "");
}

#[test]
fn search_keeps_order() {
    let current = PostQuery { sort: "top".to_string(), query: "old".to_string() };
    let nav = Sidebar::search(&current, "cats".to_string());
    assert_eq!(nav.route, Route::Gallery);
    assert_eq!(nav.query, PostQuery { sort: "top".to_string(), query: "cats".to_string() });
}

#[test]
fn side_bar_links() {
    let links = nav_links();
    let texts: Vec<&str> = links.iter().map(|l| l.text.as_str()).collect();
    assert_eq!(texts, vec!["HOME", "GALLERY", "TAGS", "ABOUT", "GITHUB"]);
    assert_eq!(links[0].target, NavTarget::Page(Route::Home, None));
    assert_eq!(
        links[1].target,
        NavTarget::Page(
            Route::Gallery,
            Some(PostQuery { sort: "new".to_string(), query: String::new() })
        )
    );
    assert_eq!(
        links[4].target,
        NavTarget::External("https://github.com/player01osu/yuri-web".to_string())
    );
}
