//! Verified core of the Wholesome Yuri gallery: request decoding, post
//! upload forms, gallery queries, likes and comments, and the page routing
//! decisions of the web front end.

pub mod feedback;
pub mod gallery;
pub mod object_id;
pub mod post;
pub mod routes;
pub mod sidebar;
pub mod text;
pub mod upload;
