//! The stored records of the gallery: posts, their sources, sizes,
//! statistics and comments.

use vstd::prelude::*;

verus! {

/// Where a post's picture comes from.
#[derive(Debug, Clone, PartialEq)]
pub struct Source {
    pub material: String,
    pub link: Option<String>,
}

/// The pixel size of a post's picture.
#[derive(Debug, Clone, Copy, PartialEq)]
pub struct Resolution {
    pub width: usize,
    pub height: usize,
}

/// The counters of a post.
#[derive(Debug, Clone, Copy, PartialEq)]
pub struct PostStats {
    pub likes: i64,
    pub views: i64,
}

/// One comment under a post.
#[derive(Debug, Clone, PartialEq)]
pub struct Comment {
    pub commenter: String,
    pub body: String,
}

/// A stored post.
#[derive(Debug, Clone, PartialEq)]
pub struct YuriPosts {
    pub title: String,
    pub author: String,
    pub op: String,
    pub path: String,
    pub source: Source,
    pub resolution: Resolution,
    pub time: u64,
    pub tags: Option<Vec<String>>,
    pub stats: PostStats,
    pub comments: Option<Vec<Comment>>,
}

/// The fields of an upload request as a client describes it.
#[derive(Debug, Clone, PartialEq)]
pub struct PostImageRequest {
    pub title: String,
    pub author: String,
    pub op: String,
    pub source: Source,
    pub resolution: Resolution,
    pub time: u64,
    pub tags: Option<Vec<String>>,
    pub file_name: String,
}

/// The answer to an upload, and the body of a delete request: the post's id
/// in hexadecimal.
#[derive(Debug, Clone, PartialEq)]
pub struct DeleteImageRequest {
    pub oid: String,
}

/// The body of a like request: the post's id in hexadecimal.
#[derive(Debug, Clone, PartialEq)]
pub struct LikeImageRequest {
    pub oid: String,
}

/// Identifies a background task.
#[derive(Debug, Clone, PartialEq)]
pub struct TaskIndentifier {
    pub task_global_id: String,
}

} // verus!
