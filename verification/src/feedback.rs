//! Likes and comments on posts: which post a request targets and what
//! change it asks the database to make.

use vstd::prelude::*;
use crate::object_id::{is_object_id_text, object_id_bytes, PostId};
use crate::post::Comment;

verus! {

/// The change of a post's like count that one request makes: one more for a
/// like, one less for an unlike.
pub open spec fn like_step(liked: bool) -> i32 {
    if liked {
        1i32
    } else {
        -1i32
    }
}

/// A change of a post's like count.
#[derive(Debug)]
pub struct LikeChange {
    pub post: PostId,
    pub delta: i32,
}

/// The like count change asked for by a like request for the post with id
/// text `post_id`, which must name a post (test it with `is_post_id`).
pub fn like_change(post_id: &str) -> (r: LikeChange)
    requires
        is_object_id_text(post_id@),
    ensures
        r.post.bytes@ == object_id_bytes(post_id@),
        r.delta == like_step(true),
{
    LikeChange { post: PostId::from_text(post_id), delta: 1 }
}

/// The like count change asked for by an unlike request for the post with
/// id text `post_id`, which must name a post (test it with `is_post_id`).
pub fn unlike_change(post_id: &str) -> (r: LikeChange)
    requires
        is_object_id_text(post_id@),
    ensures
        r.post.bytes@ == object_id_bytes(post_id@),
        r.delta == like_step(false),
{
    LikeChange { post: PostId::from_text(post_id), delta: -1 }
}

/// The total change of a like count made by a series of requests, each a
/// like (`true`) or an unlike (`false`).
pub open spec fn net_likes(steps: Seq<bool>) -> int
    decreases steps.len(),
{
    if steps.len() == 0 {
        0
    } else {
        net_likes(steps.drop_last()) + like_step(steps.last())
    }
}

/// How many of the requests are likes (`liked`) or unlikes (`!liked`).
pub open spec fn count_of(steps: Seq<bool>, liked: bool) -> int
    decreases steps.len(),
{
    if steps.len() == 0 {
        0
    } else {
        count_of(steps.drop_last(), liked) + if steps.last() == liked {
            1int
        } else {
            0int
        }
    }
}

/// Any series of likes and unlikes, in any order, changes a like count by
/// the number of likes less the number of unlikes.
pub proof fn lemma_likes_add_up(steps: Seq<bool>)
    ensures
        net_likes(steps) == count_of(steps, true) - count_of(steps, false),
    decreases steps.len(),
{
    if steps.len() > 0 {
        lemma_likes_add_up(steps.drop_last());
    }
}

/// An unlike takes back a like: a like count changed by both is unchanged.
pub proof fn lemma_unlike_undoes_like(count: int)
    ensures
        count + like_step(true) + like_step(false) == count,
{
}

/// A lower case hexadecimal digit.
pub open spec fn is_lower_hex_digit(c: char) -> bool {
    let u: u32 = c as u32;
    (0x30 <= u <= 0x39) || (0x61 <= u <= 0x66)
}

/// The text of a random (version 4) UUID: 36 characters, hyphens at 8, 13,
/// 18 and 23, lower case hexadecimal digits elsewhere, `4` at 14 and one of
/// `8 9 a b` at 19.
pub open spec fn is_uuid_v4_text(s: Seq<char>) -> bool {
    &&& s.len() == 36
    &&& forall|i: int|
        0 <= i < 36 ==> if i == 8 || i == 13 || i == 18 || i == 23 {
            #[trigger] s[i] == '-'
        } else {
            is_lower_hex_digit(s[i])
        }
    &&& s[14] == '4'
    &&& s[19] == '8' || s[19] == '9' || s[19] == 'a' || s[19] == 'b'
}

/// `uuid::Uuid::new_v4().to_string()`. Claimed, as the crate's source shows
/// (`new_v4` sets the version nibble to 4 and the variant bits to `10`;
/// `Display` writes the hyphenated lower case form): the text of a version 4 UUID. Which one is left to
/// chance.
#[verifier::external_body]
fn random_commenter_name() -> (r: String)
    ensures
        is_uuid_v4_text(r@),
{
    uuid::Uuid::new_v4().to_string()
}

/// A comment with its commenter filled in: an anonymous comment is signed
/// with `fresh`.
pub fn with_commenter(comment: Comment, fresh: String) -> (r: Comment)
    ensures
        r.body == comment.body,
        comment.commenter@.len() == 0 ==> r.commenter == fresh,
        comment.commenter@.len() > 0 ==> r.commenter == comment.commenter,
{
    if comment.commenter.as_str().is_empty() {
        Comment { commenter: fresh, body: comment.body }
    } else {
        comment
    }
}

/// A comment to add to the end of a post's comment section.
#[derive(Debug)]
pub struct CommentPush {
    pub post: PostId,
    pub comment: Comment,
}

/// What a comment request for the post with id text `post_id` adds: the
/// comment, signed with a random UUID where it is anonymous. The text must
/// name a post (test it with `is_post_id`).
pub fn comment_push(post_id: &str, comment: Comment) -> (r: CommentPush)
    requires
        is_object_id_text(post_id@),
    ensures
        r.post.bytes@ == object_id_bytes(post_id@),
        r.comment.body == comment.body,
        comment.commenter@.len() > 0 ==> r.comment.commenter == comment.commenter,
        comment.commenter@.len() == 0 ==> is_uuid_v4_text(r.comment.commenter@),
        r.comment.commenter@.len() > 0,
{
    let post = PostId::from_text(post_id);
    let comment = if comment.commenter.as_str().is_empty() {
        let fresh = random_commenter_name();
        with_commenter(comment, fresh)
    } else {
        comment
    };
    CommentPush { post, comment }
}

} // verus!
