//! Posts: plain rows, created, replaced, read and deleted by id.

use vstd::prelude::*;
use crate::error::ApiError;
use crate::models::post::{CreatePost, Post, PostView, UpdatePost};

verus! {

/// The post that the store holds once it has given the new post the id `id`.
pub fn create_post(id: i32, new_post: CreatePost) -> (post: Post)
    ensures
        post@ == (PostView {
            id,
            user_id: new_post.user_id,
            title: new_post.title@,
            body: new_post.body@,
        }),
{
    Post { id, user_id: new_post.user_id, title: new_post.title, body: new_post.body }
}

/// The post that a lookup by id gave, or `NotFound`.
pub fn get_post(found: Option<Post>) -> (answer: Result<Post, ApiError>)
    ensures
        answer == match found {
            Some(post) => Ok::<Post, ApiError>(post),
            None => Err::<Post, ApiError>(ApiError::NotFound),
        },
{
    match found {
        Some(post) => Ok(post),
        None => Err(ApiError::NotFound),
    }
}

/// Replaces title, body and author of the post that a lookup by id gave;
/// the id stays. `NotFound` where the lookup gave none.
pub fn update_post(found: Option<Post>, updated_post: UpdatePost) -> (answer: Result<
    Post,
    ApiError,
>)
    ensures
        match found {
            Some(stored) => answer is Ok && answer->Ok_0@ == (PostView {
                id: stored.id,
                user_id: updated_post.user_id,
                title: updated_post.title@,
                body: updated_post.body@,
            }),
            None => answer == Err::<Post, ApiError>(ApiError::NotFound),
        },
{
    match found {
        Some(stored) => Ok(
            Post {
                id: stored.id,
                user_id: updated_post.user_id,
                title: updated_post.title,
                body: updated_post.body,
            },
        ),
        None => Err(ApiError::NotFound),
    }
}

/// What deleting a post answers, from the number of rows that went.
pub fn delete_post(rows_affected: u64) -> (answer: Result<(), ApiError>)
    ensures
        answer == if rows_affected > 0 {
            Ok::<(), ApiError>(())
        } else {
            Err::<(), ApiError>(ApiError::NotFound)
        },
{
    crate::error::deleted_or_404(rows_affected)
}

} // verus!
