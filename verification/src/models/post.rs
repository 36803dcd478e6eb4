//! Posts: plain keyed rows without rules of their own.

use vstd::prelude::*;

verus! {

/// A stored post.
#[derive(Debug, PartialEq, Eq)]
pub struct Post {
    pub id: i32,
    pub user_id: Option<i32>,
    pub title: String,
    pub body: String,
}

/// The fields from which a post is created.
#[derive(Debug, PartialEq, Eq)]
pub struct CreatePost {
    pub title: String,
    pub body: String,
    pub user_id: Option<i32>,
}

/// The fields that replace those of a stored post.
#[derive(Debug, PartialEq, Eq)]
pub struct UpdatePost {
    pub title: String,
    pub body: String,
    pub user_id: Option<i32>,
}

/// The mathematical value of a [`Post`].
pub struct PostView {
    pub id: i32,
    pub user_id: Option<i32>,
    pub title: Seq<char>,
    pub body: Seq<char>,
}

impl View for Post {
    type V = PostView;

    open spec fn view(&self) -> PostView {
        PostView { id: self.id, user_id: self.user_id, title: self.title@, body: self.body@ }
    }
}

} // verus!
