//! The entity model: the persisted `Post` and the `NewPost` creation payload.

use vstd::prelude::*;

verus! {

/// Mathematical value of a [`Post`].
pub struct PostView {
    pub id: int,
    pub title: Seq<char>,
    pub body: Seq<char>,
}

/// Mathematical value of a [`NewPost`].
pub struct NewPostView {
    pub title: Seq<char>,
    pub body: Seq<char>,
}

impl NewPostView {
    /// A payload is valid when its title is not empty; the body may be empty.
    pub open spec fn valid(self) -> bool {
        self.title.len() > 0
    }

    /// The post that this payload becomes once the store has assigned `id`.
    pub open spec fn with_id(self, id: int) -> PostView {
        PostView { id, title: self.title, body: self.body }
    }
}

/// A persisted post. Its `id` is assigned by the store and never changes.
#[derive(Debug, PartialEq, Eq)]
pub struct Post {
    pub id: i32,
    pub title: String,
    pub body: String,
}

/// The payload from which a post is created. It carries no `id`.
#[derive(Debug, PartialEq, Eq)]
pub struct NewPost {
    pub title: String,
    pub body: String,
}

impl View for Post {
    type V = PostView;

    open spec fn view(&self) -> PostView {
        PostView { id: self.id as int, title: self.title@, body: self.body@ }
    }
}

impl View for NewPost {
    type V = NewPostView;

    open spec fn view(&self) -> NewPostView {
        NewPostView { title: self.title@, body: self.body@ }
    }
}

impl Clone for Post {
    fn clone(&self) -> (copy: Self)
        ensures
            copy == *self,
    {
        Post { id: self.id, title: self.title.clone(), body: self.body.clone() }
    }
}

impl Clone for NewPost {
    fn clone(&self) -> (copy: Self)
        ensures
            copy == *self,
    {
        NewPost { title: self.title.clone(), body: self.body.clone() }
    }
}

/// The values of a sequence of posts, in the same order.
pub open spec fn post_views(posts: Seq<Post>) -> Seq<PostView> {
    Seq::new(posts.len(), |i: int| posts[i]@)
}

impl NewPost {
    /// Builds a payload from a title and a body.
    pub fn new(title: &str, body: &str) -> (payload: NewPost)
        ensures
            payload@ == (NewPostView { title: title@, body: body@ }),
    {
        NewPost { title: title.to_owned(), body: body.to_owned() }
    }

    /// Tells whether the title is non-empty, which is what the store asks of a post.
    pub fn is_valid(&self) -> (ok: bool)
        ensures
            ok == self@.valid(),
    {
        !self.title.as_str().is_empty()
    }
}

impl Post {
    /// The post that `payload` becomes under the store-assigned `id`.
    pub fn assigned(id: i32, payload: NewPost) -> (post: Post)
        ensures
            post@ == payload@.with_id(id as int),
    {
        Post { id, title: payload.title, body: payload.body }
    }
}

} // verus!
