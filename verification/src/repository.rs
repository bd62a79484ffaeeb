//! The repository: the only gateway to the posts store. Each operation issues
//! one store operation and turns the store's answer into a post, a list of
//! posts or a typed error. The repository keeps no copy of any row.

use vstd::prelude::*;
use crate::error::{RepoError, RepoErrorView};
use crate::model::{NewPost, NewPostView, Post, PostView, post_views};
use crate::store::{Store, StoreFault, StoreFaultView, StoreView};

verus! {

impl StoreFaultView {
    /// The repository error that stands for a store fault: a constraint
    /// violation is `Invalid` with the store's message; an unreachable store
    /// and a failed execution are both `ConnectionFailed`, without any detail.
    pub open spec fn repo_error(self) -> RepoErrorView {
        match self {
            StoreFaultView::Unreachable => RepoErrorView::ConnectionFailed,
            StoreFaultView::Constraint(message) => RepoErrorView::Invalid(message),
            StoreFaultView::Execution(_) => RepoErrorView::ConnectionFailed,
        }
    }
}

/// What `create_post` returns for a payload, given the store's answer to the insert.
pub open spec fn created_view(payload: NewPostView, reply: Result<int, StoreFaultView>) -> Result<
    PostView,
    RepoErrorView,
> {
    match reply {
        Ok(id) => Ok(payload.with_id(id)),
        Err(fault) => Err(fault.repo_error()),
    }
}

/// What `list_posts` returns, given the store's answer to the query.
pub open spec fn listed_view(reply: Result<Seq<PostView>, StoreFaultView>) -> Result<
    Seq<PostView>,
    RepoErrorView,
> {
    match reply {
        Ok(rows) => Ok(rows),
        Err(fault) => Err(fault.repo_error()),
    }
}

/// What `get_post` returns, given the store's answer to the query: a
/// missing row is `NotFound`.
pub open spec fn found_view(reply: Result<Option<PostView>, StoreFaultView>) -> Result<
    PostView,
    RepoErrorView,
> {
    match reply {
        Ok(Some(row)) => Ok(row),
        Ok(None) => Err(RepoErrorView::NotFound),
        Err(fault) => Err(fault.repo_error()),
    }
}

impl StoreView {
    /// What `create_post` returns on this store.
    pub open spec fn create_result(self, payload: NewPostView) -> Result<PostView, RepoErrorView> {
        created_view(payload, self.insert_reply(payload.title, payload.body))
    }

    /// The store after `create_post`.
    pub open spec fn after_create(self, payload: NewPostView) -> StoreView {
        self.after_insert(payload.title, payload.body)
    }

    /// What `list_posts` returns on this store.
    pub open spec fn list_result(self) -> Result<Seq<PostView>, RepoErrorView> {
        listed_view(self.select_all_reply())
    }

    /// What `get_post` returns on this store.
    pub open spec fn get_result(self, id: int) -> Result<PostView, RepoErrorView> {
        found_view(self.select_reply(id))
    }
}

/// The value of a result that holds one post.
pub open spec fn post_result_view(result: Result<Post, RepoError>) -> Result<
    PostView,
    RepoErrorView,
> {
    match result {
        Ok(post) => Ok(post@),
        Err(error) => Err(error@),
    }
}

/// The value of a result that holds a list of posts.
pub open spec fn posts_result_view(result: Result<Vec<Post>, RepoError>) -> Result<
    Seq<PostView>,
    RepoErrorView,
> {
    match result {
        Ok(posts) => Ok(post_views(posts@)),
        Err(error) => Err(error@),
    }
}

/// Turns a store fault into the repository's error. The raw detail of a
/// failed execution is dropped here and goes no further.
pub fn store_failure(fault: StoreFault) -> (error: RepoError)
    ensures
        error@ == fault@.repo_error(),
{
    match fault {
        StoreFault::Unreachable => RepoError::ConnectionFailed,
        StoreFault::Constraint(message) => RepoError::Invalid(message),
        StoreFault::Execution(_) => RepoError::ConnectionFailed,
    }
}

/// Completes a creation from the store's answer to the insert: the payload
/// under the id that the store assigned, or the store's fault as an error.
pub fn post_created(payload: NewPost, reply: Result<i32, StoreFault>) -> (result: Result<
    Post,
    RepoError,
>)
    ensures
        post_result_view(result) == created_view(payload@, crate::store::id_reply_view(reply)),
{
    match reply {
        Ok(id) => Ok(Post::assigned(id, payload)),
        Err(fault) => Err(store_failure(fault)),
    }
}

/// Completes a listing from the store's answer: the rows as they came.
pub fn posts_listed(reply: Result<Vec<Post>, StoreFault>) -> (result: Result<Vec<Post>, RepoError>)
    ensures
        posts_result_view(result) == listed_view(crate::store::rows_reply_view(reply)),
{
    match reply {
        Ok(rows) => Ok(rows),
        Err(fault) => Err(store_failure(fault)),
    }
}

/// Completes a lookup from the store's answer: the row, `NotFound` where
/// the store has none, or the store's fault as an error.
pub fn post_found(reply: Result<Option<Post>, StoreFault>) -> (result: Result<Post, RepoError>)
    ensures
        post_result_view(result) == found_view(crate::store::row_reply_view(reply)),
{
    match reply {
        Ok(Some(row)) => Ok(row),
        Ok(None) => Err(RepoError::NotFound),
        Err(fault) => Err(store_failure(fault)),
    }
}

/// The gateway to the posts store. It is made once and owns the store.
#[derive(Debug)]
pub struct Repository {
    store: Store,
}

impl View for Repository {
    type V = StoreView;

    closed spec fn view(&self) -> StoreView {
        self.store@
    }
}

impl Repository {
    /// Makes the repository of the store that the connection string names.
    pub fn new(database_url: &str) -> (repository: Repository)
        ensures
            repository@ == StoreView::fresh(database_url@),
            repository@.wf(),
    {
        Repository { store: Store::open(database_url) }
    }

    /// Makes the repository of a store that is already open.
    pub fn with_store(store: Store) -> (repository: Repository)
        ensures
            repository@ == store@,
    {
        Repository { store }
    }

    /// The connection string that the repository was made with.
    pub fn database_url(&self) -> (url: &str)
        ensures
            url@ == self@.url,
    {
        self.store.url()
    }

    /// Whether the store can be reached.
    pub fn is_connected(&self) -> (connected: bool)
        ensures
            connected == self@.online,
            self@.wf(),
    {
        self.store.is_online()
    }

    /// Severs the connection to the store. Until it is restored every
    /// operation fails with `ConnectionFailed`; the rows are not touched.
    pub fn disconnect(&mut self)
        ensures
            final(self)@ == old(self)@.severed(),
            final(self)@.wf(),
    {
        self.store.disconnect();
    }

    /// Restores the connection to the store.
    pub fn reconnect(&mut self)
        ensures
            final(self)@ == old(self)@.restored(),
            final(self)@.wf(),
    {
        self.store.reconnect();
    }

    /// Inserts a post and returns it with the id that the store assigned.
    ///
    /// The payload is not validated here: an empty title is the store's to
    /// refuse, and comes back as `Invalid` with the store's message. The
    /// call succeeds exactly when the store is reachable, the title is
    /// non-empty and an id is left; a failed call changes nothing.
    pub fn create_post(&mut self, new_post: NewPost) -> (result: Result<Post, RepoError>)
        ensures
            post_result_view(result) == old(self)@.create_result(new_post@),
            final(self)@ == old(self)@.after_create(new_post@),
            result is Ok <==> old(self)@.admits(new_post@.title),
            result is Err ==> final(self)@ == old(self)@,
            old(self)@.wf(),
            final(self)@.wf(),
    {
        let reply = self.store.insert(new_post.title.as_str(), new_post.body.as_str());
        post_created(new_post, reply)
    }

    /// Returns every post in the store, in ascending order of id.
    pub fn list_posts(&self) -> (result: Result<Vec<Post>, RepoError>)
        ensures
            posts_result_view(result) == self@.list_result(),
            result is Ok <==> self@.online,
            self@.wf(),
    {
        posts_listed(self.store.select_all())
    }

    /// Returns the post with this id. Any integer may be asked for; an id
    /// that no post has gives `NotFound`.
    pub fn get_post(&self, id: i32) -> (result: Result<Post, RepoError>)
        ensures
            post_result_view(result) == self@.get_result(id as int),
            result is Ok <==> self@.online && self@.holds(id as int),
            self@.wf(),
    {
        post_found(self.store.select_by_id(id))
    }
}

} // verus!
