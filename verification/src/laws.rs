//! Laws of the repository, stated over the values of the store and proved
//! from the definitions that the operations' contracts use.
//!
//! A history is the sequence of calls that change the store: creations,
//! and the link going down or coming up. Lookups and listings change
//! nothing and so have no place in a history.

use vstd::prelude::*;
use vstd::std_specs::convert::FromSpec;
use crate::api::{BodyView, ResponseView};
use crate::error::{ApiError, RepoError, RepoErrorView, not_found_text};
use crate::model::{NewPostView, PostView};
use crate::store::{StoreFaultView, StoreView, lemma_insert_keeps_wf, lemma_row_is_unique};

verus! {

/// One call that changes the store.
pub enum Op {
    /// `create_post` with this payload.
    Create(NewPostView),
    /// The connection is severed.
    Disconnect,
    /// The connection is restored.
    Reconnect,
}

/// The store after one call.
pub open spec fn step(store: StoreView, op: Op) -> StoreView {
    match op {
        Op::Create(payload) => store.after_create(payload),
        Op::Disconnect => store.severed(),
        Op::Reconnect => store.restored(),
    }
}

/// The post that one call returns: that of a creation that succeeds.
pub open spec fn returned(store: StoreView, op: Op) -> Option<PostView> {
    match op {
        Op::Create(payload) => match store.create_result(payload) {
            Ok(post) => Some(post),
            Err(_) => None,
        },
        _ => None,
    }
}

/// The store after a history.
pub open spec fn run(store: StoreView, ops: Seq<Op>) -> StoreView
    decreases ops.len(),
{
    if ops.len() == 0 {
        store
    } else {
        step(run(store, ops.drop_last()), ops.last())
    }
}

/// The posts that the successful creations of a history returned, in the
/// order of the calls.
pub open spec fn created(store: StoreView, ops: Seq<Op>) -> Seq<PostView>
    decreases ops.len(),
{
    if ops.len() == 0 {
        Seq::empty()
    } else {
        let earlier = created(store, ops.drop_last());
        match returned(run(store, ops.drop_last()), ops.last()) {
            Some(post) => earlier.push(post),
            None => earlier,
        }
    }
}

/// How many creations of a history succeeded.
pub open spec fn successes(store: StoreView, ops: Seq<Op>) -> nat
    decreases ops.len(),
{
    if ops.len() == 0 {
        0
    } else {
        let earlier = successes(store, ops.drop_last());
        if returned(run(store, ops.drop_last()), ops.last()) is Some {
            earlier + 1
        } else {
            earlier
        }
    }
}

/// The history that creates these payloads one after the other.
pub open spec fn creations(payloads: Seq<NewPostView>) -> Seq<Op> {
    Seq::new(payloads.len(), |k: int| Op::Create(payloads[k]))
}

/// A creation succeeds exactly when the store is reachable, the title is
/// non-empty and an id is left. The post it returns is then the one that
/// `get_post` returns for the returned id, and a creation that fails leaves
/// the store as it was.
pub proof fn law_create_then_get(store: StoreView, payload: NewPostView)
    requires
        store.wf(),
    ensures
        payload.valid() && store.online && !store.exhausted() <==> store.create_result(payload)
            is Ok,
        store.create_result(payload) matches Ok(post) ==> store.after_create(payload).get_result(
            post.id,
        ) == Ok::<PostView, RepoErrorView>(post),
        store.create_result(payload) is Err ==> store.after_create(payload) == store,
{
    if let Ok(post) = store.create_result(payload) {
        let after = store.after_create(payload);
        lemma_insert_keeps_wf(store, payload.title, payload.body);
        let last = store.rows.len() as int;
        assert(after.rows[last] == post);
        lemma_row_is_unique(after, last);
    }
}

/// On a reachable store `get_post` succeeds for exactly the ids that some
/// row has, and fails with `NotFound` for every other integer. On an
/// unreachable store it fails with `ConnectionFailed` for every integer.
pub proof fn law_get_by_id(store: StoreView, id: int)
    requires
        store.wf(),
    ensures
        store.online && store.holds(id) ==> store.get_result(id) == Ok::<PostView, RepoErrorView>(
            store.row(id),
        ) && store.row(id).id == id,
        store.online && !store.holds(id) ==> store.get_result(id) == Err::<
            PostView,
            RepoErrorView,
        >(RepoErrorView::NotFound),
        !store.online ==> store.get_result(id) == Err::<PostView, RepoErrorView>(
            RepoErrorView::ConnectionFailed,
        ),
{
}

/// A history keeps the store well-formed, keeps the rows it began with in
/// place, and adds after them exactly the posts that its creations returned.
pub proof fn law_history_appends(store: StoreView, ops: Seq<Op>)
    requires
        store.wf(),
    ensures
        run(store, ops).wf(),
        run(store, ops).url == store.url,
        run(store, ops).rows == store.rows + created(store, ops),
        created(store, ops).len() == successes(store, ops),
    decreases ops.len(),
{
    if ops.len() == 0 {
        assert(store.rows + created(store, ops) =~= store.rows);
    } else {
        let before = run(store, ops.drop_last());
        law_history_appends(store, ops.drop_last());
        match ops.last() {
            Op::Create(payload) => {
                lemma_insert_keeps_wf(before, payload.title, payload.body);
            },
            Op::Disconnect => {},
            Op::Reconnect => {},
        }
        assert(run(store, ops).rows =~= store.rows + created(store, ops));
    }
}

/// A post is never changed or removed: a row that the store holds is
/// still held after any history, under the same id and with the same title
/// and body, so `get_post` keeps returning it while the store is reachable.
pub proof fn law_posts_are_stable(store: StoreView, ops: Seq<Op>, id: int)
    requires
        store.wf(),
        store.holds(id),
    ensures
        run(store, ops).holds(id),
        run(store, ops).row(id) == store.row(id),
        run(store, ops).online ==> run(store, ops).get_result(id) == Ok::<
            PostView,
            RepoErrorView,
        >(store.row(id)),
{
    let now = run(store, ops);
    let i = choose|i: int| 0 <= i < store.rows.len() && (#[trigger] store.rows[i]).id == id;
    law_history_appends(store, ops);
    assert(now.rows[i] == store.rows[i]);
    lemma_row_is_unique(store, i);
    lemma_row_is_unique(now, i);
}

/// An id that no creation has returned names no post: on a store that was
/// opened empty and has come through any history, `get_post` fails with
/// `NotFound` for it while the store is reachable.
pub proof fn law_unreturned_id_not_found(url: Seq<char>, ops: Seq<Op>, id: int)
    requires
        run(StoreView::fresh(url), ops).online,
        forall|k: int|
            0 <= k < created(StoreView::fresh(url), ops).len() ==> (#[trigger] created(
                StoreView::fresh(url),
                ops,
            )[k]).id != id,
    ensures
        run(StoreView::fresh(url), ops).get_result(id) == Err::<PostView, RepoErrorView>(
            RepoErrorView::NotFound,
        ),
{
    let fresh = StoreView::fresh(url);
    let now = run(fresh, ops);
    law_history_appends(fresh, ops);
    assert(now.rows =~= created(fresh, ops));
    assert(!now.holds(id));
}

/// After a history on a store that was opened empty, `list_posts` returns
/// exactly the posts that the successful creations returned, in the order
/// of the calls: as many posts as creations succeeded, no two with the same id.
pub proof fn law_list_after_creates(url: Seq<char>, ops: Seq<Op>)
    requires
        run(StoreView::fresh(url), ops).online,
    ensures
        run(StoreView::fresh(url), ops).list_result() == Ok::<Seq<PostView>, RepoErrorView>(
            created(StoreView::fresh(url), ops),
        ),
        created(StoreView::fresh(url), ops).len() == successes(StoreView::fresh(url), ops),
        forall|i: int, j: int|
            0 <= i < j < created(StoreView::fresh(url), ops).len() ==> (#[trigger] created(
                StoreView::fresh(url),
                ops,
            )[i]).id != (#[trigger] created(StoreView::fresh(url), ops)[j]).id,
{
    let fresh = StoreView::fresh(url);
    let now = run(fresh, ops);
    law_history_appends(fresh, ops);
    assert(now.rows =~= created(fresh, ops));
    assert forall|i: int, j: int| 0 <= i < j < created(fresh, ops).len() implies (
    #[trigger] created(fresh, ops)[i]).id != (#[trigger] created(fresh, ops)[j]).id by {
        assert(now.rows[i].id < now.rows[j].id);
    }
}

/// Whatever the store held and in whatever order the calls arrive, every
/// creation that succeeds returns an id of its own: later ones are
/// greater than earlier ones, and none is the id of a row that was there before.
pub proof fn law_created_ids_distinct(store: StoreView, ops: Seq<Op>)
    requires
        store.wf(),
    ensures
        forall|i: int, j: int|
            0 <= i < j < created(store, ops).len() ==> (#[trigger] created(store, ops)[i]).id < (
            #[trigger] created(store, ops)[j]).id,
        forall|i: int, k: int|
            0 <= i < store.rows.len() && 0 <= k < created(store, ops).len() ==> (
            #[trigger] store.rows[i]).id < (#[trigger] created(store, ops)[k]).id,
{
    let now = run(store, ops);
    let n = store.rows.len() as int;
    law_history_appends(store, ops);
    assert forall|i: int, j: int| 0 <= i < j < created(store, ops).len() implies (
    #[trigger] created(store, ops)[i]).id < (#[trigger] created(store, ops)[j]).id by {
        assert(now.rows[n + i] == created(store, ops)[i]);
        assert(now.rows[n + j] == created(store, ops)[j]);
    }
    assert forall|i: int, k: int|
        0 <= i < store.rows.len() && 0 <= k < created(store, ops).len() implies (
    #[trigger] store.rows[i]).id < (#[trigger] created(store, ops)[k]).id by {
        assert(now.rows[i] == store.rows[i]);
        assert(now.rows[n + k] == created(store, ops)[k]);
    }
}

/// Creations of valid payloads on a reachable store all succeed while ids
/// are left, and they are given the ids that follow the last one handed
/// out, in the order of the calls. On a store that was opened empty the
/// first post has id 1.
pub proof fn law_valid_creates_succeed(store: StoreView, payloads: Seq<NewPostView>)
    requires
        store.wf(),
        store.online,
        forall|k: int| 0 <= k < payloads.len() ==> (#[trigger] payloads[k]).valid(),
        store.last_id + payloads.len() <= i32::MAX,
    ensures
        run(store, creations(payloads)).online,
        run(store, creations(payloads)).last_id == store.last_id + payloads.len(),
        created(store, creations(payloads)).len() == payloads.len(),
        forall|k: int|
            0 <= k < payloads.len() ==> #[trigger] created(store, creations(payloads))[k]
                == payloads[k].with_id(store.last_id + 1 + k),
    decreases payloads.len(),
{
    if payloads.len() > 0 {
        let ops = creations(payloads);
        let earlier = payloads.drop_last();
        assert(ops.drop_last() =~= creations(earlier));
        assert(ops.last() == Op::Create(payloads.last()));
        law_valid_creates_succeed(store, earlier);
        assert forall|k: int| 0 <= k < payloads.len() implies #[trigger] created(store, ops)[k]
            == payloads[k].with_id(store.last_id + 1 + k) by {
            if k < earlier.len() {
                assert(created(store, ops)[k] == created(store, creations(earlier))[k]);
                assert(earlier[k] == payloads[k]);
            }
        }
    }
}

/// Whatever detail the store gives of a failed execution, and whatever the
/// request was, the client receives status 500 and nothing else. An
/// unreachable store is answered in the same way.
pub proof fn law_store_detail_is_not_shown(detail: Seq<char>)
    ensures
        StoreFaultView::Execution(detail).repo_error() == RepoErrorView::ConnectionFailed,
        StoreFaultView::Unreachable.repo_error() == RepoErrorView::ConnectionFailed,
        RepoErrorView::ConnectionFailed.api_error().response() == (ResponseView {
            status: 500,
            body: BodyView::Empty,
        }),
{
}

/// Converting a repository error with `From` gives the API error of the
/// same kind, with the same message where it has one.
pub proof fn law_error_conversion(error: RepoError)
    ensures
        ApiError::from_spec(error)@ == error@.api_error(),
{
}

/// Every repository error is answered with a response of its own status:
/// 404 with a fixed explanation for `NotFound`, 400 with the store's message
/// for `Invalid`, 500 with nothing for `ConnectionFailed`.
pub proof fn law_error_responses(error: RepoErrorView)
    ensures
        error == RepoErrorView::NotFound ==> error.api_error().response() == (ResponseView {
            status: 404,
            body: BodyView::Message(not_found_text()),
        }),
        error matches RepoErrorView::Invalid(message) ==> error.api_error().response() == (
        ResponseView { status: 400, body: BodyView::Message(message) }),
        error == RepoErrorView::ConnectionFailed ==> error.api_error().response() == (
        ResponseView { status: 500, body: BodyView::Empty }),
{
}

} // verus!
