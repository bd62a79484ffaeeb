//! The posts store: one table of posts with store-assigned ids, a link that
//! is up or down, and the three operations that the repository issues.

use vstd::prelude::*;
use crate::model::{Post, PostView, post_views};

verus! {

/// A failure reported by the store itself.
#[derive(Debug, PartialEq, Eq)]
pub enum StoreFault {
    /// The store cannot be reached.
    Unreachable,
    /// A row violates a constraint of the table; the store's message.
    Constraint(String),
    /// The store was reached but could not execute the operation; the store's detail.
    Execution(String),
}

/// Mathematical value of a [`StoreFault`].
pub enum StoreFaultView {
    Unreachable,
    Constraint(Seq<char>),
    Execution(Seq<char>),
}

impl View for StoreFault {
    type V = StoreFaultView;

    open spec fn view(&self) -> StoreFaultView {
        match self {
            StoreFault::Unreachable => StoreFaultView::Unreachable,
            StoreFault::Constraint(message) => StoreFaultView::Constraint(message@),
            StoreFault::Execution(detail) => StoreFaultView::Execution(detail@),
        }
    }
}

/// The message of the constraint that a title must not be empty.
pub open spec fn empty_title_text() -> Seq<char> {
    "title must not be empty"@
}

/// The detail reported when every id has been handed out.
pub open spec fn ids_exhausted_text() -> Seq<char> {
    "post id sequence exhausted"@
}

/// Whether `rows` can be the rows of a table whose last id handed out is
/// `last_id`: every id lies between 1 and `last_id`, ids ascend strictly
/// from one row to the next, and every title is non-empty.
pub open spec fn rows_in_order(rows: Seq<PostView>, last_id: int) -> bool {
    &&& 0 <= last_id <= i32::MAX
    &&& forall|i: int|
        0 <= i < rows.len() ==> 1 <= (#[trigger] rows[i]).id <= last_id && rows[i].title.len() > 0
    &&& forall|i: int, j: int|
        0 <= i < j < rows.len() ==> (#[trigger] rows[i]).id < (#[trigger] rows[j]).id
}

/// Mathematical value of a [`Store`]: the rows in the order in which they were
/// inserted, the last id handed out, and whether the link is up.
pub struct StoreView {
    pub url: Seq<char>,
    pub rows: Seq<PostView>,
    pub last_id: int,
    pub online: bool,
}

impl StoreView {
    /// The store as it is right after it was opened: no rows, no id handed
    /// out yet, the link up.
    pub open spec fn fresh(url: Seq<char>) -> StoreView {
        StoreView { url, rows: Seq::empty(), last_id: 0, online: true }
    }

    /// What holds of every store: ids were handed out from 1 upwards, rows
    /// stand in ascending order of id, so no two rows share an id, and every
    /// title is non-empty.
    pub open spec fn wf(self) -> bool {
        rows_in_order(self.rows, self.last_id)
    }

    /// Whether some row has this id.
    pub open spec fn holds(self, id: int) -> bool {
        exists|i: int| 0 <= i < self.rows.len() && (#[trigger] self.rows[i]).id == id
    }

    /// The row with this id, where one exists.
    pub open spec fn row(self, id: int) -> PostView {
        let i = choose|i: int| 0 <= i < self.rows.len() && (#[trigger] self.rows[i]).id == id;
        self.rows[i]
    }

    /// Whether every id has been handed out.
    pub open spec fn exhausted(self) -> bool {
        self.last_id >= i32::MAX
    }

    /// Whether an insert of a row with this title goes through.
    pub open spec fn admits(self, title: Seq<char>) -> bool {
        self.online && title.len() > 0 && !self.exhausted()
    }

    /// The store's answer to an insert: the new row's id, or the fault. The
    /// link is tried first, then the title, then the id sequence.
    pub open spec fn insert_reply(self, title: Seq<char>, body: Seq<char>) -> Result<
        int,
        StoreFaultView,
    > {
        if !self.online {
            Err(StoreFaultView::Unreachable)
        } else if title.len() == 0 {
            Err(StoreFaultView::Constraint(empty_title_text()))
        } else if self.exhausted() {
            Err(StoreFaultView::Execution(ids_exhausted_text()))
        } else {
            Ok(self.last_id + 1)
        }
    }

    /// The store after an insert: one more row at the end under the next id
    /// where the insert goes through, and no change at all where it does not.
    pub open spec fn after_insert(self, title: Seq<char>, body: Seq<char>) -> StoreView {
        if self.admits(title) {
            StoreView {
                rows: self.rows.push(PostView { id: self.last_id + 1, title, body }),
                last_id: self.last_id + 1,
                ..self
            }
        } else {
            self
        }
    }

    /// The store's answer to a query for all rows.
    pub open spec fn select_all_reply(self) -> Result<Seq<PostView>, StoreFaultView> {
        if self.online {
            Ok(self.rows)
        } else {
            Err(StoreFaultView::Unreachable)
        }
    }

    /// The store's answer to a query for the row with a given id.
    pub open spec fn select_reply(self, id: int) -> Result<Option<PostView>, StoreFaultView> {
        if !self.online {
            Err(StoreFaultView::Unreachable)
        } else if self.holds(id) {
            Ok(Some(self.row(id)))
        } else {
            Ok(None)
        }
    }

    /// The same store with the link down.
    pub open spec fn severed(self) -> StoreView {
        StoreView { online: false, ..self }
    }

    /// The same store with the link up.
    pub open spec fn restored(self) -> StoreView {
        StoreView { online: true, ..self }
    }
}

/// The value of an insert's answer.
pub open spec fn id_reply_view(reply: Result<i32, StoreFault>) -> Result<int, StoreFaultView> {
    match reply {
        Ok(id) => Ok(id as int),
        Err(fault) => Err(fault@),
    }
}

/// The value of the answer to a query for all rows.
pub open spec fn rows_reply_view(reply: Result<Vec<Post>, StoreFault>) -> Result<
    Seq<PostView>,
    StoreFaultView,
> {
    match reply {
        Ok(rows) => Ok(post_views(rows@)),
        Err(fault) => Err(fault@),
    }
}

/// The value of the answer to a query for one row.
pub open spec fn row_reply_view(reply: Result<Option<Post>, StoreFault>) -> Result<
    Option<PostView>,
    StoreFaultView,
> {
    match reply {
        Ok(Some(row)) => Ok(Some(row@)),
        Ok(None) => Ok(None),
        Err(fault) => Err(fault@),
    }
}

/// In a well-formed store an id names at most one row.
pub proof fn lemma_row_is_unique(store: StoreView, i: int)
    requires
        store.wf(),
        0 <= i < store.rows.len(),
    ensures
        store.holds(store.rows[i].id),
        store.row(store.rows[i].id) == store.rows[i],
{
    let id = store.rows[i].id;
    let k = choose|k: int| 0 <= k < store.rows.len() && (#[trigger] store.rows[k]).id == id;
    if k < i {
        assert(store.rows[k].id < store.rows[i].id);
    } else if i < k {
        assert(store.rows[i].id < store.rows[k].id);
    }
}

/// An insert that goes through keeps the store well-formed.
pub proof fn lemma_insert_keeps_wf(store: StoreView, title: Seq<char>, body: Seq<char>)
    requires
        store.wf(),
    ensures
        store.after_insert(title, body).wf(),
{
    let after = store.after_insert(title, body);
    if store.admits(title) {
        assert forall|i: int| 0 <= i < after.rows.len() implies 1 <= (#[trigger] after.rows[i]).id
            <= after.last_id && after.rows[i].title.len() > 0 by {
            if i < store.rows.len() {
                assert(after.rows[i] == store.rows[i]);
            }
        }
        assert forall|i: int, j: int| 0 <= i < j < after.rows.len() implies (
        #[trigger] after.rows[i]).id < (#[trigger] after.rows[j]).id by {
            assert(after.rows[i] == store.rows[i]);
            if j < store.rows.len() {
                assert(after.rows[j] == store.rows[j]);
            }
        }
    }
}

/// The posts store. It owns the rows; nothing else holds a copy of them.
#[derive(Debug)]
pub struct Store {
    url: String,
    rows: Vec<Post>,
    last_id: i32,
    online: bool,
}

impl View for Store {
    type V = StoreView;

    closed spec fn view(&self) -> StoreView {
        StoreView {
            url: self.url@,
            rows: post_views(self.rows@),
            last_id: self.last_id as int,
            online: self.online,
        }
    }
}

impl Store {
    #[verifier::type_invariant]
    pub closed spec fn inv(self) -> bool {
        rows_in_order(post_views(self.rows@), self.last_id as int)
    }

    /// Opens the store that the connection string names. It starts empty,
    /// with the link up.
    pub fn open(url: &str) -> (store: Store)
        ensures
            store@ == StoreView::fresh(url@),
            store@.wf(),
    {
        let store = Store { url: url.to_owned(), rows: Vec::new(), last_id: 0, online: true };
        assert(store@.rows =~= Seq::empty());
        store
    }

    /// Opens the store over a table that already holds rows, with the link
    /// up. `last_id` is the last id that the table has handed out. The
    /// answer is `None` where these cannot be the rows of a posts table: an id
    /// below 1 or above `last_id`, ids that do not ascend, or an empty title.
    pub fn with_rows(url: &str, rows: Vec<Post>, last_id: i32) -> (store: Option<Store>)
        ensures
            store is Some <==> rows_in_order(post_views(rows@), last_id as int),
            store matches Some(opened) ==> opened@ == (StoreView {
                url: url@,
                rows: post_views(rows@),
                last_id: last_id as int,
                online: true,
            }) && opened@.wf(),
    {
        if last_id < 0 {
            return None;
        }
        let ghost views = post_views(rows@);
        let mut previous: i32 = 0;
        let mut i: usize = 0;
        while i < rows.len()
            invariant
                0 <= i <= rows.len(),
                views == post_views(rows@),
                0 <= previous <= last_id,
                i == 0 ==> previous == 0,
                i > 0 ==> previous == views[i - 1].id,
                forall|k: int|
                    0 <= k < i ==> 1 <= (#[trigger] views[k]).id <= last_id && views[k].title.len()
                        > 0,
                forall|j: int, k: int|
                    0 <= j < k < i ==> (#[trigger] views[j]).id < (#[trigger] views[k]).id,
            decreases rows.len() - i,
        {
            let id: i32 = rows[i].id;
            assert(views[i as int] == rows[i as int]@);
            if id <= previous || id > last_id || rows[i].title.as_str().is_empty() {
                proof {
                    if rows_in_order(views, last_id as int) {
                        assert(1 <= views[i as int].id <= last_id);
                        assert(views[i as int].title.len() > 0);
                        if i > 0 {
                            assert(views[i - 1].id < views[i as int].id);
                        }
                        assert(false);
                    }
                }
                return None;
            }
            proof {
                assert forall|j: int, k: int| 0 <= j < k < i + 1 implies (#[trigger] views[j]).id
                    < (#[trigger] views[k]).id by {
                    if k == i && j < i - 1 {
                        assert(views[j].id < views[i - 1].id);
                    }
                }
            }
            previous = id;
            i += 1;
        }
        Some(Store { url: url.to_owned(), rows, last_id, online: true })
    }

    /// The connection string that the store was opened with.
    pub fn url(&self) -> (url: &str)
        ensures
            url@ == self@.url,
    {
        self.url.as_str()
    }

    /// Whether the link to the store is up.
    pub fn is_online(&self) -> (online: bool)
        ensures
            online == self@.online,
            self@.wf(),
    {
        proof {
            use_type_invariant(self);
        }
        self.online
    }

    /// Takes the link down: every operation then fails with `Unreachable`
    /// until the link is restored. The rows stay as they are.
    pub fn disconnect(&mut self)
        ensures
            final(self)@ == old(self)@.severed(),
            final(self)@.wf(),
    {
        proof {
            use_type_invariant(&*self);
        }
        self.online = false;
    }

    /// Brings the link up again.
    pub fn reconnect(&mut self)
        ensures
            final(self)@ == old(self)@.restored(),
            final(self)@.wf(),
    {
        proof {
            use_type_invariant(&*self);
        }
        self.online = true;
    }

    /// Inserts a row and answers with the id that the store assigned to it.
    /// A failed insert leaves the store as it was.
    pub fn insert(&mut self, title: &str, body: &str) -> (reply: Result<i32, StoreFault>)
        ensures
            id_reply_view(reply) == old(self)@.insert_reply(title@, body@),
            final(self)@ == old(self)@.after_insert(title@, body@),
            old(self)@.wf(),
            final(self)@.wf(),
    {
        proof {
            use_type_invariant(&*self);
            lemma_insert_keeps_wf(self@, title@, body@);
        }
        if !self.online {
            return Err(StoreFault::Unreachable);
        }
        if title.is_empty() {
            return Err(StoreFault::Constraint("title must not be empty".to_owned()));
        }
        if self.last_id == i32::MAX {
            return Err(StoreFault::Execution("post id sequence exhausted".to_owned()));
        }
        let id: i32 = self.last_id + 1;
        let row = Post { id, title: title.to_owned(), body: body.to_owned() };
        let ghost before = self@;
        // The rows are taken out while the new one is appended, so that the
        // store is well-formed at every step.
        let mut rows: Vec<Post> = Vec::new();
        core::mem::swap(&mut self.rows, &mut rows);
        rows.push(row);
        self.last_id = id;
        assert(post_views(rows@) =~= before.rows.push(row@));
        core::mem::swap(&mut self.rows, &mut rows);
        Ok(id)
    }

    /// Answers with a copy of every row, in ascending order of id.
    pub fn select_all(&self) -> (reply: Result<Vec<Post>, StoreFault>)
        ensures
            rows_reply_view(reply) == self@.select_all_reply(),
            self@.wf(),
    {
        proof {
            use_type_invariant(self);
        }
        if !self.online {
            return Err(StoreFault::Unreachable);
        }
        let mut copies: Vec<Post> = Vec::new();
        let mut i: usize = 0;
        while i < self.rows.len()
            invariant
                0 <= i <= self.rows.len(),
                copies@ == self.rows@.take(i as int),
            decreases self.rows.len() - i,
        {
            copies.push(self.rows[i].clone());
            i += 1;
            assert(copies@ =~= self.rows@.take(i as int));
        }
        assert(copies@ =~= self.rows@);
        Ok(copies)
    }

    /// Answers with a copy of the row that has this id, or with `None` where
    /// no row has it.
    pub fn select_by_id(&self, id: i32) -> (reply: Result<Option<Post>, StoreFault>)
        ensures
            row_reply_view(reply) == self@.select_reply(id as int),
            self@.wf(),
    {
        proof {
            use_type_invariant(self);
        }
        if !self.online {
            return Err(StoreFault::Unreachable);
        }
        let mut i: usize = 0;
        while i < self.rows.len()
            invariant
                0 <= i <= self.rows.len(),
                self@.wf(),
                self@.online,
                forall|k: int| 0 <= k < i ==> (#[trigger] self@.rows[k]).id != id,
            decreases self.rows.len() - i,
        {
            if self.rows[i].id == id {
                proof {
                    assert(self@.rows[i as int] == self.rows[i as int]@);
                    lemma_row_is_unique(self@, i as int);
                }
                return Ok(Some(self.rows[i].clone()));
            }
            i += 1;
        }
        Ok(None)
    }
}

} // verus!
