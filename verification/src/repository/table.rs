//! The table of posts: rows in storage order, each under an id of its own
//! that a sequence hands out.

use vstd::prelude::*;
use crate::repository::models::post::{NewPost, NewPostView, Post, PostView};
use crate::types::db::{QueryError, StorageError, StorageErrorKind};

verus! {

/// The table as the contracts see it: its rows in storage order, and the last
/// id that its sequence has handed out.
pub struct TableView {
    pub rows: Seq<PostView>,
    pub last_id: int,
}

impl TableView {
    /// A table without rows, whose sequence has handed out nothing.
    pub open spec fn empty() -> TableView {
        TableView { rows: Seq::empty(), last_id: 0 }
    }

    /// Every row has an id that the sequence handed out, and no two rows
    /// share one.
    pub open spec fn wf(self) -> bool {
        &&& 0 <= self.last_id <= i32::MAX
        &&& forall|i: int|
            0 <= i < self.rows.len() ==> 1 <= (#[trigger] self.rows[i]).id <= self.last_id
        &&& forall|i: int, j: int|
            0 <= i < j < self.rows.len() ==> (#[trigger] self.rows[i]).id != (
            #[trigger] self.rows[j]).id
    }

    /// Row `at` is the first one, in storage order, with the id `id`.
    pub open spec fn is_first_at(self, id: int, at: int) -> bool {
        &&& 0 <= at < self.rows.len()
        &&& self.rows[at].id == id
        &&& forall|j: int| 0 <= j < at ==> (#[trigger] self.rows[j]).id != id
    }

    /// Some row has the id `id`.
    pub open spec fn holds(self, id: int) -> bool {
        exists|at: int| self.is_first_at(id, at)
    }

    /// Where the first row with the id `id` stands, if `holds(id)`.
    pub open spec fn position(self, id: int) -> int {
        choose|at: int| self.is_first_at(id, at)
    }

    /// The first row with the id `id`, or nothing.
    pub open spec fn find(self, id: int) -> Option<PostView> {
        if self.holds(id) {
            Some(self.rows[self.position(id)])
        } else {
            None
        }
    }

    /// The published rows in storage order, cut off after `limit` of them.
    pub open spec fn listing(self, limit: nat) -> Seq<PostView> {
        let published = self.rows.filter(|row: PostView| row.published);
        if published.len() <= limit {
            published
        } else {
            published.take(limit as int)
        }
    }

    /// The sequence still has an id to hand out.
    pub open spec fn can_insert(self) -> bool {
        self.last_id < i32::MAX
    }

    /// The table after an insert: the new row stands last, unpublished,
    /// under the next id of the sequence.
    pub open spec fn insert(self, new_post: NewPostView) -> TableView {
        TableView {
            rows: self.rows.push(new_post.stored_as(self.last_id + 1)),
            last_id: self.last_id + 1,
        }
    }

    /// The table after the row with the id `id` has been published; the same
    /// table where there is no such row.
    pub open spec fn publish(self, id: int) -> TableView {
        if self.holds(id) {
            let at = self.position(id);
            TableView { rows: self.rows.update(at, self.rows[at].publish()), ..self }
        } else {
            self
        }
    }

    /// The table after the row with the id `id` has been removed; the same
    /// table where there is no such row.
    pub open spec fn delete(self, id: int) -> TableView {
        if self.holds(id) {
            TableView { rows: self.rows.remove(self.position(id)), ..self }
        } else {
            self
        }
    }

    /// A row that is the first with its id is the one that `position` names.
    pub proof fn lemma_first_at(self, id: int, at: int)
        requires
            self.is_first_at(id, at),
        ensures
            self.holds(id),
            self.position(id) == at,
            self.find(id) == Some(self.rows[at]),
    {
        let chosen = self.position(id);
        assert(self.is_first_at(id, chosen));
        if chosen < at {
            assert(self.rows[chosen].id != id);
        }
        if at < chosen {
            assert(self.rows[at].id != id);
        }
    }

    /// Where no row has the id, nothing is found.
    pub proof fn lemma_absent(self, id: int)
        requires
            forall|j: int| 0 <= j < self.rows.len() ==> (#[trigger] self.rows[j]).id != id,
        ensures
            !self.holds(id),
            self.find(id) is None,
    {
    }

    /// In a well-formed table every row is the first, and so the only one,
    /// with its id.
    pub proof fn lemma_row_is_found(self, at: int)
        requires
            self.wf(),
            0 <= at < self.rows.len(),
        ensures
            self.is_first_at(self.rows[at].id, at),
            self.find(self.rows[at].id) == Some(self.rows[at]),
    {
        assert forall|j: int| 0 <= j < at implies (#[trigger] self.rows[j]).id
            != self.rows[at].id by {
            assert(self.rows[j].id != self.rows[at].id);
        }
        self.lemma_first_at(self.rows[at].id, at);
    }

    /// Where an id is not found, no row has it.
    pub proof fn lemma_not_found(self, id: int)
        requires
            self.wf(),
            self.find(id) is None,
        ensures
            forall|j: int| 0 <= j < self.rows.len() ==> (#[trigger] self.rows[j]).id != id,
    {
        assert forall|j: int| 0 <= j < self.rows.len() implies (#[trigger] self.rows[j]).id
            != id by {
            if self.rows[j].id == id {
                self.lemma_row_is_found(j);
            }
        }
    }

    /// A post that has been created is found under the id that it was given,
    /// with the title and the body that were handed in, and unpublished.
    /// Every other id leads where it led before.
    pub proof fn lemma_insert_then_find(self, new_post: NewPostView)
        requires
            self.wf(),
            self.can_insert(),
        ensures
            self.insert(new_post).wf(),
            self.insert(new_post).find(self.last_id + 1) == Some(
                new_post.stored_as(self.last_id + 1),
            ),
            forall|other: int|
                other != self.last_id + 1 ==> #[trigger] self.insert(new_post).find(other)
                    == self.find(other),
    {
        let after = self.insert(new_post);
        let id = self.last_id + 1;
        let at = self.rows.len() as int;
        assert forall|j: int| 0 <= j < at implies (#[trigger] after.rows[j]).id != id by {
            assert(after.rows[j] == self.rows[j]);
        }
        after.lemma_first_at(id, at);
        assert(after.wf()) by {
            assert forall|i: int| 0 <= i < after.rows.len() implies 1 <= (
            #[trigger] after.rows[i]).id <= after.last_id by {
                if i < at {
                    assert(after.rows[i] == self.rows[i]);
                }
            }
            assert forall|i: int, j: int| 0 <= i < j < after.rows.len() implies (
            #[trigger] after.rows[i]).id != (#[trigger] after.rows[j]).id by {
                assert(after.rows[i] == self.rows[i]);
                if j < at {
                    assert(after.rows[j] == self.rows[j]);
                }
            }
        }
        assert forall|other: int| other != id implies #[trigger] after.find(other) == self.find(
            other,
        ) by {
            if self.holds(other) {
                let p = self.position(other);
                assert(self.is_first_at(other, p));
                assert(after.rows[p] == self.rows[p]);
                assert forall|j: int| 0 <= j < p implies (#[trigger] after.rows[j]).id
                    != other by {
                    assert(after.rows[j] == self.rows[j]);
                }
                after.lemma_first_at(other, p);
            } else {
                self.lemma_not_found(other);
                assert forall|j: int| 0 <= j < after.rows.len() implies (
                #[trigger] after.rows[j]).id != other by {
                    if j < at {
                        assert(after.rows[j] == self.rows[j]);
                    }
                }
                after.lemma_absent(other);
            }
        }
    }

    /// A post that has been published is found published, and otherwise as
    /// it was. Publishing under an id that no row has changes nothing. Every
    /// other id leads where it led before.
    pub proof fn lemma_publish_then_find(self, id: int)
        requires
            self.wf(),
        ensures
            self.publish(id).wf(),
            self.find(id) matches Some(row) ==> self.publish(id).find(id) == Some(row.publish()),
            self.find(id) is None ==> self.publish(id) == self,
            forall|other: int|
                other != id ==> #[trigger] self.publish(id).find(other) == self.find(other),
    {
        let after = self.publish(id);
        if self.holds(id) {
            let at = self.position(id);
            assert(self.is_first_at(id, at));
            assert forall|j: int| 0 <= j < self.rows.len() implies (#[trigger] after.rows[j]).id
                == self.rows[j].id by {}
            assert(after.wf()) by {
                assert forall|i: int| 0 <= i < after.rows.len() implies 1 <= (
                #[trigger] after.rows[i]).id <= after.last_id by {
                    assert(after.rows[i].id == self.rows[i].id);
                }
                assert forall|i: int, j: int| 0 <= i < j < after.rows.len() implies (
                #[trigger] after.rows[i]).id != (#[trigger] after.rows[j]).id by {
                    assert(after.rows[i].id == self.rows[i].id);
                    assert(after.rows[j].id == self.rows[j].id);
                }
            }
            after.lemma_row_is_found(at);
            assert forall|other: int| other != id implies #[trigger] after.find(other)
                == self.find(other) by {
                if self.holds(other) {
                    let p = self.position(other);
                    assert(self.is_first_at(other, p));
                    assert(after.rows[p] == self.rows[p]);
                    after.lemma_row_is_found(p);
                } else {
                    self.lemma_not_found(other);
                    assert forall|j: int| 0 <= j < after.rows.len() implies (
                    #[trigger] after.rows[j]).id != other by {
                        assert(after.rows[j].id == self.rows[j].id);
                    }
                    after.lemma_absent(other);
                }
            }
        }
    }

    /// A post that has been deleted is no longer found. Deleting under an id
    /// that no row has changes nothing. Every other id leads where it led
    /// before.
    pub proof fn lemma_delete_then_find(self, id: int)
        requires
            self.wf(),
        ensures
            self.delete(id).wf(),
            self.delete(id).find(id) is None,
            self.find(id) is None ==> self.delete(id) == self,
            forall|other: int|
                other != id ==> #[trigger] self.delete(id).find(other) == self.find(other),
    {
        let after = self.delete(id);
        if self.holds(id) {
            let at = self.position(id);
            assert(self.is_first_at(id, at));
            assert forall|j: int| 0 <= j < after.rows.len() implies #[trigger] after.rows[j] == (
            if j < at {
                self.rows[j]
            } else {
                self.rows[j + 1]
            }) by {}
            assert(after.wf()) by {
                assert forall|i: int| 0 <= i < after.rows.len() implies 1 <= (
                #[trigger] after.rows[i]).id <= after.last_id by {
                    if i < at {
                        assert(after.rows[i] == self.rows[i]);
                    } else {
                        assert(after.rows[i] == self.rows[i + 1]);
                    }
                }
                assert forall|i: int, j: int| 0 <= i < j < after.rows.len() implies (
                #[trigger] after.rows[i]).id != (#[trigger] after.rows[j]).id by {
                    let si = if i < at { i } else { i + 1 };
                    let sj = if j < at { j } else { j + 1 };
                    assert(after.rows[i] == self.rows[si]);
                    assert(after.rows[j] == self.rows[sj]);
                }
            }
            assert forall|j: int| 0 <= j < after.rows.len() implies (#[trigger] after.rows[j]).id
                != id by {
                let sj = if j < at { j } else { j + 1 };
                assert(after.rows[j] == self.rows[sj]);
                if sj < at {
                    assert(self.rows[sj].id != self.rows[at].id);
                } else {
                    assert(self.rows[at].id != self.rows[sj].id);
                }
            }
            after.lemma_absent(id);
            assert forall|other: int| other != id implies #[trigger] after.find(other)
                == self.find(other) by {
                if self.holds(other) {
                    let p = self.position(other);
                    assert(self.is_first_at(other, p));
                    let q = if p < at { p } else { p - 1 };
                    assert(after.rows[q] == self.rows[p]);
                    after.lemma_row_is_found(q);
                } else {
                    self.lemma_not_found(other);
                    assert forall|j: int| 0 <= j < after.rows.len() implies (
                    #[trigger] after.rows[j]).id != other by {
                        let sj = if j < at { j } else { j + 1 };
                        assert(after.rows[j] == self.rows[sj]);
                    }
                    after.lemma_absent(other);
                }
            }
        } else {
            assert(self.find(id) is None);
        }
    }

    /// A listing holds `limit` rows at most, each of them a published row of
    /// the table.
    pub proof fn lemma_listing(self, limit: nat)
        ensures
            self.listing(limit).len() <= limit,
            self.listing(limit).len() <= self.rows.len(),
            forall|i: int|
                0 <= i < self.listing(limit).len() ==> (#[trigger] self.listing(
                    limit,
                )[i]).published && self.rows.contains(self.listing(limit)[i]),
    {
        let keep = |row: PostView| row.published;
        let published = self.rows.filter(keep);
        self.rows.lemma_filter_len(keep);
        assert forall|i: int| 0 <= i < self.listing(limit).len() implies (
        #[trigger] self.listing(limit)[i]).published && self.rows.contains(
            self.listing(limit)[i],
        ) by {
            assert(self.listing(limit)[i] == published[i]);
            self.rows.lemma_filter_pred(keep, i);
            assert(published.contains(published[i]));
            self.rows.lemma_filter_contains_rev(keep, published[i]);
        }
    }
}

/// The table of posts, held in memory. Rows stay in the order in which they
/// were inserted; ids come from a sequence that starts at 1 and never hands
/// out an id twice, also not after a delete.
pub struct PostTable {
    rows: Vec<Post>,
    last_id: i32,
}

impl View for PostTable {
    type V = TableView;

    closed spec fn view(&self) -> TableView {
        TableView { rows: self.rows@.map_values(|row: Post| row@), last_id: self.last_id as int }
    }
}

/// The message of the failure that an insert reports once the sequence has
/// handed out its last id.
pub open spec fn sequence_exhausted_message() -> Seq<char> {
    "nextval: reached maximum value of sequence"@
}

impl PostTable {
    #[verifier::type_invariant]
    closed spec fn inv(self) -> bool {
        self@.wf()
    }

    /// A table without rows.
    pub fn new() -> (table: PostTable)
        ensures
            table@ == TableView::empty(),
            table@.wf(),
    {
        let table = PostTable { rows: Vec::new(), last_id: 0 };
        assert(table@.rows =~= Seq::empty());
        table
    }

    /// A table without rows whose sequence has already handed out the ids
    /// up to `last_id`; a negative `last_id` counts as 0.
    pub fn with_last_id(last_id: i32) -> (table: PostTable)
        ensures
            table@ == (TableView {
                rows: Seq::empty(),
                last_id: if last_id < 0 {
                    0
                } else {
                    last_id as int
                },
            }),
            table@.wf(),
    {
        let table = PostTable { rows: Vec::new(), last_id: if last_id < 0 { 0 } else { last_id } };
        assert(table@.rows =~= Seq::empty());
        table
    }

    /// The number of rows.
    pub fn len(&self) -> (n: usize)
        ensures
            n == self@.rows.len(),
            self@.wf(),
    {
        proof {
            use_type_invariant(self);
        }
        self.rows.len()
    }

    /// The last id that the sequence has handed out; 0 before the first
    /// insert.
    pub fn last_id(&self) -> (id: i32)
        ensures
            id == self@.last_id,
    {
        self.last_id
    }

    /// Moves the rows out, and leaves the table without rows.
    fn take_rows(&mut self) -> (rows: Vec<Post>)
        ensures
            rows@.map_values(|row: Post| row@) == old(self)@.rows,
            final(self)@ == (TableView { rows: Seq::empty(), last_id: old(self)@.last_id }),
    {
        proof {
            use_type_invariant(&*self);
        }
        let mut rows: Vec<Post> = Vec::new();
        core::mem::swap(&mut self.rows, &mut rows);
        assert(self@.rows =~= Seq::empty());
        rows
    }

    /// Moves `rows` into a table that has none.
    fn put_rows(&mut self, rows: Vec<Post>)
        requires
            old(self)@.rows.len() == 0,
            (TableView {
                rows: rows@.map_values(|row: Post| row@),
                last_id: old(self)@.last_id,
            }).wf(),
        ensures
            final(self)@ == (TableView {
                rows: rows@.map_values(|row: Post| row@),
                last_id: old(self)@.last_id,
            }),
    {
        let mut rows = rows;
        core::mem::swap(&mut self.rows, &mut rows);
    }

    fn locate(&self, id: i32) -> (at: Option<usize>)
        ensures
            match at {
                Some(i) => self@.is_first_at(id as int, i as int),
                None => forall|j: int|
                    0 <= j < self@.rows.len() ==> (#[trigger] self@.rows[j]).id != id,
            },
    {
        let mut i: usize = 0;
        while i < self.rows.len()
            invariant
                i <= self.rows.len(),
                forall|j: int| 0 <= j < i ==> (#[trigger] self@.rows[j]).id != id,
            decreases self.rows.len() - i,
        {
            if self.rows[i].id == id {
                return Some(i);
            }
            i += 1;
        }
        None
    }

    /// Loads the published rows in storage order, `limit` of them at most.
    pub fn load_published(&self, limit: usize) -> (out: Vec<Post>)
        ensures
            out.deep_view() == self@.listing(limit as nat),
            self@.wf(),
    {
        proof {
            use_type_invariant(self);
        }
        let ghost published = |row: PostView| row.published;
        let ghost rows = self@.rows;
        let mut out: Vec<Post> = Vec::new();
        let mut i: usize = 0;
        proof {
            assert(rows.take(0) =~= Seq::empty());
            assert(out.deep_view() =~= Seq::empty());
        }
        while i < self.rows.len() && out.len() < limit
            invariant
                i <= self.rows.len(),
                rows == self@.rows,
                published == |row: PostView| row.published,
                out.len() <= limit,
                out.deep_view() == rows.take(i as int).filter(published),
            decreases self.rows.len() - i,
        {
            proof {
                assert(rows.take(i + 1).drop_last() =~= rows.take(i as int));
                assert(rows.take(i + 1).last() == rows[i as int]);
                reveal(Seq::filter);
            }
            if self.rows[i].published {
                let ghost before = out.deep_view();
                out.push(self.rows[i].clone());
                assert(out.deep_view() =~= before.push(rows[i as int]));
            }
            i += 1;
        }
        proof {
            let all = rows.filter(published);
            let head = rows.take(i as int);
            let tail = rows.skip(i as int);
            assert(rows =~= head + tail);
            Seq::filter_distributes_over_add(head, tail, published);
            assert(all == head.filter(published) + tail.filter(published));
            if i == self.rows.len() {
                assert(tail =~= Seq::empty());
                assert(tail.filter(published) =~= Seq::empty()) by {
                    reveal(Seq::filter);
                }
                assert(all =~= head.filter(published));
            } else {
                assert(out.len() == limit);
                assert(all.take(limit as int) =~= head.filter(published));
            }
        }
        out
    }

    /// Yields the first row with the id `id`, or `NotFound`.
    pub fn first(&self, id: i32) -> (out: Result<Post, QueryError>)
        ensures
            match self@.find(id as int) {
                Some(row) => out matches Ok(post) && post@ == row,
                None => out == Err::<Post, QueryError>(QueryError::NotFound),
            },
            self@.wf(),
    {
        proof {
            use_type_invariant(self);
        }
        match self.locate(id) {
            Some(at) => {
                proof {
                    self@.lemma_first_at(id as int, at as int);
                }
                Ok(self.rows[at].clone())
            },
            None => {
                proof {
                    self@.lemma_absent(id as int);
                }
                Err(QueryError::NotFound)
            },
        }
    }

    /// Stores a new row for `new_post` and yields its id. Fails, and leaves
    /// the table as it was, once the sequence has no id left.
    pub fn insert(&mut self, new_post: &NewPost) -> (out: Result<i32, QueryError>)
        ensures
            old(self)@.can_insert() ==> final(self)@ == old(self)@.insert(new_post@) && out
                == Ok::<i32, QueryError>((old(self)@.last_id + 1) as i32),
            !old(self)@.can_insert() ==> final(self)@ == old(self)@ && (out matches Err(
                QueryError::Failed(error),
            ) && error.kind == StorageErrorKind::Query && error.message@
                == sequence_exhausted_message()),
            final(self)@.wf(),
    {
        proof {
            use_type_invariant(&*self);
        }
        if self.last_id == i32::MAX {
            return Err(
                QueryError::Failed(
                    StorageError {
                        kind: StorageErrorKind::Query,
                        message: "nextval: reached maximum value of sequence".to_string(),
                    },
                ),
            );
        }
        let ghost before = self@;
        let id: i32 = self.last_id + 1;
        let row = Post {
            id,
            title: new_post.title.clone(),
            body: new_post.body.clone(),
            published: false,
        };
        let mut rows = self.take_rows();
        rows.push(row);
        assert(rows@.map_values(|row: Post| row@) =~= before.rows.push(
            new_post@.stored_as(id as int),
        ));
        self.last_id = id;
        self.put_rows(rows);
        Ok(id)
    }

    /// Publishes the row with the id `id` and yields it as it then stands,
    /// or `NotFound`.
    pub fn set_published(&mut self, id: i32) -> (out: Result<Post, QueryError>)
        ensures
            final(self)@ == old(self)@.publish(id as int),
            match old(self)@.find(id as int) {
                Some(row) => out matches Ok(post) && post@ == row.publish(),
                None => out == Err::<Post, QueryError>(QueryError::NotFound),
            },
            final(self)@.wf(),
    {
        proof {
            use_type_invariant(&*self);
        }
        let ghost before = self@;
        match self.locate(id) {
            Some(at) => {
                proof {
                    before.lemma_first_at(id as int, at as int);
                }
                let mut row = self.rows[at].clone();
                row.published = true;
                let updated = row.clone();
                let mut rows = self.take_rows();
                rows.set(at, row);
                assert(rows@.map_values(|row: Post| row@) =~= before.rows.update(
                    at as int,
                    before.rows[at as int].publish(),
                ));
                self.put_rows(rows);
                Ok(updated)
            },
            None => {
                proof {
                    before.lemma_absent(id as int);
                }
                Err(QueryError::NotFound)
            },
        }
    }

    /// Removes the row with the id `id` and yields it as it last stood, or
    /// `NotFound`. The rows that stay keep their order.
    pub fn remove(&mut self, id: i32) -> (out: Result<Post, QueryError>)
        ensures
            final(self)@ == old(self)@.delete(id as int),
            match old(self)@.find(id as int) {
                Some(row) => out matches Ok(post) && post@ == row,
                None => out == Err::<Post, QueryError>(QueryError::NotFound),
            },
            final(self)@.wf(),
    {
        proof {
            use_type_invariant(&*self);
        }
        let ghost before = self@;
        match self.locate(id) {
            Some(at) => {
                proof {
                    before.lemma_first_at(id as int, at as int);
                }
                let mut rows = self.take_rows();
                let row = rows.remove(at);
                assert(rows@.map_values(|row: Post| row@) =~= before.rows.remove(at as int));
                self.put_rows(rows);
                Ok(row)
            },
            None => {
                proof {
                    before.lemma_absent(id as int);
                }
                Err(QueryError::NotFound)
            },
        }
    }
}

} // verus!
