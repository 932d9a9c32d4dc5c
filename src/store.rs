//! An owned task table: ids are assigned from a counter and never reused.
use vstd::prelude::*;
use crate::models::{merged, NewTask, Task, Timestamp, UpdateTaskDto};
use crate::schema::TITLE_MAX_CHARS;

verus! {

/// Why a table operation failed.
#[derive(Debug)]
pub enum StoreError {
    /// No row has the requested id.
    NotFound,
    /// The operation failed for another reason, described by the text.
    Failed(String),
}

/// Whether some row has id `id`.
pub open spec fn has_id(rows: Seq<Task>, id: i32) -> bool {
    exists|i: int| 0 <= i < rows.len() && #[trigger] rows[i].id == id
}

/// No two rows share an id.
pub open spec fn unique_ids(rows: Seq<Task>) -> bool {
    forall|i: int, j: int|
        0 <= i < rows.len() && 0 <= j < rows.len() && i != j ==> #[trigger] rows[i].id
            != #[trigger] rows[j].id
}

/// Ids strictly increase along the rows.
pub open spec fn ascending_ids(rows: Seq<Task>) -> bool {
    forall|i: int, j: int| 0 <= i < j < rows.len() ==> #[trigger] rows[i].id < #[trigger] rows[j].id
}

/// When a row was stored, in microseconds; a row without a stamp counts as
/// earliest.
pub open spec fn stamp(t: Task) -> int {
    match t.created_at {
        Some(c) => c.micros as int,
        None => i64::MIN as int,
    }
}

/// Creation stamps never decrease along the rows.
pub open spec fn stamps_in_order(rows: Seq<Task>) -> bool {
    forall|i: int, j: int| 0 <= i < j < rows.len() ==> stamp(#[trigger] rows[i]) <= stamp(
        #[trigger] rows[j],
    )
}

/// `at` is no earlier than any stored row's creation stamp.
pub open spec fn not_before_rows(rows: Seq<Task>, at: Timestamp) -> bool {
    forall|i: int| 0 <= i < rows.len() ==> stamp(#[trigger] rows[i]) <= at.micros
}

/// The ids of the rows.
pub open spec fn ids(rows: Seq<Task>) -> Set<i32> {
    Set::new(|id: i32| has_id(rows, id))
}

/// The row that an insert at counter value `id` produces.
pub open spec fn inserted(t: NewTask, id: i32, at: Timestamp) -> Task {
    Task {
        id,
        title: t.title,
        description: t.description,
        status: t.status,
        created_at: Some(at),
    }
}

/// A title the title column can hold: 1 to 255 characters.
pub open spec fn fits_title(t: Seq<char>) -> bool {
    0 < t.len() <= TITLE_MAX_CHARS
}

fn title_too_long(t: &String) -> (r: bool)
    ensures
        r == (t@.len() > TITLE_MAX_CHARS),
{
    t.as_str().unicode_len() > TITLE_MAX_CHARS
}

fn too_long() -> (r: StoreError)
    ensures
        r is Failed,
{
    StoreError::Failed(String::from_str("title is longer than 255 characters"))
}

pub struct TaskTable {
    pub rows: Vec<Task>,
    pub next_id: i32,
}

impl TaskTable {
    /// Ids are unique, ascending, positive and below the counter; creation
    /// stamps follow insertion order; titles fit the column and are non-empty.
    pub open spec fn wf(&self) -> bool {
        &&& unique_ids(self.rows@)
        &&& ascending_ids(self.rows@)
        &&& stamps_in_order(self.rows@)
        &&& 1 <= self.next_id
        &&& forall|i: int|
            0 <= i < self.rows@.len() ==> 1 <= #[trigger] self.rows@[i].id < self.next_id
        &&& forall|i: int| 0 <= i < self.rows@.len() ==> fits_title(
            (#[trigger] self.rows@[i]).title@,
        )
    }

    /// An empty table whose first id is 1.
    pub fn new() -> (r: TaskTable)
        ensures
            r.wf(),
            r.rows@.len() == 0,
            r.next_id == 1,
    {
        TaskTable { rows: Vec::new(), next_id: 1 }
    }

    /// Stores `t` under the next id; fails when the title is too long or the
    /// ids are used up.
    pub fn insert(&mut self, t: NewTask, at: Timestamp) -> (r: Result<Task, StoreError>)
        requires
            old(self).wf(),
            t.title@.len() > 0,
            not_before_rows(old(self).rows@, at),
        ensures
            final(self).wf(),
            r is Ok <==> (old(self).next_id < i32::MAX && t.title@.len() <= TITLE_MAX_CHARS),
            r matches Ok(row) ==> {
                &&& row == inserted(t, old(self).next_id, at)
                &&& final(self).rows@ == old(self).rows@.push(row)
                &&& final(self).next_id == old(self).next_id + 1
            },
            r matches Err(e) ==> e is Failed && *final(self) == *old(self),
    {
        if title_too_long(&t.title) {
            return Err(too_long());
        }
        if self.next_id == i32::MAX {
            return Err(StoreError::Failed(String::from_str("task ids are exhausted")));
        }
        let row = Task {
            id: self.next_id,
            title: t.title,
            description: t.description,
            status: t.status,
            created_at: Some(at),
        };
        let copy = row.copied();
        self.rows.push(row);
        self.next_id = self.next_id + 1;
        Ok(copy)
    }

    /// Whether a row stamped `at` may be inserted next: no stored row is later.
    pub fn accepts_stamp(&self, at: Timestamp) -> (r: bool)
        ensures
            r == not_before_rows(self.rows@, at),
    {
        let mut i: usize = 0;
        while i < self.rows.len()
            invariant
                0 <= i <= self.rows@.len(),
                forall|j: int| 0 <= j < i ==> stamp(#[trigger] self.rows@[j]) <= at.micros,
            decreases self.rows@.len() - i,
        {
            match self.rows[i].created_at {
                Some(c) => {
                    if c.micros > at.micros {
                        return false;
                    }
                },
                None => {},
            }
            i = i + 1;
        }
        true
    }

    /// Every row, in insertion order, which is ascending id order.
    pub fn list(&self) -> (r: Vec<Task>)
        requires
            self.wf(),
        ensures
            r@ == self.rows@,
            ascending_ids(r@),
    {
        let mut out: Vec<Task> = Vec::new();
        let mut i: usize = 0;
        while i < self.rows.len()
            invariant
                0 <= i <= self.rows@.len(),
                out@ == self.rows@.subrange(0, i as int),
            decreases self.rows@.len() - i,
        {
            out.push(self.rows[i].copied());
            i = i + 1;
            assert(out@ =~= self.rows@.subrange(0, i as int));
        }
        assert(out@ =~= self.rows@);
        out
    }

    fn position(&self, id: i32) -> (r: Option<usize>)
        ensures
            r matches Some(i) ==> i < self.rows@.len() && self.rows@[i as int].id == id,
            r is None <==> !has_id(self.rows@, id),
    {
        let mut i: usize = 0;
        while i < self.rows.len()
            invariant
                0 <= i <= self.rows@.len(),
                forall|j: int| 0 <= j < i ==> self.rows@[j].id != id,
            decreases self.rows@.len() - i,
        {
            if self.rows[i].id == id {
                return Some(i);
            }
            i = i + 1;
        }
        None
    }

    /// The row with id `id`.
    pub fn find(&self, id: i32) -> (r: Result<Task, StoreError>)
        ensures
            r is Ok <==> has_id(self.rows@, id),
            r matches Ok(row) ==> row.id == id && self.rows@.contains(row),
            r matches Err(e) ==> e is NotFound,
    {
        match self.position(id) {
            Some(i) => {
                let row = self.rows[i].copied();
                assert(self.rows@[i as int] == row);
                Ok(row)
            },
            None => Err(StoreError::NotFound),
        }
    }

    /// Applies the present fields of `changes` to the row with id `id`; fails
    /// when the new title is too long.
    pub fn update(&mut self, id: i32, changes: &UpdateTaskDto) -> (r: Result<Task, StoreError>)
        requires
            old(self).wf(),
            !(changes.title matches Some(s) && s@.len() == 0),
        ensures
            final(self).wf(),
            r is Ok <==> (has_id(old(self).rows@, id) && !(changes.title matches Some(s)
                && s@.len() > TITLE_MAX_CHARS)),
            (r matches Err(e) && e is NotFound) <==> !has_id(old(self).rows@, id),
            r matches Ok(row) ==> exists|i: int|
                0 <= i < old(self).rows@.len() && old(self).rows@[i].id == id && row == merged(
                    *changes,
                    old(self).rows@[i],
                ) && final(self).rows@ == old(self).rows@.update(i, row),
            r matches Ok(_) ==> final(self).next_id == old(self).next_id,
            r is Err ==> *final(self) == *old(self),
    {
        match self.position(id) {
            Some(i) => {
                match &changes.title {
                    Some(s) => {
                        if title_too_long(s) {
                            return Err(too_long());
                        }
                    },
                    None => {},
                }
                let current = self.rows[i].copied();
                let row = changes.apply_to(current);
                let copy = row.copied();
                self.rows.set(i, row);
                assert(forall|j: int|
                    0 <= j < self.rows@.len() && j != i ==> self.rows@[j] == old(self).rows@[j]);
                Ok(copy)
            },
            None => Err(StoreError::NotFound),
        }
    }

    /// Removes the row with id `id`, reporting how many rows went.
    pub fn delete(&mut self, id: i32) -> (r: Result<usize, StoreError>)
        requires
            old(self).wf(),
        ensures
            final(self).wf(),
            r is Ok <==> has_id(old(self).rows@, id),
            r matches Ok(n) ==> n == 1 && exists|i: int|
                0 <= i < old(self).rows@.len() && old(self).rows@[i].id == id
                    && final(self).rows@ == old(self).rows@.remove(i),
            r matches Ok(_) ==> final(self).next_id == old(self).next_id,
            r matches Err(e) ==> e is NotFound && *final(self) == *old(self),
    {
        match self.position(id) {
            Some(i) => {
                let ghost before = self.rows@;
                let _gone = self.rows.remove(i);
                assert(forall|j: int|
                    0 <= j < self.rows@.len() ==> #[trigger] self.rows@[j] == before.remove(
                        i as int,
                    )[j]);
                Ok(1)
            },
            None => Err(StoreError::NotFound),
        }
    }
}

} // verus!
