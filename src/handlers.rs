//! One handler per operation: validate, run it on the table, map the outcome.
use vstd::prelude::*;
use crate::errors::{lookup_error, not_found_text, TaskError};
use crate::models::{
    empty_if_present, merged, violations, CreateTaskDto, NewTask, Status, Task, Timestamp,
    UpdateTaskDto,
};
use crate::schema::TITLE_MAX_CHARS;
use crate::store::{ascending_ids, has_id, not_before_rows, ids, inserted, unique_ids, StoreError, TaskTable};

verus! {

/// What a successful request sends back.
#[derive(Debug)]
pub enum ReplyBody {
    Task(Task),
    Tasks(Vec<Task>),
    Empty,
}

/// An HTTP status with its body.
#[derive(Debug)]
pub struct HttpReply {
    pub status: u16,
    pub body: ReplyBody,
}

/// Whether `r` carries status `status` and exactly the row `t`.
pub open spec fn replies_task(r: HttpReply, status: u16, t: Task) -> bool {
    &&& r.status == status
    &&& (r.body matches ReplyBody::Task(x) && x == t)
}

/// The reply to a create that stored `t`.
pub fn reply_created(t: Task) -> (r: HttpReply)
    ensures
        replies_task(r, 201, t),
{
    HttpReply { status: 201, body: ReplyBody::Task(t) }
}

/// The reply to a get or an update that found `t`.
pub fn reply_found(t: Task) -> (r: HttpReply)
    ensures
        replies_task(r, 200, t),
{
    HttpReply { status: 200, body: ReplyBody::Task(t) }
}

/// The reply to a listing of `rows`.
pub fn reply_listed(rows: Vec<Task>) -> (r: HttpReply)
    ensures
        r.status == 200,
        (r.body matches ReplyBody::Tasks(v) && v@ == rows@),
{
    HttpReply { status: 200, body: ReplyBody::Tasks(rows) }
}

/// The reply to a delete that removed a row: no content.
pub fn reply_deleted() -> (r: HttpReply)
    ensures
        r.status == 204,
        r.body is Empty,
{
    HttpReply { status: 204, body: ReplyBody::Empty }
}

/// The row that a create request with `dto` stores at counter `id`.
pub open spec fn created(dto: CreateTaskDto, id: i32, at: Timestamp) -> Task {
    inserted(NewTask { title: dto.title, description: dto.description, status: Status::Pending }, id, at)
}

/// Whether `r` is the not-found failure for `id`.
pub open spec fn is_not_found(r: TaskError, id: i32) -> bool {
    r matches TaskError::NotFound(m) && m@ == not_found_text(id)
}

/// POST: validates `task_data`, then stores it as a pending task stamped `now`.
pub fn create_task(pool: &mut TaskTable, task_data: CreateTaskDto, now: Timestamp) -> (r: Result<
    HttpReply,
    TaskError,
>)
    requires
        old(pool).wf(),
        not_before_rows(old(pool).rows@, now),
    ensures
        final(pool).wf(),
        (r matches Err(TaskError::ValidationError(e))) <==> (task_data.title@.len() == 0
            || empty_if_present(task_data.description)),
        r matches Err(TaskError::ValidationError(e)) ==> e@ == violations(
            task_data.title@.len() == 0,
            empty_if_present(task_data.description),
        ),
        r is Ok <==> (task_data.title@.len() > 0 && !empty_if_present(task_data.description)
            && task_data.title@.len() <= TITLE_MAX_CHARS && old(pool).next_id < i32::MAX),
        r matches Ok(reply) ==> {
            &&& replies_task(reply, 201, created(task_data, old(pool).next_id, now))
            &&& final(pool).rows@ == old(pool).rows@.push(
                created(task_data, old(pool).next_id, now),
            )
            &&& final(pool).next_id == old(pool).next_id + 1
            &&& !has_id(old(pool).rows@, old(pool).next_id)
        },
        r is Err ==> *final(pool) == *old(pool),
        r matches Err(e) ==> (e is ValidationError || e is DatabaseError),
{
    match task_data.validate() {
        Ok(()) => {},
        Err(e) => {
            return Err(TaskError::ValidationError(e));
        },
    }
    let ghost dto = task_data;
    let new_task = NewTask::pending(task_data);
    assert(new_task == (NewTask { title: dto.title, description: dto.description, status: Status::Pending }));
    match pool.insert(new_task, now) {
        Ok(t) => {
            assert(!has_id(old(pool).rows@, old(pool).next_id));
            Ok(reply_created(t))
        },
        Err(StoreError::Failed(m)) => Err(TaskError::DatabaseError(m)),
        Err(StoreError::NotFound) => Err(TaskError::DatabaseError(String::from_str("no row was inserted"))),
    }
}

/// GET on the collection: every stored task, by ascending id.
pub fn get_all_tasks(pool: &TaskTable) -> (r: HttpReply)
    requires
        pool.wf(),
    ensures
        r.status == 200,
        (r.body matches ReplyBody::Tasks(v) && v@ == pool.rows@ && ascending_ids(v@)),
{
    reply_listed(pool.list())
}

/// GET on one task: the row with id `task_id`.
pub fn get_task(pool: &TaskTable, task_id: i32) -> (r: Result<HttpReply, TaskError>)
    requires
        pool.wf(),
    ensures
        r is Ok <==> has_id(pool.rows@, task_id),
        r matches Ok(reply) ==> exists|i: int|
            0 <= i < pool.rows@.len() && pool.rows@[i].id == task_id && replies_task(
                reply,
                200,
                pool.rows@[i],
            ),
        r matches Err(e) ==> is_not_found(e, task_id),
{
    match pool.find(task_id) {
        Ok(t) => Ok(reply_found(t)),
        Err(e) => Err(lookup_error(task_id, e)),
    }
}

/// PUT: validates `task_data`, then applies its present fields to the row
/// with id `task_id`.
pub fn update_task(pool: &mut TaskTable, task_id: i32, task_data: UpdateTaskDto) -> (r: Result<
    HttpReply,
    TaskError,
>)
    requires
        old(pool).wf(),
    ensures
        final(pool).wf(),
        (r matches Err(TaskError::ValidationError(e))) <==> (empty_if_present(task_data.title)
            || empty_if_present(task_data.description)),
        r matches Err(TaskError::ValidationError(e)) ==> e@ == violations(
            empty_if_present(task_data.title),
            empty_if_present(task_data.description),
        ),
        (r matches Err(e) && is_not_found(e, task_id)) <==> (!empty_if_present(task_data.title)
            && !empty_if_present(task_data.description) && !has_id(old(pool).rows@, task_id)),
        r is Ok <==> (!empty_if_present(task_data.title) && !empty_if_present(task_data.description)
            && has_id(old(pool).rows@, task_id) && !(task_data.title matches Some(s) && s@.len()
            > TITLE_MAX_CHARS)),
        r matches Err(e) ==> (e is ValidationError || is_not_found(e, task_id) || e is DatabaseError),
        r matches Err(TaskError::DatabaseError(_)) ==> (task_data.title matches Some(s) && s@.len()
            > TITLE_MAX_CHARS),
        r matches Ok(reply) ==> exists|i: int|
            0 <= i < old(pool).rows@.len() && old(pool).rows@[i].id == task_id && replies_task(
                reply,
                200,
                merged(task_data, old(pool).rows@[i]),
            ) && final(pool).rows@ == old(pool).rows@.update(i, merged(task_data, old(pool).rows@[i])),
        r matches Ok(_) ==> final(pool).next_id == old(pool).next_id,
        r is Err ==> *final(pool) == *old(pool),
{
    match task_data.validate() {
        Ok(()) => {},
        Err(e) => {
            return Err(TaskError::ValidationError(e));
        },
    }
    match pool.update(task_id, &task_data) {
        Ok(t) => Ok(reply_found(t)),
        Err(e) => Err(lookup_error(task_id, e)),
    }
}

/// DELETE: removes the row with id `task_id`.
pub fn delete_task(pool: &mut TaskTable, task_id: i32) -> (r: Result<HttpReply, TaskError>)
    requires
        old(pool).wf(),
    ensures
        final(pool).wf(),
        r is Ok <==> has_id(old(pool).rows@, task_id),
        r matches Ok(reply) ==> reply.status == 204 && reply.body is Empty,
        r is Ok ==> exists|i: int|
            0 <= i < old(pool).rows@.len() && old(pool).rows@[i].id == task_id
                && final(pool).rows@ == old(pool).rows@.remove(i),
        r matches Ok(_) ==> final(pool).next_id == old(pool).next_id,
        r matches Err(e) ==> is_not_found(e, task_id),
        r is Err ==> *final(pool) == *old(pool),
{
    match pool.find(task_id) {
        Ok(_) => match pool.delete(task_id) {
            Ok(_) => Ok(reply_deleted()),
            Err(e) => Err(lookup_error(task_id, e)),
        },
        Err(e) => Err(lookup_error(task_id, e)),
    }
}

/// Once a delete of `id` has succeeded, no row has `id` any more, so a second
/// delete (or get) of the same id is a not-found failure.
pub proof fn lemma_delete_twice(before: TaskTable, after: TaskTable, id: i32)
    requires
        before.wf(),
        exists|i: int|
            0 <= i < before.rows@.len() && before.rows@[i].id == id && after.rows@
                == before.rows@.remove(i),
    ensures
        !has_id(after.rows@, id),
{
    let i = choose|i: int|
        0 <= i < before.rows@.len() && before.rows@[i].id == id && after.rows@
            == before.rows@.remove(i);
    assert forall|j: int| 0 <= j < after.rows@.len() implies after.rows@[j].id != id by {
        if j < i {
            assert(after.rows@[j] == before.rows@[j]);
        } else {
            assert(after.rows@[j] == before.rows@[j + 1]);
        }
    }
}

/// A task that a create stored is what a get of its id returns: the only row
/// with that id is the created one, with the title and description given and
/// a pending status.
pub proof fn lemma_create_then_get(pool: TaskTable, dto: CreateTaskDto, now: Timestamp)
    requires
        pool.wf(),
    ensures
        ({
            let t = created(dto, pool.next_id, now);
            let rows = pool.rows@.push(t);
            &&& has_id(rows, pool.next_id)
            &&& forall|i: int| 0 <= i < rows.len() && rows[i].id == pool.next_id ==> rows[i] == t
            &&& t.title == dto.title
            &&& t.description == dto.description
            &&& t.status == Status::Pending
        }),
{
    let t = created(dto, pool.next_id, now);
    let rows = pool.rows@.push(t);
    assert(rows[pool.rows@.len() as int] == t);
    assert(rows[pool.rows@.len() as int].id == pool.next_id);
    assert forall|i: int| 0 <= i < rows.len() && rows[i].id == pool.next_id implies rows[i] == t by {
        if i < pool.rows@.len() {
            assert(rows[i] == pool.rows@[i]);
        }
    }
}

/// The rows of a table that started empty with first id `first` after the
/// creates of `dtos`, the k-th stamped `at[k]`, all succeeded.
pub open spec fn created_rows(dtos: Seq<CreateTaskDto>, at: Seq<Timestamp>, first: i32) -> Seq<Task> {
    Seq::new(dtos.len(), |k: int| created(dtos[k], (first + k) as i32, at[k]))
}

/// Listing after `n` successful creates on an empty table gives exactly `n`
/// rows, one per create in order, with `n` distinct ids: those the creates
/// handed out.
pub proof fn lemma_list_after_creates(dtos: Seq<CreateTaskDto>, at: Seq<Timestamp>, first: i32)
    requires
        at.len() == dtos.len(),
        1 <= first,
        first + dtos.len() <= i32::MAX,
    ensures
        created_rows(dtos, at, first).len() == dtos.len(),
        unique_ids(created_rows(dtos, at, first)),
        ids(created_rows(dtos, at, first)) == Set::new(
            |id: i32| first <= id < first + dtos.len(),
        ),
        ids(created_rows(dtos, at, first)).len() == dtos.len(),
        dtos.len() == 0 || created_rows(dtos.drop_last(), at.drop_last(), first).push(
            created(dtos.last(), (first + dtos.len() - 1) as i32, at.last()),
        ) == created_rows(dtos, at, first),
{
    let rows = created_rows(dtos, at, first);
    let range = Set::new(|id: i32| first <= id < first + dtos.len());
    assert forall|id: i32| range.contains(id) implies #[trigger] ids(rows).contains(id) by {
        let k = id - first;
        assert(rows[k].id == id);
    }
    assert(ids(rows) =~= range);
    let n = dtos.len() as int;
    assert(range =~= Set::new(|id: i32| first <= id < first + n));
    lemma_range_len(first as int, n);
    if dtos.len() > 0 {
        assert(created_rows(dtos.drop_last(), at.drop_last(), first).push(
            created(dtos.last(), (first + dtos.len() - 1) as i32, at.last()),
        ) =~= rows);
    }
}

/// An empty table with first id `first` holds the rows of no creates.
pub proof fn lemma_no_creates(pool: TaskTable)
    requires
        pool.rows@.len() == 0,
    ensures
        pool.rows@ == created_rows(Seq::empty(), Seq::empty(), pool.next_id),
{
    assert(pool.rows@ =~= created_rows(Seq::empty(), Seq::empty(), pool.next_id));
}

/// A table that holds the rows of the creates of `dtos` (stamped `at`) from
/// first id `first`, after one more successful `create_task` with `dto` at
/// `now`, holds the rows of the creates of `dtos.push(dto)` (stamped
/// `at.push(now)`), and its counter has moved on by one. Together with
/// `lemma_no_creates`, the table after any run of successful creates on an
/// empty table is `created_rows` of that run, which `lemma_list_after_creates`
/// describes and `get_all_tasks` returns in full.
pub proof fn lemma_one_more_create(
    before: TaskTable,
    after: TaskTable,
    dtos: Seq<CreateTaskDto>,
    at: Seq<Timestamp>,
    first: i32,
    dto: CreateTaskDto,
    now: Timestamp,
)
    requires
        at.len() == dtos.len(),
        before.rows@ == created_rows(dtos, at, first),
        before.next_id == first + dtos.len(),
        after.rows@ == before.rows@.push(created(dto, before.next_id, now)),
        after.next_id == before.next_id + 1,
    ensures
        after.rows@ == created_rows(dtos.push(dto), at.push(now), first),
        after.next_id == first + dtos.push(dto).len(),
{
    let more = created_rows(dtos.push(dto), at.push(now), first);
    assert forall|k: int| 0 <= k < dtos.len() implies more[k] == before.rows@[k] by {
        assert(dtos.push(dto)[k] == dtos[k]);
        assert(at.push(now)[k] == at[k]);
    }
    assert(after.rows@ =~= more);
}

proof fn lemma_range_len(first: int, n: int)
    requires
        0 <= n,
        i32::MIN <= first,
        first + n <= i32::MAX + 1,
    ensures
        Set::new(|id: i32| first <= id < first + n).len() == n,
        Set::new(|id: i32| first <= id < first + n).finite(),
    decreases n,
{
    let s = Set::new(|id: i32| first <= id < first + n);
    if n == 0 {
        assert(s =~= Set::empty());
    } else {
        lemma_range_len(first, n - 1);
        let p = Set::new(|id: i32| first <= id < first + n - 1);
        let last = (first + n - 1) as i32;
        assert(s =~= p.insert(last));
    }
}

} // verus!
