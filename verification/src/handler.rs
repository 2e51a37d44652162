//! The request handlers. Each takes the store and a request's values and
//! returns the response; its model says, over views, what that response is
//! and what the store holds afterwards.

use vstd::prelude::*;
use crate::ambient::{is_task_id, new_task_id, now_utc};
use crate::model::{
    clone_text, QueryOptions, Task, TaskView, Timestamp, UpdateSchema, UpdateSchemaView, DB,
};
use crate::response::{
    conflict_response, failure_response, list_response, message_response, no_content_response,
    not_found_response, task_response, BodyView, Response, ResponseView, Status,
};
use crate::store::{
    find_by_id, first_with_id, has_id, has_title, lemma_filter_keeps_titles_distinct,
    lemma_push_keeps_titles_distinct, task_has_id, title_taken, titles_distinct,
};

verus! {

/// The response to a ping.
pub open spec fn ping_model() -> ResponseView {
    message_response("pong"@)
}

/// Answers a ping.
pub fn ping() -> (r: Response)
    ensures
        r@ == ping_model(),
{
    Response::message("pong")
}

/// The response to a request for the test message.
pub open spec fn test_model() -> ResponseView {
    message_response("This is a test, this is only a test..."@)
}

/// Answers with the test message.
pub fn test() -> (r: Response)
    ensures
        r@ == test_model(),
{
    Response::message("This is a test, this is only a test...")
}

/// The page that a request without a page asks for.
pub const DEFAULT_PAGE: usize = 1;

/// The number of tasks to a page where the request names none.
pub const DEFAULT_LIMIT: usize = 10;

/// The number of tasks to a page.
pub open spec fn page_limit(opts: QueryOptions) -> int {
    match opts.limit {
        Some(limit) => limit as int,
        None => DEFAULT_LIMIT as int,
    }
}

/// The page that the request asks for.
pub open spec fn page_number(opts: QueryOptions) -> int {
    match opts.page {
        Some(page) => page as int,
        None => DEFAULT_PAGE as int,
    }
}

/// The number of tasks that lie before the page: the pages before it, each
/// of the page's length. Pages count from 1, and page 0 is read as page 1.
pub open spec fn page_offset(opts: QueryOptions) -> int {
    if page_number(opts) >= 1 {
        (page_number(opts) - 1) * page_limit(opts)
    } else {
        0
    }
}

/// Up to `limit` tasks of `tasks` from the place `offset` on, in their
/// order: none where `offset` lies behind the last task.
pub open spec fn page_of(tasks: Seq<TaskView>, offset: int, limit: int) -> Seq<TaskView>
    recommends
        0 <= offset,
        0 <= limit,
{
    let start = vstd::math::min(offset, tasks.len() as int);
    let end = vstd::math::min(offset + limit, tasks.len() as int);
    tasks.subrange(start, end)
}

/// The response to a request for a page of the store.
pub open spec fn list_model(tasks: Seq<TaskView>, opts: QueryOptions) -> ResponseView {
    list_response(page_of(tasks, page_offset(opts), page_limit(opts)))
}

/// Lists one page of the store: up to `limit` tasks, from the place
/// `(page - 1) * limit` on. Page 0 is read as page 1. The offset is computed
/// without wrapping: a page that lies behind the last task, however far, is
/// empty.
pub fn tasks_list_handler(opts: QueryOptions, db: &DB) -> (r: Response)
    ensures
        r@ == list_model(db.deep_view(), opts),
        db.len() == 0 ==> r@ == list_response(Seq::<TaskView>::empty()),
        ({
            let limit = page_limit(opts);
            let start = (page_number(opts) - 1) * limit;
            page_number(opts) >= 1 && start + limit <= db.len() ==> r@ == list_response(
                db.deep_view().subrange(start, start + limit),
            )
        }),
{
    let limit: usize = match opts.limit {
        Some(limit) => limit,
        None => DEFAULT_LIMIT,
    };
    let page: usize = match opts.page {
        Some(page) => page,
        None => DEFAULT_PAGE,
    };
    let pages_before: usize = if page >= 1 {
        page - 1
    } else {
        0
    };
    let mut tasks: Vec<Task> = Vec::new();
    let ghost all = db.deep_view();
    match pages_before.checked_mul(limit) {
        Some(offset) => {
            if offset < db.len() {
                let end: usize = if limit < db.len() - offset {
                    offset + limit
                } else {
                    db.len()
                };
                let mut i: usize = offset;
                while i < end
                    invariant
                        offset <= i <= end <= db.len(),
                        all == db.deep_view(),
                        tasks.deep_view() == all.subrange(offset as int, i as int),
                    decreases end - i,
                {
                    let ghost listed = tasks.deep_view();
                    tasks.push(db[i].clone());
                    assert(tasks.deep_view() =~= listed.push(all[i as int]));
                    i += 1;
                }
            } else {
                assert(tasks.deep_view() =~= page_of(all, offset as int, limit as int));
            }
        },
        None => {
            assert(all.len() == db.len() <= usize::MAX);
            assert(tasks.deep_view() =~= page_of(all, pages_before * limit, limit as int));
        },
    }
    assert(db.len() == 0 ==> tasks.deep_view() =~= Seq::<TaskView>::empty());
    Response::list(tasks)
}

/// The task that a creation at the time `now` under the identifier `id`
/// makes of the payload `body`: its title and content, not completed, and
/// both times set to `now`. What `body` says of the other fields is dropped.
pub open spec fn created_task(body: TaskView, id: Seq<char>, now: Timestamp) -> TaskView {
    TaskView {
        id: Some(id),
        title: body.title,
        content: body.content,
        completed: Some(false),
        created_at: Some(now),
        updated_at: Some(now),
    }
}

/// The store after a creation, and the response. Where a task has the
/// payload's title already, the store stays as it is; else the new task
/// goes to its end.
pub open spec fn create_model(
    tasks: Seq<TaskView>,
    body: TaskView,
    id: Seq<char>,
    now: Timestamp,
) -> (Seq<TaskView>, ResponseView) {
    if title_taken(tasks, body.title) {
        (tasks, conflict_response(body.title))
    } else {
        let task = created_task(body, id, now);
        (tasks.push(task), task_response(Status::Created, task))
    }
}

/// Puts the task that `body` makes at the end of the store, under the
/// identifier `id` and stamped `now`, whatever titles the store holds, and
/// answers with it.
pub fn append_task(body: Task, db: &mut DB, id: String, now: Timestamp) -> (r: Response)
    ensures
        final(db).deep_view() == old(db).deep_view().push(created_task(body@, id@, now)),
        r@ == task_response(Status::Created, created_task(body@, id@, now)),
{
    let mut body = body;
    body.id = Some(id);
    body.completed = Some(false);
    body.created_at = Some(now);
    body.updated_at = Some(now);
    let task = body.clone();
    db.push(body);
    Response::task(Status::Created, task)
}

/// Creates a task from `body` as it would be created under the identifier
/// `id` at the time `now`.
pub fn create_task_with(body: Task, db: &mut DB, id: String, now: Timestamp) -> (r: Response)
    ensures
        (final(db).deep_view(), r@) == create_model(old(db).deep_view(), body@, id@, now),
        titles_distinct(old(db).deep_view()) ==> titles_distinct(final(db).deep_view()),
{
    if has_title(db, &body.title) {
        Response::conflict(&body.title)
    } else {
        proof {
            if titles_distinct(db.deep_view()) {
                lemma_push_keeps_titles_distinct(db.deep_view(), created_task(body@, id@, now));
            }
        }
        append_task(body, db, id, now)
    }
}

/// Creates a task from `body`. Where a task has that title already, the
/// store stays as it is and the response is the conflict. Else the task goes
/// to the end of the store under a new identifier, not completed, with both
/// times set to the time of the call.
///
/// The identifier is drawn at random and the time is read off the system
/// clock. The contract says what holds whatever the two are: that no task of
/// the store has the identifier yet rests on chance, and is not claimed.
pub fn create_task_handler(body: Task, db: &mut DB) -> (r: Response)
    ensures
        title_taken(old(db).deep_view(), body@.title) ==> final(db).deep_view() == old(
            db,
        ).deep_view() && final(db).len() == old(db).len() && r@ == conflict_response(
            body@.title,
        ),
        !title_taken(old(db).deep_view(), body@.title) ==> exists|id: Seq<char>, now: Timestamp|
            is_task_id(id) && now.is_clock_reading() && (final(db).deep_view(), r@)
                == #[trigger] create_model(old(db).deep_view(), body@, id, now),
        !title_taken(old(db).deep_view(), body@.title) ==> ({
            let created = final(db).deep_view().last();
            &&& final(db).len() == old(db).len() + 1
            &&& r@ == task_response(Status::Created, created)
            &&& created.id matches Some(id) && is_task_id(id) && id.len() > 0
            &&& created.title == body@.title
            &&& created.content == body@.content
            &&& created.completed == Some(false)
            &&& created.created_at == created.updated_at
            &&& created.created_at matches Some(now) && now.is_clock_reading()
        }),
        titles_distinct(old(db).deep_view()) ==> titles_distinct(final(db).deep_view()),
{
    if has_title(db, &body.title) {
        Response::conflict(&body.title)
    } else {
        let id = new_task_id();
        let now = now_utc();
        let ghost new_id = id@;
        proof {
            if titles_distinct(db.deep_view()) {
                lemma_push_keeps_titles_distinct(db.deep_view(), created_task(body@, new_id, now));
            }
        }
        let r = append_task(body, db, id, now);
        assert((db.deep_view(), r@) == create_model(old(db).deep_view(), body@, new_id, now));
        r
    }
}

/// The response to a request for the task `id`: the first task with that
/// identifier, or that there is none.
pub open spec fn get_model(tasks: Seq<TaskView>, id: Seq<char>) -> ResponseView {
    match first_with_id(tasks, id) {
        Some(i) => task_response(Status::Success, tasks[i]),
        None => not_found_response(id),
    }
}

/// Looks the task `id` up.
pub fn get_task_handler(id: String, db: &DB) -> (r: Response)
    ensures
        r@ == get_model(db.deep_view(), id@),
        !has_id(db.deep_view(), id@) ==> r@ == not_found_response(id@),
        has_id(db.deep_view(), id@) ==> r@.status == Status::Success,
{
    match find_by_id(db, &id) {
        Some(i) => Response::task(Status::Success, db[i].clone()),
        None => Response::not_found(&id),
    }
}

/// The text that an edit leaves in a field: what the payload gives, unless
/// it gives nothing or the empty string; then what the task had.
pub open spec fn merged_text(given: Option<Seq<char>>, kept: Seq<char>) -> Seq<char> {
    match given {
        Some(text) => if text.len() > 0 {
            text
        } else {
            kept
        },
        None => kept,
    }
}

/// The task that an edit at the time `now` makes of `task`. The identifier
/// and the time of creation stay. A `completed` that the payload gives is
/// taken, `false` too.
pub open spec fn merged_task(task: TaskView, patch: UpdateSchemaView, now: Timestamp) -> TaskView {
    TaskView {
        id: task.id,
        title: merged_text(patch.title, task.title),
        content: merged_text(patch.content, task.content),
        completed: if patch.completed is Some {
            patch.completed
        } else {
            task.completed
        },
        created_at: task.created_at,
        updated_at: Some(now),
    }
}

/// The store after an edit of the task `id` at the time `now`, and the
/// response. The first task with that identifier is replaced; where there is
/// none the store stays as it is.
pub open spec fn edit_model(
    tasks: Seq<TaskView>,
    id: Seq<char>,
    patch: UpdateSchemaView,
    now: Timestamp,
) -> (Seq<TaskView>, ResponseView) {
    match first_with_id(tasks, id) {
        Some(i) => {
            let task = merged_task(tasks[i], patch, now);
            (tasks.update(i, task), task_response(Status::Success, task))
        },
        None => (tasks, not_found_response(id)),
    }
}

/// The text that an edit leaves in a field that held `kept`.
pub fn merge_text(given: &Option<String>, kept: &String) -> (text: String)
    ensures
        text@ == merged_text(given.deep_view(), kept@),
{
    match given {
        Some(text) => if text.as_str().is_empty() {
            kept.clone()
        } else {
            text.clone()
        },
        None => kept.clone(),
    }
}

/// Replaces the task at the place `i` by what an edit at the time `now`
/// makes of it, and answers with the new task.
pub fn apply_edit(db: &mut DB, i: usize, body: &UpdateSchema, now: Timestamp) -> (r: Response)
    requires
        i < old(db).len(),
    ensures
        final(db).deep_view() == old(db).deep_view().update(
            i as int,
            merged_task(old(db).deep_view()[i as int], body@, now),
        ),
        r@ == task_response(
            Status::Success,
            merged_task(old(db).deep_view()[i as int], body@, now),
        ),
        final(db).len() == old(db).len(),
{
    let task = &db[i];
    let payload = Task {
        id: clone_text(&task.id),
        title: merge_text(&body.title, &task.title),
        content: merge_text(&body.content, &task.content),
        completed: if body.completed.is_some() {
            body.completed
        } else {
            task.completed
        },
        created_at: task.created_at,
        updated_at: Some(now),
    };
    let copy = payload.clone();
    db.set(i, payload);
    Response::task(Status::Success, copy)
}

/// Edits the task `id` as it would be edited at the time `now`.
pub fn edit_task_with(
    id: String,
    body: UpdateSchema,
    db: &mut DB,
    now: Timestamp,
) -> (r: Response)
    ensures
        (final(db).deep_view(), r@) == edit_model(old(db).deep_view(), id@, body@, now),
{
    match find_by_id(db, &id) {
        Some(i) => apply_edit(db, i, &body, now),
        None => Response::not_found(&id),
    }
}

/// Edits the task `id`: the first task with that identifier takes the
/// payload's title and content where they are given and not empty, its
/// `completed` where it is given, and the time of the edit.
///
/// The time is read off the system clock. The contract says what holds
/// whatever it is: that it is later than the task's last update is not
/// claimed.
pub fn edit_task_handler(id: String, body: UpdateSchema, db: &mut DB) -> (r: Response)
    ensures
        !has_id(old(db).deep_view(), id@) ==> final(db).deep_view() == old(db).deep_view() && r@
            == not_found_response(id@),
        has_id(old(db).deep_view(), id@) ==> exists|now: Timestamp|
            now.is_clock_reading() && (final(db).deep_view(), r@) == #[trigger] edit_model(
                old(db).deep_view(),
                id@,
                body@,
                now,
            ),
        final(db).len() == old(db).len(),
        first_with_id(old(db).deep_view(), id@) matches Some(i) ==> ({
            let before = old(db).deep_view()[i];
            let after = final(db).deep_view()[i];
            &&& r@.status == Status::Success
            &&& r@.body matches BodyView::Task(single) && single.task == after
            &&& after.id == before.id
            &&& after.created_at == before.created_at
            &&& after.updated_at matches Some(now) && now.is_clock_reading()
            &&& body@.title == Some(Seq::<char>::empty()) ==> after.title == before.title
            &&& body@.content == Some(Seq::<char>::empty()) ==> after.content == before.content
            &&& body@.completed == Some(false) ==> after.completed == Some(false)
        }),
{
    match find_by_id(db, &id) {
        Some(i) => {
            let now = now_utc();
            let r = apply_edit(db, i, &body, now);
            assert((db.deep_view(), r@) == edit_model(old(db).deep_view(), id@, body@, now));
            r
        },
        None => Response::not_found(&id),
    }
}

/// `tasks` without the tasks that have the identifier `id`, the others in
/// their order.
pub open spec fn without_id(tasks: Seq<TaskView>, id: Seq<char>) -> Seq<TaskView> {
    tasks.filter(|task: TaskView| task.id != Some(id))
}

/// The store after the deletion of the task `id`, and the response. Every
/// task with that identifier leaves; where there is none the store stays as
/// it is.
pub open spec fn delete_model(tasks: Seq<TaskView>, id: Seq<char>) -> (
    Seq<TaskView>,
    ResponseView,
) {
    if has_id(tasks, id) {
        (without_id(tasks, id), no_content_response())
    } else {
        (tasks, not_found_response(id))
    }
}

/// Takes every task with the identifier `id` out of the store.
fn remove_with_id(db: &mut DB, id: &String)
    ensures
        final(db).deep_view() == without_id(old(db).deep_view(), id@),
{
    let ghost views = db.deep_view();
    let mut all: Vec<Task> = Vec::new();
    core::mem::swap(db, &mut all);
    let ghost before = all@;
    assert(db.deep_view() =~= without_id(views.take(0), id@)) by {
        reveal(Seq::filter);
    }
    for task in it: all
        invariant
            it.seq() == before,
            views.len() == before.len(),
            forall|j: int| 0 <= j < before.len() ==> views[j] == (#[trigger] before[j])@,
            db.deep_view() == without_id(views.take(it.index() as int), id@),
    {
        let ghost done = views.take(it.index() as int);
        proof {
            assert(views.take(it.index() + 1) =~= done.push(task@));
            done.lemma_filter_push(task@, |other: TaskView| other.id != Some(id@));
        }
        if !task_has_id(&task, id) {
            db.push(task);
        }
    }
    assert(views.take(views.len() as int) =~= views);
}

/// Deletes the task `id`.
pub fn delete_task_handler(id: String, db: &mut DB) -> (r: Response)
    ensures
        (final(db).deep_view(), r@) == delete_model(old(db).deep_view(), id@),
        !has_id(old(db).deep_view(), id@) ==> final(db).deep_view() == old(db).deep_view() && r@
            == not_found_response(id@),
        has_id(old(db).deep_view(), id@) ==> r@ == no_content_response(),
        titles_distinct(old(db).deep_view()) ==> titles_distinct(final(db).deep_view()),
{
    match find_by_id(db, &id) {
        Some(_) => {
            proof {
                if titles_distinct(db.deep_view()) {
                    lemma_filter_keeps_titles_distinct(
                        db.deep_view(),
                        |task: TaskView| task.id != Some(id@),
                    );
                }
            }
            remove_with_id(db, &id);
            Response::no_content()
        },
        None => Response::not_found(&id),
    }
}

/// The response to a request to save a file.
pub open spec fn file_save_model() -> ResponseView {
    failure_response(Status::NotFound, "Task with ID:not found"@)
}

/// Answers a request to save a file. Nothing is saved: the response is the
/// same failure whatever the store holds.
pub fn file_save_handler(db: &DB) -> (r: Response)
    ensures
        r@ == file_save_model(),
{
    Response::failure(Status::NotFound, "Task with ID:not found".to_owned())
}

} // verus!
