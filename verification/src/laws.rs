//! What holds of the handlers' models taken together: of a lookup after a
//! creation or a deletion, of what an edit keeps, of the pages of the list,
//! and of the titles in the store.

use vstd::prelude::*;
use crate::ambient::is_task_id;
use crate::handler::{
    create_model, created_task, delete_model, edit_model, get_model, list_model, merged_task,
    page_limit, page_number, page_of, page_offset, without_id,
};
use crate::model::{QueryOptions, TaskView, Timestamp, UpdateSchemaView};
use crate::response::{
    conflict_message, conflict_response, list_response, no_content_response, not_found_response,
    task_response, BodyView, Status,
};
use crate::store::{
    first_with_id, has_id, is_first_with_id, lemma_filter_keeps_titles_distinct,
    lemma_first_with_id_at, lemma_first_with_id_is_first, lemma_push_keeps_titles_distinct,
    title_taken, titles_distinct,
};

verus! {

/// A creation under a title that a task of the store has already leaves the
/// store as it is, so of the same length, and is answered by the conflict,
/// whose message holds the title.
pub proof fn law_create_taken_title(
    tasks: Seq<TaskView>,
    body: TaskView,
    id: Seq<char>,
    now: Timestamp,
)
    requires
        title_taken(tasks, body.title),
    ensures
        create_model(tasks, body, id, now).0 == tasks,
        create_model(tasks, body, id, now).0.len() == tasks.len(),
        create_model(tasks, body, id, now).1 == conflict_response(body.title),
        create_model(tasks, body, id, now).1.status == Status::Conflict,
        exists|at: int|
            0 <= at && at + body.title.len() <= conflict_message(body.title).len()
                && #[trigger] conflict_message(body.title).subrange(at, at + body.title.len())
                == body.title,
{
    let at = "Task with title: '"@.len() as int;
    assert(conflict_message(body.title).subrange(at, at + body.title.len()) =~= body.title);
}

/// A creation under a title that no task of the store has puts one task at
/// the end of the store and answers with it: under the identifier drawn,
/// which is not empty, not completed, and with the time of creation as the
/// time of its last update.
pub proof fn law_create_free_title(
    tasks: Seq<TaskView>,
    body: TaskView,
    id: Seq<char>,
    now: Timestamp,
)
    requires
        !title_taken(tasks, body.title),
        is_task_id(id),
    ensures
        create_model(tasks, body, id, now).0 == tasks.push(created_task(body, id, now)),
        create_model(tasks, body, id, now).1 == task_response(
            Status::Created,
            created_task(body, id, now),
        ),
        created_task(body, id, now).id == Some(id),
        id.len() > 0,
        created_task(body, id, now).title == body.title,
        created_task(body, id, now).content == body.content,
        created_task(body, id, now).completed == Some(false),
        created_task(body, id, now).created_at == created_task(body, id, now).updated_at,
{
}

/// A task that was created under an identifier that the store did not hold
/// is what a lookup of that identifier then returns, field for field.
pub proof fn law_get_after_create(
    tasks: Seq<TaskView>,
    body: TaskView,
    id: Seq<char>,
    now: Timestamp,
)
    requires
        !title_taken(tasks, body.title),
        !has_id(tasks, id),
    ensures
        get_model(create_model(tasks, body, id, now).0, id) == task_response(
            Status::Success,
            created_task(body, id, now),
        ),
{
    let after = create_model(tasks, body, id, now).0;
    assert(after == tasks.push(created_task(body, id, now)));
    assert forall|j: int| 0 <= j < tasks.len() implies (#[trigger] after[j]).id != Some(id) by {
        assert(after[j] == tasks[j]);
    }
    assert(is_first_with_id(after, id, tasks.len() as int));
    lemma_first_with_id_at(after, id, tasks.len() as int);
}

/// A lookup of an identifier that no task of the store has is answered by
/// not-found, and one that a task has by that task.
pub proof fn law_get_by_presence(tasks: Seq<TaskView>, id: Seq<char>)
    ensures
        !has_id(tasks, id) ==> get_model(tasks, id) == not_found_response(id),
        has_id(tasks, id) ==> get_model(tasks, id).status == Status::Success,
        has_id(tasks, id) ==> (get_model(tasks, id).body matches BodyView::Task(found)
            && found.task.id == Some(id)),
{
    if has_id(tasks, id) {
        lemma_first_with_id_is_first(tasks, id);
    }
}

/// What an edit does to the task it finds: an empty title or content in the
/// payload leaves the task's own, as an absent one does; a `completed` in the
/// payload is taken as it is, `false` too, and an absent one leaves the
/// task's own; the identifier and the time of creation stay.
pub proof fn law_edit_merge(task: TaskView, patch: UpdateSchemaView, now: Timestamp)
    ensures
        (patch.title is None || patch.title == Some(Seq::<char>::empty())) ==> merged_task(
            task,
            patch,
            now,
        ).title == task.title,
        (patch.content is None || patch.content == Some(Seq::<char>::empty())) ==> merged_task(
            task,
            patch,
            now,
        ).content == task.content,
        patch.title matches Some(title) ==> (title.len() > 0 ==> merged_task(
            task,
            patch,
            now,
        ).title == title),
        patch.content matches Some(content) ==> (content.len() > 0 ==> merged_task(
            task,
            patch,
            now,
        ).content == content),
        patch.completed == Some(false) ==> merged_task(task, patch, now).completed == Some(false),
        patch.completed == Some(true) ==> merged_task(task, patch, now).completed == Some(true),
        patch.completed is None ==> merged_task(task, patch, now).completed == task.completed,
        merged_task(task, patch, now).id == task.id,
        merged_task(task, patch, now).created_at == task.created_at,
        merged_task(task, patch, now).updated_at == Some(now),
{
}

/// An edit of an identifier that a task has replaces the first such task by
/// what the merge makes of it, leaves every other task and the length of the
/// store as they were, and answers with the new task.
pub proof fn law_edit_found(
    tasks: Seq<TaskView>,
    id: Seq<char>,
    patch: UpdateSchemaView,
    now: Timestamp,
)
    requires
        has_id(tasks, id),
    ensures
        first_with_id(tasks, id) matches Some(i) && ({
            let task = merged_task(tasks[i], patch, now);
            &&& is_first_with_id(tasks, id, i)
            &&& edit_model(tasks, id, patch, now).0 == tasks.update(i, task)
            &&& edit_model(tasks, id, patch, now).1 == task_response(Status::Success, task)
        }),
        edit_model(tasks, id, patch, now).0.len() == tasks.len(),
        forall|j: int|
            0 <= j < tasks.len() && first_with_id(tasks, id) != Some(j) ==> #[trigger] edit_model(
                tasks,
                id,
                patch,
                now,
            ).0[j] == tasks[j],
{
    lemma_first_with_id_is_first(tasks, id);
}

/// An edit of an identifier that no task has leaves the store as it is and
/// is answered by not-found.
pub proof fn law_edit_absent(
    tasks: Seq<TaskView>,
    id: Seq<char>,
    patch: UpdateSchemaView,
    now: Timestamp,
)
    requires
        !has_id(tasks, id),
    ensures
        edit_model(tasks, id, patch, now) == (tasks, not_found_response(id)),
{
}

/// An edit at a time later than the task's last update moves the time of the
/// last update forward, and leaves the time of creation as it was.
pub proof fn law_edit_times(
    tasks: Seq<TaskView>,
    id: Seq<char>,
    patch: UpdateSchemaView,
    now: Timestamp,
)
    requires
        first_with_id(tasks, id) matches Some(i) && tasks[i].updated_at matches Some(before)
            && before.precedes(now),
    ensures
        first_with_id(tasks, id) matches Some(i) && ({
            let before = tasks[i];
            let after = edit_model(tasks, id, patch, now).0[i];
            &&& after.created_at == before.created_at
            &&& after.updated_at == Some(now)
            &&& before.updated_at.unwrap().precedes(after.updated_at.unwrap())
        }),
{
    lemma_first_with_id_is_first(tasks, id);
}

/// What a deletion leaves holds no task with the identifier.
pub proof fn lemma_without_id_has_none(tasks: Seq<TaskView>, id: Seq<char>)
    ensures
        !has_id(without_id(tasks, id), id),
{
    let keep = |task: TaskView| task.id != Some(id);
    assert forall|i: int| 0 <= i < tasks.filter(keep).len() implies (#[trigger] tasks.filter(
        keep,
    )[i]).id != Some(id) by {
        tasks.lemma_filter_pred(keep, i);
    }
}

/// Leaving out a task that is there makes the store shorter.
proof fn lemma_filter_shortens(tasks: Seq<TaskView>, keep: spec_fn(TaskView) -> bool, i: int)
    requires
        0 <= i < tasks.len(),
        !keep(tasks[i]),
    ensures
        tasks.filter(keep).len() < tasks.len(),
    decreases tasks.len(),
{
    reveal(Seq::filter);
    let front = tasks.drop_last();
    if i == tasks.len() - 1 {
        front.lemma_filter_len(keep);
    } else {
        lemma_filter_shortens(front, keep, i);
    }
}

/// The deletion of an identifier that a task has is answered by no-content
/// and leaves a shorter store: no task with that identifier, and every
/// other task of the store.
pub proof fn law_delete_found(tasks: Seq<TaskView>, id: Seq<char>)
    requires
        has_id(tasks, id),
    ensures
        delete_model(tasks, id) == (without_id(tasks, id), no_content_response()),
        !has_id(without_id(tasks, id), id),
        without_id(tasks, id).len() < tasks.len(),
        forall|i: int|
            0 <= i < tasks.len() && tasks[i].id != Some(id) ==> without_id(tasks, id).contains(
                #[trigger] tasks[i],
            ),
        forall|k: int|
            0 <= k < without_id(tasks, id).len() ==> tasks.contains(
                #[trigger] without_id(tasks, id)[k],
            ),
{
    let keep = |task: TaskView| task.id != Some(id);
    lemma_without_id_has_none(tasks, id);
    let i = choose|i: int| 0 <= i < tasks.len() && (#[trigger] tasks[i]).id == Some(id);
    lemma_filter_shortens(tasks, keep, i);
    assert forall|i: int| 0 <= i < tasks.len() && tasks[i].id != Some(id) implies without_id(
        tasks,
        id,
    ).contains(#[trigger] tasks[i]) by {
        tasks.lemma_filter_contains(keep, i);
    }
    assert forall|k: int| 0 <= k < without_id(tasks, id).len() implies tasks.contains(
        #[trigger] without_id(tasks, id)[k],
    ) by {
        tasks.lemma_filter_contains_rev(keep, without_id(tasks, id)[k]);
    }
}

/// After the deletion of an identifier a lookup of it is answered by
/// not-found, whether a task had it or not.
pub proof fn law_get_after_delete(tasks: Seq<TaskView>, id: Seq<char>)
    ensures
        get_model(delete_model(tasks, id).0, id) == not_found_response(id),
        has_id(tasks, id) ==> delete_model(tasks, id).1 == no_content_response(),
{
    lemma_without_id_has_none(tasks, id);
}

/// The deletion of an identifier that no task has leaves the store as it is
/// and is answered by not-found.
pub proof fn law_delete_absent(tasks: Seq<TaskView>, id: Seq<char>)
    requires
        !has_id(tasks, id),
    ensures
        delete_model(tasks, id) == (tasks, not_found_response(id)),
{
}

/// Every page of an empty store is empty: no tasks, and their number 0.
pub proof fn law_list_empty(opts: QueryOptions)
    ensures
        list_model(Seq::<TaskView>::empty(), opts) == list_response(Seq::<TaskView>::empty()),
        list_model(Seq::<TaskView>::empty(), opts).body matches BodyView::TaskList(page)
            && page.results == 0 && page.tasks.len() == 0,
{
    let none = Seq::<TaskView>::empty();
    assert(page_of(none, page_offset(opts), page_limit(opts)) =~= none);
}

/// A page that the store fills holds exactly as many tasks as the limit
/// says: those from the place `(page - 1) * limit` on, in the store's order.
pub proof fn law_list_full_page(tasks: Seq<TaskView>, opts: QueryOptions)
    requires
        page_number(opts) >= 1,
        (page_number(opts) - 1) * page_limit(opts) + page_limit(opts) <= tasks.len(),
    ensures
        ({
            let limit = page_limit(opts);
            let start = (page_number(opts) - 1) * limit;
            &&& list_model(tasks, opts) == list_response(tasks.subrange(start, start + limit))
            &&& list_model(tasks, opts).body matches BodyView::TaskList(listed)
            &&& listed.results == limit
            &&& listed.tasks.len() == limit
            &&& forall|k: int| 0 <= k < limit ==> #[trigger] listed.tasks[k] == tasks[start + k]
        }),
{
    assert(0 <= (page_number(opts) - 1) * page_limit(opts)) by (nonlinear_arith)
        requires
            page_number(opts) >= 1,
            page_limit(opts) >= 0,
    ;
}

/// A creation keeps the titles of the store distinct.
pub proof fn law_create_keeps_titles_distinct(
    tasks: Seq<TaskView>,
    body: TaskView,
    id: Seq<char>,
    now: Timestamp,
)
    requires
        titles_distinct(tasks),
    ensures
        titles_distinct(create_model(tasks, body, id, now).0),
{
    if !title_taken(tasks, body.title) {
        lemma_push_keeps_titles_distinct(tasks, created_task(body, id, now));
    }
}

/// An edit keeps the titles of the store distinct where no other task has
/// the title that the edit leaves. Nothing in an edit looks for such a task.
pub proof fn law_edit_keeps_titles_distinct(
    tasks: Seq<TaskView>,
    id: Seq<char>,
    patch: UpdateSchemaView,
    now: Timestamp,
)
    requires
        titles_distinct(tasks),
        first_with_id(tasks, id) matches Some(i) ==> forall|j: int|
            0 <= j < tasks.len() && j != i ==> (#[trigger] tasks[j]).title != merged_task(
                tasks[i],
                patch,
                now,
            ).title,
    ensures
        titles_distinct(edit_model(tasks, id, patch, now).0),
{
    if has_id(tasks, id) {
        lemma_first_with_id_is_first(tasks, id);
        let i = first_with_id(tasks, id).unwrap();
        let after = edit_model(tasks, id, patch, now).0;
        assert forall|a: int, b: int| 0 <= a < b < after.len() implies (#[trigger] after[a]).title
            != (#[trigger] after[b]).title by {
            if a != i {
                assert(after[a] == tasks[a]);
            }
            if b != i {
                assert(after[b] == tasks[b]);
            }
        }
    }
}

/// A deletion keeps the titles of the store distinct.
pub proof fn law_delete_keeps_titles_distinct(tasks: Seq<TaskView>, id: Seq<char>)
    requires
        titles_distinct(tasks),
    ensures
        titles_distinct(delete_model(tasks, id).0),
{
    lemma_filter_keeps_titles_distinct(tasks, |task: TaskView| task.id != Some(id));
}

} // verus!
