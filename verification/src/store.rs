//! Looking tasks up in the store, by identifier and by title.

use vstd::prelude::*;
use crate::model::{Task, TaskView, DB};

verus! {

/// Some task of `tasks` has the identifier `id`.
pub open spec fn has_id(tasks: Seq<TaskView>, id: Seq<char>) -> bool {
    exists|i: int| 0 <= i < tasks.len() && (#[trigger] tasks[i]).id == Some(id)
}

/// `i` is the place of the first task of `tasks` that has the identifier `id`.
pub open spec fn is_first_with_id(tasks: Seq<TaskView>, id: Seq<char>, i: int) -> bool {
    &&& 0 <= i < tasks.len()
    &&& tasks[i].id == Some(id)
    &&& forall|j: int| 0 <= j < i ==> (#[trigger] tasks[j]).id != Some(id)
}

/// The place of the first task of `tasks` that has the identifier `id`, if
/// there is one.
pub open spec fn first_with_id(tasks: Seq<TaskView>, id: Seq<char>) -> Option<int> {
    if has_id(tasks, id) {
        Some(choose|i: int| is_first_with_id(tasks, id, i))
    } else {
        None
    }
}

/// Some task of `tasks` has the title `title`.
pub open spec fn title_taken(tasks: Seq<TaskView>, title: Seq<char>) -> bool {
    exists|i: int| 0 <= i < tasks.len() && (#[trigger] tasks[i]).title == title
}

/// No two tasks of `tasks` share a title.
pub open spec fn titles_distinct(tasks: Seq<TaskView>) -> bool {
    forall|i: int, j: int|
        0 <= i < j < tasks.len() ==> (#[trigger] tasks[i]).title != (#[trigger] tasks[j]).title
}

/// The first task with an identifier is found at one place only.
pub proof fn lemma_first_with_id_at(tasks: Seq<TaskView>, id: Seq<char>, i: int)
    requires
        is_first_with_id(tasks, id, i),
    ensures
        first_with_id(tasks, id) == Some(i),
{
    let k = choose|k: int| is_first_with_id(tasks, id, k);
    assert(is_first_with_id(tasks, id, k));
    if k < i {
        assert(tasks[k].id != Some(id));
    } else if i < k {
        assert(tasks[i].id != Some(id));
    }
}

/// Among the first `n` tasks, one with the identifier `id` has a first one.
proof fn lemma_first_below(tasks: Seq<TaskView>, id: Seq<char>, n: int) -> (i: int)
    requires
        0 <= n <= tasks.len(),
        exists|k: int| 0 <= k < n && (#[trigger] tasks[k]).id == Some(id),
    ensures
        is_first_with_id(tasks, id, i),
        i < n,
    decreases n,
{
    if exists|k: int| 0 <= k < n - 1 && (#[trigger] tasks[k]).id == Some(id) {
        lemma_first_below(tasks, id, n - 1)
    } else {
        let k = choose|k: int| 0 <= k < n && (#[trigger] tasks[k]).id == Some(id);
        assert(k == n - 1);
        k
    }
}

/// Where a task has the identifier, `first_with_id` gives the first such
/// task's place.
pub proof fn lemma_first_with_id_is_first(tasks: Seq<TaskView>, id: Seq<char>)
    requires
        has_id(tasks, id),
    ensures
        first_with_id(tasks, id) is Some,
        is_first_with_id(tasks, id, first_with_id(tasks, id).unwrap()),
{
    let i = lemma_first_below(tasks, id, tasks.len() as int);
    lemma_first_with_id_at(tasks, id, i);
}

/// A task under a title that no task of `tasks` has keeps the titles
/// distinct where it is put at the end.
pub proof fn lemma_push_keeps_titles_distinct(tasks: Seq<TaskView>, task: TaskView)
    requires
        titles_distinct(tasks),
        !title_taken(tasks, task.title),
    ensures
        titles_distinct(tasks.push(task)),
{
    let after = tasks.push(task);
    assert forall|i: int, j: int| 0 <= i < j < after.len() implies (#[trigger] after[i]).title != (
    #[trigger] after[j]).title by {
        assert(after[i] == tasks[i]);
        if j < tasks.len() {
            assert(after[j] == tasks[j]);
        }
    }
}

/// Leaving tasks out keeps the titles of the others distinct.
pub proof fn lemma_filter_keeps_titles_distinct(
    tasks: Seq<TaskView>,
    keep: spec_fn(TaskView) -> bool,
)
    requires
        titles_distinct(tasks),
    ensures
        titles_distinct(tasks.filter(keep)),
    decreases tasks.len(),
{
    reveal(Seq::filter);
    if tasks.len() > 0 {
        let front = tasks.drop_last();
        assert forall|i: int, j: int| 0 <= i < j < front.len() implies (#[trigger] front[i]).title
            != (#[trigger] front[j]).title by {
            assert(front[i] == tasks[i] && front[j] == tasks[j]);
        }
        lemma_filter_keeps_titles_distinct(front, keep);
        let kept = front.filter(keep);
        let all = tasks.filter(keep);
        assert forall|i: int, j: int| 0 <= i < j < all.len() implies (#[trigger] all[i]).title != (
        #[trigger] all[j]).title by {
            assert(all[i] == kept[i]);
            if j < kept.len() {
                assert(all[j] == kept[j]);
            } else {
                assert(kept.contains(kept[i]));
                front.lemma_filter_contains_rev(keep, kept[i]);
                let k = choose|k: int| 0 <= k < front.len() && front[k] == kept[i];
                assert(tasks[k] == all[i]);
                assert(all[j] == tasks[tasks.len() - 1]);
            }
        }
    }
}

/// Whether `task` has the identifier `id`.
pub fn task_has_id(task: &Task, id: &String) -> (b: bool)
    ensures
        b == (task@.id == Some(id@)),
{
    match &task.id {
        Some(own) => *own == *id,
        None => false,
    }
}

/// The place of the first task of the store that has the identifier `id`.
pub fn find_by_id(db: &DB, id: &String) -> (found: Option<usize>)
    ensures
        found matches Some(i) ==> first_with_id(db.deep_view(), id@) == Some(i as int)
            && is_first_with_id(db.deep_view(), id@, i as int),
        found is None ==> first_with_id(db.deep_view(), id@) is None,
        found is Some <==> has_id(db.deep_view(), id@),
{
    let mut i: usize = 0;
    while i < db.len()
        invariant
            i <= db.len(),
            forall|j: int| 0 <= j < i ==> (#[trigger] db.deep_view()[j]).id != Some(id@),
        decreases db.len() - i,
    {
        if task_has_id(&db[i], id) {
            proof {
                lemma_first_with_id_at(db.deep_view(), id@, i as int);
            }
            return Some(i);
        }
        i += 1;
    }
    None
}

/// Whether some task of the store has the title `title`.
pub fn has_title(db: &DB, title: &String) -> (b: bool)
    ensures
        b == title_taken(db.deep_view(), title@),
{
    let mut i: usize = 0;
    while i < db.len()
        invariant
            i <= db.len(),
            forall|j: int| 0 <= j < i ==> (#[trigger] db.deep_view()[j]).title != title@,
        decreases db.len() - i,
    {
        if db[i].title == *title {
            assert(db.deep_view()[i as int].title == title@);
            return true;
        }
        i += 1;
    }
    false
}

} // verus!
