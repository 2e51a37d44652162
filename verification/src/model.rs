//! The task record, the payloads that requests carry, and the store.

use vstd::prelude::*;
use crate::store::titles_distinct;

verus! {

/// A point in time: whole seconds since 1970-01-01 00:00:00 UTC and the
/// nanoseconds into that second.
#[derive(Clone, Copy, Debug, PartialEq, Eq, Structural)]
pub struct Timestamp {
    pub secs: i64,
    pub nanos: u32,
}

impl Timestamp {
    /// `self` is strictly earlier than `other`.
    pub open spec fn precedes(self, other: Timestamp) -> bool {
        self.secs < other.secs || (self.secs == other.secs && self.nanos < other.nanos)
    }

    /// What a clock hands out: a time not before 1970, with the nanoseconds
    /// short of a full second.
    pub open spec fn is_clock_reading(self) -> bool {
        self.secs >= 0 && self.nanos < 1_000_000_000
    }
}

/// The one record that the service manages.
#[derive(Debug, PartialEq, Eq)]
pub struct Task {
    pub id: Option<String>,
    pub title: String,
    pub content: String,
    pub completed: Option<bool>,
    pub created_at: Option<Timestamp>,
    pub updated_at: Option<Timestamp>,
}

/// A task as contracts see it: the strings as sequences of characters.
pub struct TaskView {
    pub id: Option<Seq<char>>,
    pub title: Seq<char>,
    pub content: Seq<char>,
    pub completed: Option<bool>,
    pub created_at: Option<Timestamp>,
    pub updated_at: Option<Timestamp>,
}

impl View for Task {
    type V = TaskView;

    open spec fn view(&self) -> TaskView {
        TaskView {
            id: self.id.deep_view(),
            title: self.title@,
            content: self.content@,
            completed: self.completed,
            created_at: self.created_at,
            updated_at: self.updated_at,
        }
    }
}

impl DeepView for Task {
    type V = TaskView;

    open spec fn deep_view(&self) -> TaskView {
        self@
    }
}

impl Clone for Task {
    fn clone(&self) -> (res: Task)
        ensures
            res@ == self@,
    {
        Task {
            id: clone_text(&self.id),
            title: self.title.clone(),
            content: self.content.clone(),
            completed: self.completed,
            created_at: self.created_at,
            updated_at: self.updated_at,
        }
    }
}

/// A copy of an optional string.
pub fn clone_text(text: &Option<String>) -> (res: Option<String>)
    ensures
        res.deep_view() == text.deep_view(),
{
    match text {
        Some(s) => Some(s.clone()),
        None => None,
    }
}

/// A partial update. A field that is absent leaves the task's field as it is.
#[derive(Debug, PartialEq, Eq)]
pub struct UpdateSchema {
    pub title: Option<String>,
    pub content: Option<String>,
    pub completed: Option<bool>,
}

/// A partial update as contracts see it.
pub struct UpdateSchemaView {
    pub title: Option<Seq<char>>,
    pub content: Option<Seq<char>>,
    pub completed: Option<bool>,
}

impl View for UpdateSchema {
    type V = UpdateSchemaView;

    open spec fn view(&self) -> UpdateSchemaView {
        UpdateSchemaView {
            title: self.title.deep_view(),
            content: self.content.deep_view(),
            completed: self.completed,
        }
    }
}

impl Clone for UpdateSchema {
    fn clone(&self) -> (res: UpdateSchema)
        ensures
            res@ == self@,
    {
        UpdateSchema {
            title: clone_text(&self.title),
            content: clone_text(&self.content),
            completed: self.completed,
        }
    }
}

/// The page of the list that a request asks for. Pages count from 1.
#[derive(Clone, Copy, Debug, PartialEq, Eq)]
pub struct QueryOptions {
    pub page: Option<usize>,
    pub limit: Option<usize>,
}

/// The store: the tasks in the order in which they were created.
pub type DB = Vec<Task>;

/// An empty store.
pub fn koyzon_db() -> (db: DB)
    ensures
        db.deep_view() == Seq::<TaskView>::empty(),
        titles_distinct(db.deep_view()),
{
    Vec::new()
}

} // verus!
