//! What a handler returns: a status and a body.

use vstd::prelude::*;
use crate::model::{Task, TaskView};

verus! {

/// The status under which a response goes out.
#[derive(Clone, Copy, Debug, PartialEq, Eq, Structural)]
pub enum Status {
    Success,
    Created,
    NoContent,
    NotFound,
    Conflict,
}

impl Status {
    /// The HTTP status code that stands for this status.
    pub open spec fn spec_code(self) -> u16 {
        match self {
            Status::Success => 200,
            Status::Created => 201,
            Status::NoContent => 204,
            Status::NotFound => 404,
            Status::Conflict => 409,
        }
    }

    /// The HTTP status code that stands for this status.
    #[verifier::when_used_as_spec(spec_code)]
    pub fn code(self) -> (c: u16)
        ensures
            c == self.spec_code(),
    {
        match self {
            Status::Success => 200,
            Status::Created => 201,
            Status::NoContent => 204,
            Status::NotFound => 404,
            Status::Conflict => 409,
        }
    }
}

/// A body that carries nothing but a message.
#[derive(Debug, PartialEq, Eq)]
pub struct GenericResponse {
    pub status: String,
    pub message: String,
}

pub struct GenericResponseView {
    pub status: Seq<char>,
    pub message: Seq<char>,
}

impl View for GenericResponse {
    type V = GenericResponseView;

    open spec fn view(&self) -> GenericResponseView {
        GenericResponseView { status: self.status@, message: self.message@ }
    }
}

/// The envelope round the task of a [`SingleTaskResponse`].
#[derive(Debug, PartialEq, Eq)]
pub struct TaskData {
    pub task: Task,
}

impl View for TaskData {
    type V = TaskView;

    open spec fn view(&self) -> TaskView {
        self.task@
    }
}

/// A body that carries one task.
#[derive(Debug, PartialEq, Eq)]
pub struct SingleTaskResponse {
    pub status: String,
    pub data: TaskData,
}

pub struct SingleTaskResponseView {
    pub status: Seq<char>,
    pub task: TaskView,
}

impl View for SingleTaskResponse {
    type V = SingleTaskResponseView;

    open spec fn view(&self) -> SingleTaskResponseView {
        SingleTaskResponseView { status: self.status@, task: self.data@ }
    }
}

/// A body that carries one page of the store.
#[derive(Debug, PartialEq, Eq)]
pub struct TaskListResponse {
    pub status: String,
    pub results: usize,
    pub tasks: Vec<Task>,
}

pub struct TaskListResponseView {
    pub status: Seq<char>,
    pub results: nat,
    pub tasks: Seq<TaskView>,
}

impl View for TaskListResponse {
    type V = TaskListResponseView;

    open spec fn view(&self) -> TaskListResponseView {
        TaskListResponseView {
            status: self.status@,
            results: self.results as nat,
            tasks: self.tasks.deep_view(),
        }
    }
}

/// The body of a response.
#[derive(Debug, PartialEq, Eq)]
pub enum Body {
    Empty,
    Message(GenericResponse),
    Task(SingleTaskResponse),
    TaskList(TaskListResponse),
}

pub enum BodyView {
    Empty,
    Message(GenericResponseView),
    Task(SingleTaskResponseView),
    TaskList(TaskListResponseView),
}

impl View for Body {
    type V = BodyView;

    open spec fn view(&self) -> BodyView {
        match self {
            Body::Empty => BodyView::Empty,
            Body::Message(m) => BodyView::Message(m@),
            Body::Task(t) => BodyView::Task(t@),
            Body::TaskList(l) => BodyView::TaskList(l@),
        }
    }
}

/// What a handler returns.
#[derive(Debug, PartialEq, Eq)]
pub struct Response {
    pub status: Status,
    pub body: Body,
}

pub struct ResponseView {
    pub status: Status,
    pub body: BodyView,
}

impl View for Response {
    type V = ResponseView;

    open spec fn view(&self) -> ResponseView {
        ResponseView { status: self.status, body: self.body@ }
    }
}

/// The word that marks a body as a success.
pub open spec fn success_word() -> Seq<char> {
    "success"@
}

/// The word that marks a body as a failure.
pub open spec fn fail_word() -> Seq<char> {
    "fail"@
}

/// The message that names an identifier that no task has.
pub open spec fn not_found_message(id: Seq<char>) -> Seq<char> {
    "Task with ID: "@ + id + " not found"@
}

/// The message that names a title that a task already has.
pub open spec fn conflict_message(title: Seq<char>) -> Seq<char> {
    "Task with title: '"@ + title + "' already exists"@
}

/// A success that carries a message.
pub open spec fn message_response(message: Seq<char>) -> ResponseView {
    ResponseView {
        status: Status::Success,
        body: BodyView::Message(GenericResponseView { status: success_word(), message }),
    }
}

/// A failure under the given status, with its message.
pub open spec fn failure_response(status: Status, message: Seq<char>) -> ResponseView {
    ResponseView {
        status,
        body: BodyView::Message(GenericResponseView { status: fail_word(), message }),
    }
}

/// A success under the given status that carries one task.
pub open spec fn task_response(status: Status, task: TaskView) -> ResponseView {
    ResponseView {
        status,
        body: BodyView::Task(SingleTaskResponseView { status: success_word(), task }),
    }
}

/// A success that carries a page of tasks and their number.
pub open spec fn list_response(tasks: Seq<TaskView>) -> ResponseView {
    ResponseView {
        status: Status::Success,
        body: BodyView::TaskList(
            TaskListResponseView { status: success_word(), results: tasks.len(), tasks },
        ),
    }
}

/// The response to a request for a task that the store does not hold.
pub open spec fn not_found_response(id: Seq<char>) -> ResponseView {
    failure_response(Status::NotFound, not_found_message(id))
}

/// The response to a request to create a task under a title that is taken.
pub open spec fn conflict_response(title: Seq<char>) -> ResponseView {
    failure_response(Status::Conflict, conflict_message(title))
}

/// The response to a request that leaves nothing to say.
pub open spec fn no_content_response() -> ResponseView {
    ResponseView { status: Status::NoContent, body: BodyView::Empty }
}

impl Response {
    /// A success that carries `message`.
    pub fn message(message: &str) -> (r: Response)
        ensures
            r@ == message_response(message@),
    {
        Response {
            status: Status::Success,
            body: Body::Message(
                GenericResponse { status: "success".to_owned(), message: message.to_owned() },
            ),
        }
    }

    /// A failure under `status` that carries `message`.
    pub fn failure(status: Status, message: String) -> (r: Response)
        ensures
            r@ == failure_response(status, message@),
    {
        Response {
            status,
            body: Body::Message(GenericResponse { status: "fail".to_owned(), message }),
        }
    }

    /// A success under `status` that carries `task`.
    pub fn task(status: Status, task: Task) -> (r: Response)
        ensures
            r@ == task_response(status, task@),
    {
        Response {
            status,
            body: Body::Task(
                SingleTaskResponse { status: "success".to_owned(), data: TaskData { task } },
            ),
        }
    }

    /// A success that carries `tasks` and their number.
    pub fn list(tasks: Vec<Task>) -> (r: Response)
        ensures
            r@ == list_response(tasks.deep_view()),
    {
        Response {
            status: Status::Success,
            body: Body::TaskList(
                TaskListResponse { status: "success".to_owned(), results: tasks.len(), tasks },
            ),
        }
    }

    /// The response to a request for the task `id`, which the store does not hold.
    pub fn not_found(id: &String) -> (r: Response)
        ensures
            r@ == not_found_response(id@),
    {
        let mut message = "Task with ID: ".to_owned();
        message.append(id.as_str());
        message.append(" not found");
        Response::failure(Status::NotFound, message)
    }

    /// The response to a request to create a task under `title`, which is taken.
    pub fn conflict(title: &String) -> (r: Response)
        ensures
            r@ == conflict_response(title@),
    {
        let mut message = "Task with title: '".to_owned();
        message.append(title.as_str());
        message.append("' already exists");
        Response::failure(Status::Conflict, message)
    }

    /// The response to a request that leaves nothing to say.
    pub fn no_content() -> (r: Response)
        ensures
            r@ == no_content_response(),
    {
        Response { status: Status::NoContent, body: Body::Empty }
    }
}

} // verus!
