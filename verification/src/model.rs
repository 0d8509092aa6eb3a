//! Data model: tasks, users, change events, and the error taxonomy.

use vstd::prelude::*;

verus! {

/// Caller-facing failure taxonomy. `StoreFailure` stands for any underlying
/// persistence or signing failure, surfaced as a generic internal failure.
#[derive(Clone, Copy, Debug, PartialEq, Eq, Structural)]
pub enum ApiError {
    AuthRejected,
    NotFound,
    InvalidCredentials,
    StoreFailure,
}

/// A stored task. Timestamps are unix seconds.
#[derive(Debug, PartialEq)]
pub struct Task {
    pub id: i32,
    pub title: String,
    pub completed: bool,
    pub category: String,
    pub created_at: i64,
    pub updated_at: i64,
    pub user_id: i32,
}

/// Mathematical image of a `Task`: the same fields with strings as
/// character sequences.
pub struct TaskView {
    pub id: i32,
    pub title: Seq<char>,
    pub completed: bool,
    pub category: Seq<char>,
    pub created_at: i64,
    pub updated_at: i64,
    pub user_id: i32,
}

impl View for Task {
    type V = TaskView;

    open spec fn view(&self) -> TaskView {
        TaskView {
            id: self.id,
            title: self.title@,
            completed: self.completed,
            category: self.category@,
            created_at: self.created_at,
            updated_at: self.updated_at,
            user_id: self.user_id,
        }
    }
}

impl Clone for Task {
    fn clone(&self) -> (res: Self)
        ensures
            res@ == self@,
    {
        Task {
            id: self.id,
            title: self.title.clone(),
            completed: self.completed,
            category: self.category.clone(),
            created_at: self.created_at,
            updated_at: self.updated_at,
            user_id: self.user_id,
        }
    }
}

/// A request to create a task, owned by the authenticated caller.
#[derive(Debug)]
pub struct CreateTask {
    pub title: String,
    pub completed: bool,
    pub category: String,
}

/// A partial update. A field left `None` keeps the stored value.
#[derive(Debug)]
pub struct UpdateTask {
    pub title: Option<String>,
    pub completed: Option<bool>,
    pub category: Option<String>,
}

/// A registered account. The password itself is never stored.
#[derive(Debug, PartialEq)]
pub struct User {
    pub id: i32,
    pub username: String,
    pub password_hash: String,
}

/// Registration input.
#[derive(Debug)]
pub struct CreateUser {
    pub username: String,
    pub password: String,
}

/// Login input.
#[derive(Debug)]
pub struct LoginUser {
    pub username: String,
    pub password: String,
}

/// One accepted mutation, broadcast to every live subscriber.
#[derive(Debug, PartialEq)]
pub enum ChangeEvent {
    Created(Task),
    Updated(Task),
    Deleted(i32),
}

/// Mathematical image of a `ChangeEvent`.
pub enum EventView {
    Created(TaskView),
    Updated(TaskView),
    Deleted(i32),
}

impl View for ChangeEvent {
    type V = EventView;

    open spec fn view(&self) -> EventView {
        match self {
            ChangeEvent::Created(t) => EventView::Created(t@),
            ChangeEvent::Updated(t) => EventView::Updated(t@),
            ChangeEvent::Deleted(id) => EventView::Deleted(*id),
        }
    }
}

impl Clone for ChangeEvent {
    fn clone(&self) -> (res: Self)
        ensures
            res@ == self@,
    {
        match self {
            ChangeEvent::Created(t) => ChangeEvent::Created(t.clone()),
            ChangeEvent::Updated(t) => ChangeEvent::Updated(t.clone()),
            ChangeEvent::Deleted(id) => ChangeEvent::Deleted(*id),
        }
    }
}

} // verus!
