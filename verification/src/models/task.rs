//! The task records that callers keep in a collection.

use vstd::prelude::*;
use vstd::std_specs::convert::FromSpecImpl;
use bson::oid::ObjectId;
use bson::UtcDateTime;

verus! {

/// A task as it is stored: the fields of an `InsertableTask`, and the
/// identifier that the server assigned on insertion.
#[derive(Debug, Clone)]
pub struct Task {
    pub id: ObjectId,
    pub title: String,
    pub category: String,
    pub date_created: UtcDateTime,
    pub due_date: UtcDateTime,
    pub completed: bool,
}

/// A task before it is stored. It has no identifier yet: the server assigns
/// one when the task is inserted.
#[derive(Debug, Clone)]
pub struct InsertableTask {
    pub title: String,
    pub category: String,
    pub date_created: UtcDateTime,
    pub due_date: UtcDateTime,
    pub completed: bool,
}

impl InsertableTask {
    pub fn new(
        title: String,
        category: String,
        date_created: UtcDateTime,
        due_date: UtcDateTime,
        completed: bool,
    ) -> (task: Self)
        ensures
            task == (InsertableTask { title, category, date_created, due_date, completed }),
    {
        Self { title, category, date_created, due_date, completed }
    }
}

impl FromSpecImpl<Task> for InsertableTask {
    open spec fn obeys_from_spec() -> bool {
        true
    }

    /// A stored task without its identifier.
    open spec fn from_spec(task: Task) -> Self {
        InsertableTask {
            title: task.title,
            category: task.category,
            date_created: task.date_created,
            due_date: task.due_date,
            completed: task.completed,
        }
    }
}

/// Drops the identifier of a stored task and keeps every other field.
impl From<Task> for InsertableTask {
    fn from(task: Task) -> (insertable: Self) {
        Self {
            title: task.title,
            category: task.category,
            date_created: task.date_created,
            due_date: task.due_date,
            completed: task.completed,
        }
    }
}

} // verus!
