use bson::oid::ObjectId;
use bson::UtcDateTime;
use chrono::{TimeZone, Utc};
use mongo_crud::models::task::{InsertableTask, Task};

fn at(seconds: i64) -> UtcDateTime {
    UtcDateTime(Utc.timestamp_opt(seconds, 0).unwrap())
}

#[test]
fn new_task_keeps_every_field() {
    let task = InsertableTask::new(
        "Pay AmeX bill".to_string(),
        "Bill".to_string(),
        at(1_587_000_000),
        at(1_588_075_209),
        false,
    );
    assert_eq!(task.title, "Pay AmeX bill");
    assert_eq!(task.category, "Bill");
    assert_eq!(task.date_created, at(1_587_000_000));
    assert_eq!(task.due_date, at(1_588_075_209));
    assert!(!task.completed);
}

#[test]
fn stored_task_loses_only_its_identifier() {
    let stored = Task {
        id: ObjectId::with_bytes([9; 12]),
        title: "Pay bill".to_string(),
        category: "Bill".to_string(),
        date_created: at(10),
        due_date: at(20),
        completed: true,
    };
    let insertable = InsertableTask::from(stored.clone());
    assert_eq!(insertable.title, stored.title);
    assert_eq!(insertable.category, stored.category);
    assert_eq!(insertable.date_created, stored.date_created);
    assert_eq!(insertable.due_date, stored.due_date);
    assert_eq!(insertable.completed, stored.completed);
}

#[test]
fn cloned_task_holds_the_same_fields() {
    let stored = Task {
        id: ObjectId::with_bytes([3; 12]),
        title: "Water plants".to_string(),
        category: "Home".to_string(),
        date_created: at(100),
        due_date: at(200),
        completed: false,
    };
    let copy = stored.clone();
    assert_eq!(copy.id, stored.id);
    assert_eq!(copy.title, stored.title);
    assert_eq!(copy.date_created, stored.date_created);
    assert_eq!(copy.due_date, stored.due_date);
    let insertable = InsertableTask::from(copy).clone();
    assert_eq!(insertable.title, "Water plants");
    assert_eq!(insertable.due_date, at(200));
}
