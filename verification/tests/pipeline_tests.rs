use task_sync::auth::AuthUser;
use task_sync::bus::{EventBus, RecvOutcome};
use task_sync::model::{ApiError, ChangeEvent, Task, UpdateTask};
use task_sync::pipeline::{
    create_applied, delete_applied, merge_patch, mutation_target, update_applied, StoreFault,
};

fn task(id: i32, title: &str, completed: bool, user_id: i32) -> Task {
    Task {
        id,
        title: title.to_string(),
        completed,
        category: "general".to_string(),
        created_at: 500,
        updated_at: 500,
        user_id,
    }
}

#[test]
fn successful_create_publishes_exactly_one_event() {
    let mut bus = EventBus::new();
    let s = bus.subscribe();
    let auth = AuthUser { user_id: 1 };
    let stored = task(3, "write tests", false, 1);
    let r = create_applied(&auth, &mut bus, Ok(stored));
    assert_eq!(r, Ok(task(3, "write tests", false, 1)));
    assert_eq!(
        bus.recv(s),
        RecvOutcome::Event(ChangeEvent::Created(task(3, "write tests", false, 1)))
    );
    assert_eq!(bus.recv(s), RecvOutcome::Empty);
}

#[test]
fn failed_store_write_publishes_nothing() {
    let mut bus = EventBus::new();
    let s = bus.subscribe();
    let auth = AuthUser { user_id: 1 };
    let r = create_applied(&auth, &mut bus, Err(StoreFault));
    assert_eq!(r, Err(ApiError::StoreFailure));
    assert_eq!(bus.recv(s), RecvOutcome::Empty);
}

#[test]
fn merge_keeps_fields_the_patch_omits() {
    let stored = task(1, "A", false, 1);
    let patch = UpdateTask { title: None, completed: Some(true), category: None };
    let merged = merge_patch(&stored, patch, 900);
    assert_eq!(merged.title, "A");
    assert!(merged.completed);
    assert_eq!(merged.category, "general");
    assert_eq!(merged.created_at, 500);
    assert_eq!(merged.updated_at, 900);
    assert_eq!(merged.user_id, 1);
}

#[test]
fn merge_replaces_fields_the_patch_carries() {
    let stored = task(1, "A", false, 1);
    let patch = UpdateTask {
        title: Some("B".to_string()),
        completed: Some(true),
        category: Some("urgent".to_string()),
    };
    let merged = merge_patch(&stored, patch, 900);
    assert_eq!(merged.title, "B");
    assert!(merged.completed);
    assert_eq!(merged.category, "urgent");
    assert_eq!(merged.id, 1);
}

#[test]
fn update_of_written_row_publishes_updated() {
    let mut bus = EventBus::new();
    let s = bus.subscribe();
    let r = update_applied(&mut bus, Ok(Some(task(1, "B", true, 1))));
    assert_eq!(r, Ok(task(1, "B", true, 1)));
    assert_eq!(bus.recv(s), RecvOutcome::Event(ChangeEvent::Updated(task(1, "B", true, 1))));
    assert_eq!(bus.recv(s), RecvOutcome::Empty);
}

#[test]
fn update_of_absent_row_is_not_found_and_silent() {
    let mut bus = EventBus::new();
    let s = bus.subscribe();
    assert_eq!(update_applied(&mut bus, Ok(None)), Err(ApiError::NotFound));
    assert_eq!(update_applied(&mut bus, Err(StoreFault)), Err(ApiError::StoreFailure));
    assert_eq!(bus.recv(s), RecvOutcome::Empty);
}

#[test]
fn delete_of_existing_row_publishes_deleted() {
    let mut bus = EventBus::new();
    let s = bus.subscribe();
    assert_eq!(delete_applied(&mut bus, 9, Ok(true)), Ok(()));
    assert_eq!(bus.recv(s), RecvOutcome::Event(ChangeEvent::Deleted(9)));
    assert_eq!(bus.recv(s), RecvOutcome::Empty);
}

#[test]
fn deleting_nonexistent_id_is_not_found_every_time() {
    let mut bus = EventBus::new();
    let s = bus.subscribe();
    assert_eq!(delete_applied(&mut bus, 9, Ok(false)), Err(ApiError::NotFound));
    assert_eq!(delete_applied(&mut bus, 9, Ok(false)), Err(ApiError::NotFound));
    assert_eq!(bus.recv(s), RecvOutcome::Empty);
}

#[test]
fn mutation_target_passes_own_item_through() {
    let auth = AuthUser { user_id: 1 };
    let r = mutation_target(&auth, Some(task(4, "mine", false, 1)));
    assert_eq!(r, Ok(task(4, "mine", false, 1)));
}

#[test]
fn mutation_target_hides_other_owners_items() {
    let auth = AuthUser { user_id: 2 };
    assert_eq!(mutation_target(&auth, Some(task(4, "theirs", false, 1))), Err(ApiError::NotFound));
    assert_eq!(mutation_target(&auth, None), Err(ApiError::NotFound));
}
