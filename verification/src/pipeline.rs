//! The mutation pipeline: apply a change through the store, then publish
//! the matching event exactly once.
//!
//! The store itself is an external collaborator; each function here takes
//! the store's reply as a value and decides what the caller gets and what,
//! if anything, is published. Publishing happens only after a write the
//! store has acknowledged, and never on a failed or empty one — so a caller
//! that sees success knows the event is already in the bus's history.

use vstd::prelude::*;

use crate::auth::AuthUser;
use crate::bus::{publish_transition, EventBus};
use crate::model::{ApiError, ChangeEvent, EventView, Task, UpdateTask};

verus! {

/// A failed store operation. Its detail stays server-side; callers only
/// ever see a generic internal failure.
#[derive(Clone, Copy, Debug, PartialEq, Eq, Structural)]
pub struct StoreFault;

/// Whether the caller owns the item and so may mutate it.
pub fn can_mutate(auth: &AuthUser, owner_id: i32) -> (r: bool)
    ensures
        r == (auth.user_id == owner_id),
{
    auth.user_id == owner_id
}

/// Gate an update or delete on the fetched current item: an absent item is
/// NotFound; an item owned by someone else is reported as NotFound as well,
/// so a caller learns nothing about other owners' items; the caller's own
/// item passes through.
pub fn mutation_target(auth: &AuthUser, current: Option<Task>) -> (r: Result<Task, ApiError>)
    ensures
        match current {
            Some(t) => if t.user_id == auth.user_id {
                r matches Ok(rt) && rt@ == t@
            } else {
                r == Err::<Task, ApiError>(ApiError::NotFound)
            },
            None => r == Err::<Task, ApiError>(ApiError::NotFound),
        },
{
    match current {
        Some(t) => {
            if can_mutate(auth, t.user_id) {
                Ok(t)
            } else {
                Err(ApiError::NotFound)
            }
        },
        None => Err(ApiError::NotFound),
    }
}

/// Merge a partial update over the stored task: a field present in the
/// patch replaces the stored value, an absent field keeps it. Identity,
/// owner, and creation time are kept; `updated_at` becomes `now`.
pub fn merge_patch(current: &Task, patch: UpdateTask, now: i64) -> (r: Task)
    ensures
        r.id == current.id,
        r@.title == (match patch.title {
            Some(t) => t@,
            None => current@.title,
        }),
        r.completed == (match patch.completed {
            Some(c) => c,
            None => current.completed,
        }),
        r@.category == (match patch.category {
            Some(c) => c@,
            None => current@.category,
        }),
        r.created_at == current.created_at,
        r.updated_at == now,
        r.user_id == current.user_id,
{
    Task {
        id: current.id,
        title: match patch.title {
            Some(t) => t,
            None => current.title.clone(),
        },
        completed: match patch.completed {
            Some(c) => c,
            None => current.completed,
        },
        category: match patch.category {
            Some(c) => c,
            None => current.category.clone(),
        },
        created_at: current.created_at,
        updated_at: now,
        user_id: current.user_id,
    }
}

/// Complete a create from the store's reply: an acknowledged insert is
/// published exactly once as `Created` and the stored task is returned; a
/// failed insert publishes nothing and surfaces a generic internal failure.
pub fn create_applied(auth: &AuthUser, bus: &mut EventBus, stored: Result<Task, StoreFault>) -> (r:
    Result<Task, ApiError>)
    requires
        old(bus).inv(),
        old(bus)@.history.len() < u64::MAX,
        stored matches Ok(t) ==> t.user_id == auth.user_id,
    ensures
        final(bus).inv(),
        match stored {
            Ok(t) => {
                &&& r matches Ok(rt) && rt@ == t@ && rt.user_id == auth.user_id
                &&& final(bus)@ == publish_transition(old(bus)@, EventView::Created(t@))
            },
            Err(_) => {
                &&& r == Err::<Task, ApiError>(ApiError::StoreFailure)
                &&& *final(bus) == *old(bus)
            },
        },
{
    match stored {
        Ok(t) => {
            let out = t.clone();
            bus.publish(ChangeEvent::Created(t));
            Ok(out)
        },
        Err(_) => Err(ApiError::StoreFailure),
    }
}

/// Complete an update from the store's write-back reply: a written task is
/// published exactly once as `Updated` and returned; an absent row is
/// NotFound; either failure publishes nothing.
pub fn update_applied(bus: &mut EventBus, written: Result<Option<Task>, StoreFault>) -> (r: Result<
    Task,
    ApiError,
>)
    requires
        old(bus).inv(),
        old(bus)@.history.len() < u64::MAX,
    ensures
        final(bus).inv(),
        match written {
            Ok(Some(t)) => {
                &&& r matches Ok(rt) && rt@ == t@
                &&& final(bus)@ == publish_transition(old(bus)@, EventView::Updated(t@))
            },
            Ok(None) => {
                &&& r == Err::<Task, ApiError>(ApiError::NotFound)
                &&& *final(bus) == *old(bus)
            },
            Err(_) => {
                &&& r == Err::<Task, ApiError>(ApiError::StoreFailure)
                &&& *final(bus) == *old(bus)
            },
        },
{
    match written {
        Ok(Some(t)) => {
            let out = t.clone();
            bus.publish(ChangeEvent::Updated(t));
            Ok(out)
        },
        Ok(None) => Err(ApiError::NotFound),
        Err(_) => Err(ApiError::StoreFailure),
    }
}

/// Complete a delete from the store's reply: only a delete that removed a
/// row is published, exactly once, as `Deleted`; deleting an absent id is
/// NotFound — every time it is attempted — and publishes nothing.
pub fn delete_applied(bus: &mut EventBus, id: i32, deleted: Result<bool, StoreFault>) -> (r: Result<
    (),
    ApiError,
>)
    requires
        old(bus).inv(),
        old(bus)@.history.len() < u64::MAX,
    ensures
        final(bus).inv(),
        match deleted {
            Ok(true) => {
                &&& r is Ok
                &&& final(bus)@ == publish_transition(old(bus)@, EventView::Deleted(id))
            },
            Ok(false) => {
                &&& r == Err::<(), ApiError>(ApiError::NotFound)
                &&& *final(bus) == *old(bus)
            },
            Err(_) => {
                &&& r == Err::<(), ApiError>(ApiError::StoreFailure)
                &&& *final(bus) == *old(bus)
            },
        },
{
    match deleted {
        Ok(true) => {
            bus.publish(ChangeEvent::Deleted(id));
            Ok(())
        },
        Ok(false) => Err(ApiError::NotFound),
        Err(_) => Err(ApiError::StoreFailure),
    }
}

} // verus!
