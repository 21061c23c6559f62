//! The store as a mathematical map from id to item, and what each operation
//! does to it. The executable store and the laws are stated over these
//! functions.

use crate::repositories::{TodoView, UpdateTodoView};
use vstd::prelude::*;

verus! {

/// A store is valid when it holds finitely many items and files each item
/// under its own id.
pub open spec fn well_formed(store: Map<i32, TodoView>) -> bool {
    &&& store.dom().finite()
    &&& forall|id: i32| store.contains_key(id) ==> (#[trigger] store[id]).id == id
}

/// The id given to an item created while `count` items are stored: `count + 1`,
/// kept to its low 32 bits and read as a signed number.
pub open spec fn next_id(count: nat) -> i32 {
    let low = (count + 1) % 0x1_0000_0000;
    if low < 0x8000_0000 {
        low as i32
    } else {
        (low - 0x1_0000_0000) as i32
    }
}

/// The item that a creation with `text` adds to `store`.
pub open spec fn created_todo(store: Map<i32, TodoView>, text: Seq<char>) -> TodoView {
    TodoView { id: next_id(store.len()), text, completed: false }
}

/// The store after a creation with `text`.
pub open spec fn after_create(store: Map<i32, TodoView>, text: Seq<char>) -> Map<i32, TodoView> {
    store.insert(next_id(store.len()), created_todo(store, text))
}

/// The item stored under `id`, if there is one.
pub open spec fn lookup(store: Map<i32, TodoView>, id: i32) -> Option<TodoView> {
    if store.contains_key(id) {
        Some(store[id])
    } else {
        None
    }
}

/// `current` with the fields that `patch` names replaced.
pub open spec fn patched(current: TodoView, patch: UpdateTodoView) -> TodoView {
    TodoView {
        id: current.id,
        text: match patch.text {
            Some(text) => text,
            None => current.text,
        },
        completed: match patch.completed {
            Some(completed) => completed,
            None => current.completed,
        },
    }
}

/// The store after an update of `id` with `patch`: unchanged when `id` is
/// not stored.
pub open spec fn after_update(store: Map<i32, TodoView>, id: i32, patch: UpdateTodoView) -> Map<
    i32,
    TodoView,
> {
    if store.contains_key(id) {
        store.insert(id, patched(store[id], patch))
    } else {
        store
    }
}

/// The store after a deletion of `id`: unchanged when `id` is not stored.
pub open spec fn after_delete(store: Map<i32, TodoView>, id: i32) -> Map<i32, TodoView> {
    store.remove(id)
}

/// One change to a store: what a creation, an update or a deletion was
/// called with.
pub enum Change {
    Create(Seq<char>),
    Update(i32, UpdateTodoView),
    Delete(i32),
}

/// The store after `change`.
pub open spec fn after_change(store: Map<i32, TodoView>, change: Change) -> Map<i32, TodoView> {
    match change {
        Change::Create(text) => after_create(store, text),
        Change::Update(id, patch) => after_update(store, id, patch),
        Change::Delete(id) => after_delete(store, id),
    }
}

/// The store after `changes`, in order.
pub open spec fn after_changes(store: Map<i32, TodoView>, changes: Seq<Change>) -> Map<
    i32,
    TodoView,
>
    decreases changes.len(),
{
    if changes.len() == 0 {
        store
    } else {
        after_change(after_changes(store, changes.drop_last()), changes.last())
    }
}

/// `store` is what some sequence of creations, updates and deletions makes
/// of `start`.
pub open spec fn made_from(start: Map<i32, TodoView>, store: Map<i32, TodoView>) -> bool {
    exists|changes: Seq<Change>| #[trigger] after_changes(start, changes) == store
}

/// `todos` lists `store`: every stored item once, in any order, and nothing
/// else.
pub open spec fn lists(todos: Seq<TodoView>, store: Map<i32, TodoView>) -> bool {
    &&& todos.len() == store.len()
    &&& forall|i: int|
        0 <= i < todos.len() ==> store.contains_key((#[trigger] todos[i]).id) && store[todos[i].id]
            == todos[i]
    &&& forall|id: i32| store.contains_key(id) ==> todos.contains(#[trigger] store[id])
    &&& forall|i: int, j: int|
        0 <= i < j < todos.len() ==> (#[trigger] todos[i]).id != (#[trigger] todos[j]).id
}

/// The store after one creation for each of `texts`, in order.
pub open spec fn after_creates(store: Map<i32, TodoView>, texts: Seq<Seq<char>>) -> Map<
    i32,
    TodoView,
>
    decreases texts.len(),
{
    if texts.len() == 0 {
        store
    } else {
        after_create(after_creates(store, texts.drop_last()), texts.last())
    }
}

/// The item that the `k`-th of the creations for `texts` adds to an empty
/// store.
pub open spec fn nth_created(texts: Seq<Seq<char>>, k: int) -> TodoView {
    TodoView { id: next_id(k as nat), text: texts[k], completed: false }
}

/// `todo` is one of the items that the creations for `texts` add to an empty
/// store.
pub open spec fn created_among(texts: Seq<Seq<char>>, todo: TodoView) -> bool {
    exists|k: int| 0 <= k < texts.len() && #[trigger] nth_created(texts, k) == todo
}

} // verus!
