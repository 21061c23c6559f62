//! The store itself: the items by id, with every operation stated exactly
//! over the map that the store stands for.

use crate::model::{
    after_create, after_delete, after_update, created_todo, lists, lookup, next_id, patched,
    well_formed,
};
use crate::repositories::{views_of, CreateTodo, RepositoryError, Todo, TodoView, UpdateTodo};
use std::collections::HashMap;
use vstd::prelude::*;
use vstd::std_specs::iter::IteratorSpec;

verus! {

/// The items of a store, each filed under its id.
pub struct TodoDates {
    items: HashMap<i32, Todo>,
}

impl View for TodoDates {
    type V = Map<i32, TodoView>;

    closed spec fn view(&self) -> Map<i32, TodoView> {
        self.items@.map_values(|todo: Todo| todo@)
    }
}

/// The id for an item created while `count` items are stored: `count + 1`,
/// which wraps to the negative numbers once it passes `i32::MAX`.
pub fn id_after(count: usize) -> (id: i32)
    ensures
        id == next_id(count as nat),
{
    let next: u64 = (count as u64).wrapping_add(1);
    let id: i32 = #[verifier::truncate] (next as i32);
    assert(id == next_id(count as nat)) by {
        let low: u64 = next % 0x1_0000_0000;
        assert(low < 0x8000_0000 ==> (next as i32) == low) by (bit_vector)
            requires
                low == next % 0x1_0000_0000,
        ;
        assert(low >= 0x8000_0000 ==> (next as i32) == low - 0x1_0000_0000) by (bit_vector)
            requires
                low == next % 0x1_0000_0000,
        ;
    }
    id
}

impl TodoDates {
    /// Every item is filed under its own id.
    pub open spec fn wf(&self) -> bool {
        well_formed(self@)
    }

    /// An empty store.
    pub fn new() -> (store: Self)
        ensures
            store.wf(),
            store@ == Map::<i32, TodoView>::empty(),
    {
        let store = TodoDates { items: HashMap::new() };
        assert(store@ =~= Map::<i32, TodoView>::empty());
        store
    }

    /// The number of stored items.
    pub fn len(&self) -> (count: usize)
        requires
            self.wf(),
        ensures
            count == self@.len(),
    {
        assert(self@.dom() =~= self.items@.dom());
        self.items.len()
    }

    /// Stores a new, uncompleted item with the payload's text under the next
    /// id, and returns a copy of it. An item already filed under that id is
    /// replaced.
    pub fn create(&mut self, payload: CreateTodo) -> (todo: Todo)
        requires
            old(self).wf(),
        ensures
            final(self).wf(),
            todo@ == created_todo(old(self)@, payload.text@),
            old(self)@.len() < i32::MAX ==> todo.id == old(self)@.len() + 1,
            final(self)@ == after_create(old(self)@, payload.text@),
    {
        assert(self@.dom() =~= self.items@.dom());
        let id = id_after(self.items.len());
        let todo = Todo::new(id, payload.text);
        self.items.insert(id, todo.clone());
        assert(self@ =~= after_create(old(self)@, payload.text@));
        todo
    }

    /// A copy of the item stored under `id`, or `None` when there is none.
    pub fn find(&self, id: i32) -> (found: Option<Todo>)
        requires
            self.wf(),
        ensures
            match found {
                Some(todo) => lookup(self@, id) == Some(todo@),
                None => lookup(self@, id) == None::<TodoView>,
            },
    {
        match self.items.get(&id) {
            Some(todo) => Some(todo.clone()),
            None => None,
        }
    }

    /// Copies of all stored items, each once, in no particular order.
    pub fn all(&self) -> (todos: Vec<Todo>)
        requires
            self.wf(),
        ensures
            lists(views_of(todos@), self@),
    {
        let mut todos: Vec<Todo> = Vec::new();
        let ghost pairs = self.items.iter().remaining();
        for entry in entries: self.items.iter()
            invariant
                entries.seq() == pairs,
                pairs.no_duplicates(),
                todos.len() == entries.index(),
                forall|i: int| 0 <= i < todos.len() ==> todos[i]@ == (*pairs[i].1)@,
        {
            todos.push(entry.1.clone());
        }
        proof {
            let listed = views_of(todos@);
            assert(self@.dom() =~= self.items@.dom());
            assert forall|i: int| 0 <= i < listed.len() implies self@.contains_key(
                (#[trigger] listed[i]).id,
            ) && self@[listed[i].id] == listed[i] && listed[i].id == *pairs[i].0 by {
                let id = *pairs[i].0;
                assert(self.items@[id] == *pairs[i].1);
                assert(self@[id] == listed[i]);
            }
            assert forall|id: i32| self@.contains_key(id) implies listed.contains(
                #[trigger] self@[id],
            ) by {
                let i = pairs.index_of((&id, &self.items@[id]));
                assert(listed[i] == self@[id]);
            }
            assert forall|i: int, j: int| 0 <= i < j < listed.len() implies (#[trigger] listed[i]).id
                != (#[trigger] listed[j]).id by {
                if listed[i].id == listed[j].id {
                    assert(self.items@[*pairs[i].0] == *pairs[i].1);
                    assert(self.items@[*pairs[j].0] == *pairs[j].1);
                    assert(pairs[i] == pairs[j]);
                }
            }
        }
        todos
    }

    /// Replaces the fields that the payload names in the item stored under
    /// `id`, and returns a copy of the new item. Fails, and changes nothing,
    /// when no item is stored under `id`.
    pub fn update(&mut self, id: i32, payload: UpdateTodo) -> (result: Result<Todo, RepositoryError>)
        requires
            old(self).wf(),
        ensures
            final(self).wf(),
            final(self)@ == after_update(old(self)@, id, payload@),
            result is Err ==> final(self)@ == old(self)@,
            match result {
                Ok(todo) => old(self)@.contains_key(id) && todo@ == patched(
                    old(self)@[id],
                    payload@,
                ),
                Err(error) => !old(self)@.contains_key(id) && error == RepositoryError::NotFound(
                    id,
                ),
            },
    {
        let (text, completed) = match self.items.get(&id) {
            Some(current) => {
                let text = match payload.text {
                    Some(text) => text,
                    None => current.text.clone(),
                };
                let completed = match payload.completed {
                    Some(completed) => completed,
                    None => current.completed,
                };
                (text, completed)
            },
            None => {
                return Err(RepositoryError::NotFound(id));
            },
        };
        let todo = Todo { id, text, completed };
        self.items.insert(id, todo.clone());
        assert(self@ =~= after_update(old(self)@, id, payload@));
        Ok(todo)
    }

    /// Removes the item stored under `id`. Fails, and changes nothing, when
    /// no item is stored under `id`.
    pub fn delete(&mut self, id: i32) -> (result: Result<(), RepositoryError>)
        requires
            old(self).wf(),
        ensures
            final(self).wf(),
            final(self)@ == after_delete(old(self)@, id),
            result is Err ==> final(self)@ == old(self)@,
            match result {
                Ok(()) => old(self)@.contains_key(id),
                Err(error) => !old(self)@.contains_key(id) && error == RepositoryError::NotFound(
                    id,
                ),
            },
    {
        let removed = self.items.remove(&id);
        assert(self@ =~= after_delete(old(self)@, id));
        match removed {
            Some(_) => Ok(()),
            None => Err(RepositoryError::NotFound(id)),
        }
    }
}

} // verus!
