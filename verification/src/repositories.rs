//! The item and the commands on it, what a repository of items offers, and
//! the repository that keeps its items in memory.

use crate::laws::{law_made_from_itself, law_made_from_one_more};
use crate::model::{created_todo, lists, lookup, made_from, patched, well_formed, Change};
use crate::store::TodoDates;
use std::sync::Arc;
use vstd::prelude::*;
use vstd::rwlock::{ReadHandle, RwLock, RwLockPredicate, WriteHandle};

verus! {

/// The mathematical value of a [`Todo`].
pub struct TodoView {
    pub id: i32,
    pub text: Seq<char>,
    pub completed: bool,
}

/// A to-do item. Its identity is `id`, which the repository assigns.
#[derive(Debug)]
pub struct Todo {
    pub id: i32,
    pub text: String,
    pub completed: bool,
}

impl View for Todo {
    type V = TodoView;

    open spec fn view(&self) -> TodoView {
        TodoView { id: self.id, text: self.text@, completed: self.completed }
    }
}

impl Todo {
    /// A fresh item: never completed.
    pub fn new(id: i32, text: String) -> (todo: Self)
        ensures
            todo@ == (TodoView { id, text: text@, completed: false }),
    {
        Self { id, text, completed: false }
    }
}

impl Clone for Todo {
    fn clone(&self) -> (copy: Self)
        ensures
            copy@ == self@,
    {
        Self { id: self.id, text: self.text.clone(), completed: self.completed }
    }
}

impl PartialEq for Todo {
    fn eq(&self, other: &Self) -> (equal: bool) {
        self.id == other.id && self.text == other.text && self.completed == other.completed
    }
}

impl vstd::std_specs::cmp::PartialEqSpecImpl for Todo {
    open spec fn obeys_eq_spec() -> bool {
        true
    }

    open spec fn eq_spec(&self, other: &Self) -> bool {
        self@ == other@
    }
}

impl Eq for Todo {}

/// The mathematical values of a list of items, in the order of the list.
pub open spec fn views_of(todos: Seq<Todo>) -> Seq<TodoView> {
    todos.map_values(|todo: Todo| todo@)
}

/// The input of a creation: the text alone. The repository chooses the id,
/// and a new item is never completed.
#[derive(Debug)]
pub struct CreateTodo {
    pub text: String,
}

impl CreateTodo {
    pub fn new(text: String) -> (payload: Self)
        ensures
            payload.text@ == text@,
    {
        Self { text }
    }
}

impl Clone for CreateTodo {
    fn clone(&self) -> (copy: Self)
        ensures
            copy.text@ == self.text@,
    {
        Self { text: self.text.clone() }
    }
}

impl PartialEq for CreateTodo {
    fn eq(&self, other: &Self) -> (equal: bool) {
        self.text == other.text
    }
}

impl vstd::std_specs::cmp::PartialEqSpecImpl for CreateTodo {
    open spec fn obeys_eq_spec() -> bool {
        true
    }

    open spec fn eq_spec(&self, other: &Self) -> bool {
        self.text@ == other.text@
    }
}

impl Eq for CreateTodo {}

/// The mathematical value of an [`UpdateTodo`].
pub struct UpdateTodoView {
    pub text: Option<Seq<char>>,
    pub completed: Option<bool>,
}

/// A partial patch: a field that is `None` leaves the item's field as it is.
#[derive(Debug)]
pub struct UpdateTodo {
    pub text: Option<String>,
    pub completed: Option<bool>,
}

impl View for UpdateTodo {
    type V = UpdateTodoView;

    open spec fn view(&self) -> UpdateTodoView {
        UpdateTodoView {
            text: match self.text {
                Some(text) => Some(text@),
                None => None,
            },
            completed: self.completed,
        }
    }
}

impl Clone for UpdateTodo {
    fn clone(&self) -> (copy: Self)
        ensures
            copy@ == self@,
    {
        let text = match &self.text {
            Some(text) => Some(text.clone()),
            None => None,
        };
        Self { text, completed: self.completed }
    }
}

impl PartialEq for UpdateTodo {
    fn eq(&self, other: &Self) -> (equal: bool) {
        let same_text = match &self.text {
            Some(mine) => match &other.text {
                Some(theirs) => *mine == *theirs,
                None => false,
            },
            None => other.text.is_none(),
        };
        same_text && self.completed == other.completed
    }
}

impl vstd::std_specs::cmp::PartialEqSpecImpl for UpdateTodo {
    open spec fn obeys_eq_spec() -> bool {
        true
    }

    open spec fn eq_spec(&self, other: &Self) -> bool {
        self@ == other@
    }
}

impl Eq for UpdateTodo {}

/// Why a repository operation failed.
#[derive(Debug, Clone, Copy, PartialEq, Eq, Structural)]
pub enum RepositoryError {
    /// No item with this id is stored.
    NotFound(i32),
    /// The backend could not carry the operation out.
    Internal,
}

/// What every backend of the to-do store offers. A backend is shared by
/// concurrent callers, so each contract states what holds of the result
/// whatever the other callers did in between.
pub trait TodoRepository: Clone + Send + Sync + 'static {
    /// Stores a new, uncompleted item with the payload's text under an id of
    /// the backend's choice, and returns a copy of it.
    fn create(&self, payload: CreateTodo) -> (todo: Todo)
        ensures
            todo.text@ == payload.text@,
            !todo.completed,
    ;

    /// A copy of the item stored under `id`, or `None` when there is none.
    fn find(&self, id: i32) -> (found: Option<Todo>)
        ensures
            found matches Some(todo) ==> todo.id == id,
    ;

    /// Copies of all stored items, each once, in no particular order.
    fn all(&self) -> (todos: Vec<Todo>)
        ensures
            forall|i: int, j: int|
                0 <= i < j < todos.len() ==> (#[trigger] todos[i]).id != (#[trigger] todos[j]).id,
    ;

    /// Replaces the fields that the payload names in the item stored under
    /// `id`, and returns a copy of the new item.
    fn update(&self, id: i32, payload: UpdateTodo) -> (result: Result<Todo, RepositoryError>)
        ensures
            match result {
                Ok(todo) => {
                    &&& todo.id == id
                    &&& payload.text matches Some(text) ==> todo.text@ == text@
                    &&& payload.completed matches Some(completed) ==> todo.completed == completed
                },
                Err(RepositoryError::NotFound(missing)) => missing == id,
                Err(RepositoryError::Internal) => true,
            },
    ;

    /// Removes the item stored under `id`.
    fn delete(&self, id: i32) -> (result: Result<(), RepositoryError>)
        ensures
            result matches Err(RepositoryError::NotFound(missing)) ==> missing == id,
    ;
}

/// What the lock of [`TodoRepositoryForMemory`] keeps true of the store it
/// guards: the store is valid, and it is what creations, updates and
/// deletions have made of `start`, the contents that the lock was made with.
pub struct ValidStore {
    pub start: Map<i32, TodoView>,
}

impl RwLockPredicate<TodoDates> for ValidStore {
    open spec fn inv(self, store: TodoDates) -> bool {
        store.wf() && made_from(self.start, store@)
    }
}

/// The store in memory, behind a reader/writer lock. Clones share one store.
pub struct TodoRepositoryForMemory {
    store: Arc<RwLock<TodoDates, ValidStore>>,
}

/// `Arc::clone` of std: the new pointer goes to the same allocation as
/// `store`, so both stand for one and the same lock. Nothing is proved of
/// this; it is what std documents.
#[verifier::external_body]
fn share(store: &Arc<RwLock<TodoDates, ValidStore>>) -> (shared: Arc<RwLock<TodoDates, ValidStore>>)
    ensures
        *shared == **store,
{
    Arc::clone(store)
}

impl Clone for TodoRepositoryForMemory {
    /// Another handle on the same store.
    fn clone(&self) -> (copy: Self)
        ensures
            copy.lock() == self.lock(),
            copy.start() == self.start(),
    {
        TodoRepositoryForMemory { store: share(&self.store) }
    }
}

impl TodoRepositoryForMemory {
    /// The lock that guards the store.
    pub closed spec fn lock(&self) -> RwLock<TodoDates, ValidStore> {
        *self.store
    }

    /// What the store held when the repository was made. All that it holds
    /// later is made from this by creations, updates and deletions.
    pub closed spec fn start(&self) -> Map<i32, TodoView> {
        self.store.pred().start
    }

    /// A repository over a store that starts empty.
    pub fn new() -> (repository: Self)
        ensures
            repository.start() == Map::<i32, TodoView>::empty(),
    {
        let store = TodoDates::new();
        proof {
            law_made_from_itself(store@);
        }
        TodoRepositoryForMemory {
            store: Arc::new(RwLock::new(store, Ghost(ValidStore { start: Map::empty() }))),
        }
    }

    /// Takes the lock for writing and hands out the store. The caller gives
    /// the store back, valid and made from the start, when it releases the
    /// handle.
    pub fn write_store_ref(&self) -> (guard: (TodoDates, WriteHandle<'_, TodoDates, ValidStore>))
        ensures
            guard.0.wf(),
            made_from(self.start(), guard.0@),
            guard.1.rwlock() == self.lock(),
    {
        self.store.acquire_write()
    }

    /// Takes the lock for reading. The store that the handle shows is valid
    /// and made from the start.
    pub fn read_store_ref(&self) -> (guard: ReadHandle<'_, TodoDates, ValidStore>)
        ensures
            guard.view().wf(),
            made_from(self.start(), guard.view()@),
            guard.rwlock() == self.lock(),
    {
        self.store.acquire_read()
    }
}

impl TodoRepository for TodoRepositoryForMemory {
    /// Runs [`TodoDates::create`] under the write lock: the item is the one
    /// created on the store as it stood when the lock was taken.
    fn create(&self, payload: CreateTodo) -> (todo: Todo)
        ensures
            exists|store: Map<i32, TodoView>| #[trigger]
                made_from(self.start(), store) && well_formed(store) && todo@ == created_todo(
                    store,
                    payload.text@,
                ),
    {
        let (mut store, guard) = self.write_store_ref();
        let ghost before = store@;
        proof {
            law_made_from_one_more(self.start(), before, Change::Create(payload.text@));
        }
        let todo = store.create(payload);
        guard.release_write(store);
        assert(made_from(self.start(), before));
        todo
    }

    /// Runs [`TodoDates::find`] under the read lock: the result is the
    /// lookup in the store as it stood when the lock was taken.
    fn find(&self, id: i32) -> (found: Option<Todo>)
        ensures
            exists|store: Map<i32, TodoView>| #[trigger]
                made_from(self.start(), store) && well_formed(store) && match found {
                    Some(todo) => lookup(store, id) == Some(todo@),
                    None => lookup(store, id) == None::<TodoView>,
                },
    {
        let guard = self.read_store_ref();
        let found = guard.borrow().find(id);
        assert(made_from(self.start(), guard.view()@));
        guard.release_read();
        found
    }

    /// Runs [`TodoDates::all`] under the read lock: the result lists the
    /// store as it stood when the lock was taken.
    fn all(&self) -> (todos: Vec<Todo>)
        ensures
            exists|store: Map<i32, TodoView>| #[trigger]
                made_from(self.start(), store) && well_formed(store) && lists(
                    views_of(todos@),
                    store,
                ),
    {
        let guard = self.read_store_ref();
        let todos = guard.borrow().all();
        assert(made_from(self.start(), guard.view()@));
        guard.release_read();
        proof {
            let listed = views_of(todos@);
            assert forall|i: int, j: int| 0 <= i < j < todos.len() implies (#[trigger] todos[i]).id
                != (#[trigger] todos[j]).id by {
                assert(listed[i].id == todos[i].id);
                assert(listed[j].id == todos[j].id);
            }
        }
        todos
    }

    /// Runs [`TodoDates::update`] under the write lock: the result is that
    /// of the update on the store as it stood when the lock was taken. The
    /// only failure is that no item is stored under `id`.
    fn update(&self, id: i32, payload: UpdateTodo) -> (result: Result<Todo, RepositoryError>)
        ensures
            exists|store: Map<i32, TodoView>| #[trigger]
                made_from(self.start(), store) && well_formed(store) && match result {
                    Ok(todo) => store.contains_key(id) && todo@ == patched(store[id], payload@),
                    Err(error) => !store.contains_key(id) && error == RepositoryError::NotFound(
                        id,
                    ),
                },
    {
        let (mut store, guard) = self.write_store_ref();
        let ghost before = store@;
        proof {
            law_made_from_one_more(self.start(), before, Change::Update(id, payload@));
        }
        let result = store.update(id, payload);
        guard.release_write(store);
        assert(made_from(self.start(), before));
        result
    }

    /// Runs [`TodoDates::delete`] under the write lock: the result is that
    /// of the deletion on the store as it stood when the lock was taken. The
    /// only failure is that no item is stored under `id`.
    fn delete(&self, id: i32) -> (result: Result<(), RepositoryError>)
        ensures
            exists|store: Map<i32, TodoView>| #[trigger]
                made_from(self.start(), store) && well_formed(store) && match result {
                    Ok(()) => store.contains_key(id),
                    Err(error) => !store.contains_key(id) && error == RepositoryError::NotFound(
                        id,
                    ),
                },
    {
        let (mut store, guard) = self.write_store_ref();
        let ghost before = store@;
        proof {
            law_made_from_one_more(self.start(), before, Change::Delete(id));
        }
        let result = store.delete(id);
        guard.release_write(store);
        assert(made_from(self.start(), before));
        result
    }
}

} // verus!
