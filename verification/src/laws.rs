//! What holds of the store's operations, for every store and every input.

use crate::model::{
    after_change, after_changes, after_create, after_creates, after_delete, after_update,
    created_among, created_todo, lists, lookup, made_from, next_id, nth_created, well_formed, Change,
};
use crate::repositories::{TodoView, UpdateTodoView};
use vstd::prelude::*;

verus! {

/// While fewer than `i32::MAX` items are stored, the next id is the count
/// plus one.
pub proof fn law_next_id_is_count_plus_one(count: nat)
    requires
        count < i32::MAX,
    ensures
        next_id(count) == count + 1,
{
}

/// Two different counts below 2^32 give two different ids.
pub proof fn law_next_id_injective(first: nat, second: nat)
    requires
        first < second < 0x1_0000_0000,
    ensures
        next_id(first) != next_id(second),
{
}

/// Every operation takes a valid store to a valid store.
pub proof fn law_operations_keep_validity(
    store: Map<i32, TodoView>,
    id: i32,
    text: Seq<char>,
    patch: UpdateTodoView,
)
    requires
        well_formed(store),
    ensures
        well_formed(after_create(store, text)),
        well_formed(after_update(store, id, patch)),
        well_formed(after_delete(store, id)),
{
}

/// A store is made from itself, by no change at all.
pub proof fn law_made_from_itself(start: Map<i32, TodoView>)
    ensures
        made_from(start, start),
{
    assert(after_changes(start, Seq::<Change>::empty()) == start);
}

/// One more change to a store made from `start` gives a store made from
/// `start`.
pub proof fn law_made_from_one_more(
    start: Map<i32, TodoView>,
    store: Map<i32, TodoView>,
    change: Change,
)
    requires
        made_from(start, store),
    ensures
        made_from(start, after_change(store, change)),
{
    let changes = choose|changes: Seq<Change>| #[trigger] after_changes(start, changes) == store;
    let longer = changes.push(change);
    assert(longer.drop_last() == changes);
    assert(after_changes(start, longer) == after_change(store, change));
}

/// Whatever is made from a valid store is a valid store.
pub proof fn law_made_from_valid_is_valid(start: Map<i32, TodoView>, changes: Seq<Change>)
    requires
        well_formed(start),
    ensures
        well_formed(after_changes(start, changes)),
    decreases changes.len(),
{
    if changes.len() > 0 {
        law_made_from_valid_is_valid(start, changes.drop_last());
    }
}

/// A created item is uncompleted and carries the given text; where the next
/// id is not in use, the item's id is new to the store, the store grows by
/// exactly this item, and every other id is left as it was.
pub proof fn law_create_adds_fresh_item(store: Map<i32, TodoView>, text: Seq<char>)
    requires
        well_formed(store),
        !store.contains_key(next_id(store.len())),
    ensures
        ({
            let todo = created_todo(store, text);
            let after = after_create(store, text);
            &&& !todo.completed
            &&& todo.text == text
            &&& !store.contains_key(todo.id)
            &&& lookup(after, todo.id) == Some(todo)
            &&& after.len() == store.len() + 1
            &&& forall|other: i32| other != todo.id ==> lookup(after, other) == lookup(store, other)
        }),
{
}

/// Looking up the id of a created item right after its creation gives the
/// created item back, whatever the store held.
pub proof fn law_create_then_find(store: Map<i32, TodoView>, text: Seq<char>)
    ensures
        lookup(after_create(store, text), created_todo(store, text).id) == Some(
            created_todo(store, text),
        ),
{
}

/// An update that names only a text replaces the text of the item under `id`
/// and nothing else, in that item or in any other.
pub proof fn law_update_text_only(store: Map<i32, TodoView>, id: i32, text: Seq<char>)
    requires
        store.contains_key(id),
    ensures
        ({
            let after = after_update(store, id, UpdateTodoView { text: Some(text), completed: None });
            &&& after.dom() == store.dom()
            &&& after[id] == TodoView { text, ..store[id] }
            &&& forall|other: i32| other != id ==> lookup(after, other) == lookup(store, other)
        }),
{
    let after = after_update(store, id, UpdateTodoView { text: Some(text), completed: None });
    assert(after.dom() =~= store.dom());
}

/// An update that names only a completed flag replaces the flag of the item
/// under `id` and nothing else, in that item or in any other.
pub proof fn law_update_completed_only(store: Map<i32, TodoView>, id: i32, completed: bool)
    requires
        store.contains_key(id),
    ensures
        ({
            let after = after_update(
                store,
                id,
                UpdateTodoView { text: None, completed: Some(completed) },
            );
            &&& after.dom() == store.dom()
            &&& after[id] == TodoView { completed, ..store[id] }
            &&& forall|other: i32| other != id ==> lookup(after, other) == lookup(store, other)
        }),
{
    let after = after_update(store, id, UpdateTodoView { text: None, completed: Some(completed) });
    assert(after.dom() =~= store.dom());
}

/// An update or a deletion of an id that is not stored leaves the store as
/// it was.
pub proof fn law_missing_id_changes_nothing(store: Map<i32, TodoView>, id: i32, patch: UpdateTodoView)
    requires
        !store.contains_key(id),
    ensures
        after_update(store, id, patch) == store,
        after_delete(store, id) == store,
{
    assert(after_delete(store, id) =~= store);
}

/// A deletion of a stored id removes that item and leaves every other id as
/// it was.
pub proof fn law_delete_removes_one(store: Map<i32, TodoView>, id: i32)
    requires
        well_formed(store),
        store.contains_key(id),
    ensures
        ({
            let after = after_delete(store, id);
            &&& lookup(after, id) == None::<TodoView>
            &&& after.len() == store.len() - 1
            &&& forall|other: i32| other != id ==> lookup(after, other) == lookup(store, other)
        }),
{
}

/// After one creation for each of `texts` on an empty store, the store holds
/// exactly one item for each text: the `k`-th under the id of count `k`,
/// uncompleted, and no two under the same id. This holds in whatever order
/// the creations of several callers took the lock.
pub proof fn law_creates_on_empty_store(texts: Seq<Seq<char>>)
    requires
        texts.len() <= 0x1_0000_0000,
    ensures
        ({
            let store = after_creates(Map::<i32, TodoView>::empty(), texts);
            &&& well_formed(store)
            &&& store.len() == texts.len()
            &&& forall|k: int|
                0 <= k < texts.len() ==> store.contains_key((#[trigger] nth_created(texts, k)).id)
                    && store[nth_created(texts, k).id] == nth_created(texts, k)
            &&& forall|id: i32|
                store.contains_key(id) ==> exists|k: int|
                    0 <= k < texts.len() && (#[trigger] nth_created(texts, k)).id == id
            &&& forall|j: int, k: int|
                0 <= j < k < texts.len() ==> (#[trigger] nth_created(texts, j)).id != (
                #[trigger] nth_created(texts, k)).id
        }),
    decreases texts.len(),
{
    let store = after_creates(Map::<i32, TodoView>::empty(), texts);
    assert forall|j: int, k: int| 0 <= j < k < texts.len() implies (#[trigger] nth_created(
        texts,
        j,
    )).id != (#[trigger] nth_created(texts, k)).id by {
        law_next_id_injective(j as nat, k as nat);
    }
    if texts.len() > 0 {
        let earlier = texts.drop_last();
        let before = after_creates(Map::<i32, TodoView>::empty(), earlier);
        law_creates_on_empty_store(earlier);
        let count = earlier.len() as int;
        assert(!before.contains_key(next_id(count as nat))) by {
            if before.contains_key(next_id(count as nat)) {
                let k = choose|k: int|
                    0 <= k < count && (#[trigger] nth_created(earlier, k)).id == next_id(
                        count as nat,
                    );
                law_next_id_injective(k as nat, count as nat);
            }
        }
        assert forall|k: int| 0 <= k < texts.len() implies store.contains_key(
            (#[trigger] nth_created(texts, k)).id,
        ) && store[nth_created(texts, k).id] == nth_created(texts, k) by {
            if k < count {
                assert(nth_created(earlier, k) == nth_created(texts, k));
                law_next_id_injective(k as nat, count as nat);
            }
        }
        assert forall|id: i32| store.contains_key(id) implies exists|k: int|
            0 <= k < texts.len() && (#[trigger] nth_created(texts, k)).id == id by {
            if id == next_id(count as nat) {
                assert(nth_created(texts, count).id == id);
            } else {
                assert(before.contains_key(id));
                let k = choose|k: int|
                    0 <= k < count && (#[trigger] nth_created(earlier, k)).id == id;
                assert(nth_created(texts, k).id == id);
            }
        }
    }
}

/// A listing of the store after one creation for each of `texts` on an empty
/// store has as many items as `texts`, holds the item created for each text,
/// and holds nothing else.
pub proof fn law_list_after_creates(texts: Seq<Seq<char>>, todos: Seq<TodoView>)
    requires
        texts.len() <= 0x1_0000_0000,
        lists(todos, after_creates(Map::<i32, TodoView>::empty(), texts)),
    ensures
        todos.len() == texts.len(),
        forall|k: int| 0 <= k < texts.len() ==> todos.contains(#[trigger] nth_created(texts, k)),
        forall|i: int| 0 <= i < todos.len() ==> created_among(texts, #[trigger] todos[i]),
{
    let store = after_creates(Map::<i32, TodoView>::empty(), texts);
    law_creates_on_empty_store(texts);
    assert forall|k: int| 0 <= k < texts.len() implies todos.contains(
        #[trigger] nth_created(texts, k),
    ) by {
        assert(store.contains_key(nth_created(texts, k).id));
        assert(todos.contains(store[nth_created(texts, k).id]));
    }
    assert forall|i: int| 0 <= i < todos.len() implies created_among(
        texts,
        #[trigger] todos[i],
    ) by {
        let id = todos[i].id;
        assert(store.contains_key(id) && store[id] == todos[i]);
        let k = choose|k: int| 0 <= k < texts.len() && (#[trigger] nth_created(texts, k)).id == id;
        assert(nth_created(texts, k) == todos[i]);
    }
}

} // verus!
