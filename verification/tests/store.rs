use todo_service::repositories::{CreateTodo, RepositoryError, Todo, UpdateTodo};
use todo_service::store::{id_after, TodoDates};

fn todo(id: i32, text: &str, completed: bool) -> Todo {
    Todo { id, text: text.to_string(), completed }
}

fn store_of(texts: &[&str]) -> TodoDates {
    let mut store = TodoDates::new();
    for text in texts {
        store.create(CreateTodo::new(text.to_string()));
    }
    store
}

fn listed(store: &TodoDates) -> Vec<Todo> {
    let mut todos = store.all();
    todos.sort_by_key(|todo| todo.id);
    todos
}

#[test]
fn id_after_is_count_plus_one() {
    assert_eq!(id_after(0), 1);
    assert_eq!(id_after(1), 2);
    assert_eq!(id_after(41), 42);
    assert_eq!(id_after(2_147_483_646), i32::MAX);
}

#[test]
fn id_after_wraps_past_the_largest_id() {
    assert_eq!(id_after(2_147_483_647), i32::MIN);
    assert_eq!(id_after(2_147_483_648), i32::MIN + 1);
    assert_eq!(id_after(4_294_967_293), -2);
    assert_eq!(id_after(4_294_967_294), -1);
    assert_eq!(id_after(4_294_967_295), 0);
}

#[test]
fn new_store_is_empty() {
    let store = TodoDates::new();
    assert_eq!(store.len(), 0);
    assert_eq!(store.find(1), None);
    assert_eq!(store.all(), Vec::<Todo>::new());
}

#[test]
fn store_create_gives_count_plus_one() {
    let mut store = TodoDates::new();
    assert_eq!(store.create(CreateTodo::new("todo text".to_string())), todo(1, "todo text", false));
    assert_eq!(store.len(), 1);
    assert_eq!(store.create(CreateTodo::new("".to_string())), todo(2, "", false));
    assert_eq!(store.len(), 2);
    assert_eq!(listed(&store), vec![todo(1, "todo text", false), todo(2, "", false)]);
}

#[test]
fn store_find_gives_a_copy() {
    let store = store_of(&["a", "b"]);
    let mut copy = store.find(2).unwrap();
    assert_eq!(copy, todo(2, "b", false));
    copy.text.push_str(" changed");
    copy.completed = true;
    assert_eq!(store.find(2), Some(todo(2, "b", false)));
    assert_eq!(store.find(0), None);
    assert_eq!(store.find(3), None);
    assert_eq!(store.find(-1), None);
}

#[test]
fn store_all_lists_many_items() {
    let texts: Vec<String> = (1..=100).map(|n| format!("item {n}")).collect();
    let mut store = TodoDates::new();
    for text in &texts {
        store.create(CreateTodo::new(text.clone()));
    }
    let todos = listed(&store);
    assert_eq!(todos.len(), 100);
    for (index, found) in todos.iter().enumerate() {
        assert_eq!(*found, todo(index as i32 + 1, &texts[index], false));
    }
}

#[test]
fn store_update_patches_the_named_fields() {
    let mut store = store_of(&["a", "b"]);
    assert_eq!(
        store.update(1, UpdateTodo { text: Some("update todo text".to_string()), completed: Some(true) }),
        Ok(todo(1, "update todo text", true))
    );
    assert_eq!(
        store.update(2, UpdateTodo { text: Some("c".to_string()), completed: None }),
        Ok(todo(2, "c", false))
    );
    assert_eq!(
        store.update(1, UpdateTodo { text: None, completed: Some(false) }),
        Ok(todo(1, "update todo text", false))
    );
    assert_eq!(store.update(2, UpdateTodo { text: None, completed: None }), Ok(todo(2, "c", false)));
    assert_eq!(listed(&store), vec![todo(1, "update todo text", false), todo(2, "c", false)]);
    assert_eq!(store.len(), 2);
}

#[test]
fn store_update_of_missing_id_fails_and_changes_nothing() {
    let mut store = store_of(&["a"]);
    assert_eq!(
        store.update(2, UpdateTodo { text: Some("x".to_string()), completed: Some(true) }),
        Err(RepositoryError::NotFound(2))
    );
    assert_eq!(
        store.update(i32::MIN, UpdateTodo { text: None, completed: None }),
        Err(RepositoryError::NotFound(i32::MIN))
    );
    assert_eq!(listed(&store), vec![todo(1, "a", false)]);
}

#[test]
fn store_delete_removes_or_fails() {
    let mut store = store_of(&["a", "b", "c"]);
    assert_eq!(store.delete(2), Ok(()));
    assert_eq!(store.len(), 2);
    assert_eq!(listed(&store), vec![todo(1, "a", false), todo(3, "c", false)]);
    assert_eq!(store.delete(2), Err(RepositoryError::NotFound(2)));
    assert_eq!(store.delete(i32::MAX), Err(RepositoryError::NotFound(i32::MAX)));
    assert_eq!(listed(&store), vec![todo(1, "a", false), todo(3, "c", false)]);
}

#[test]
fn store_create_after_delete_takes_the_count_again() {
    let mut store = store_of(&["a", "b", "c"]);
    store.delete(1).unwrap();
    assert_eq!(store.create(CreateTodo::new("d".to_string())), todo(3, "d", false));
    assert_eq!(listed(&store), vec![todo(2, "b", false), todo(3, "d", false)]);
    assert_eq!(store.len(), 2);
}
