use todo_list::todo::Todo;

#[test]
fn new_todo_has_given_id_and_title() {
    let todo = Todo::new(3, String::from("Buy milk"));
    assert_eq!(todo.id(), 3);
    assert_eq!(todo.title(), "Buy milk");
    assert!(!todo.completed());
}

#[test]
fn complete_sets_the_flag() {
    let mut todo = Todo::new(0, String::from("a"));
    todo.complete();
    assert!(todo.completed());
    assert_eq!(todo.id(), 0);
    assert_eq!(todo.title(), "a");
}

#[test]
fn complete_is_idempotent() {
    let mut todo = Todo::new(0, String::from("a"));
    todo.complete();
    todo.complete();
    assert!(todo.completed());
}

#[test]
fn edit_replaces_the_title() {
    let mut todo = Todo::new(9, String::from("old"));
    todo.complete();
    todo.edit("new");
    assert_eq!(todo.title(), "new");
    assert_eq!(todo.id(), 9);
    assert!(todo.completed());
}

#[test]
fn clone_keeps_every_field() {
    let mut todo = Todo::new(12, String::from("täsk"));
    todo.complete();
    let copy = todo.clone();
    assert_eq!(copy.id(), 12);
    assert_eq!(copy.title(), "täsk");
    assert!(copy.completed());
}

#[test]
fn status_word_follows_the_flag() {
    let mut todo = Todo::new(0, String::from("a"));
    assert_eq!(todo.status_word(), "To do");
    todo.complete();
    assert_eq!(todo.status_word(), "Done");
}

#[test]
fn line_with_joins_the_three_columns() {
    let mut todo = Todo::new(42, String::from("Buy milk"));
    assert_eq!(todo.line_with("To do"), "42 | Buy milk | To do");
    todo.complete();
    assert_eq!(todo.line_with("Done"), "42 | Buy milk | Done");
    assert_eq!(todo.line_with(""), "42 | Buy milk | ");
}

#[test]
fn line_with_writes_large_ids_in_full() {
    let todo = Todo::new(u64::MAX, String::new());
    assert_eq!(todo.line_with("x"), "18446744073709551615 |  | x");
    let zero = Todo::new(0, String::from("z"));
    assert_eq!(zero.line_with("x"), "0 | z | x");
}
