use todo_list::todo::Todo;

#[test]
fn line_is_plain_without_colours() {
    console::set_colors_enabled(false);
    let mut todo = Todo::new(7, String::from("Buy milk"));
    assert_eq!(todo.line(), "7 | Buy milk | To do");
    todo.complete();
    assert_eq!(todo.line(), "7 | Buy milk | Done");
}
