use todo_list::command::{classify, parse, Command, Hint};

#[test]
fn add_and_its_alias() {
    assert_eq!(parse("add"), Command::Add);
    assert_eq!(parse("a"), Command::Add);
}

#[test]
fn list_and_its_alias() {
    assert_eq!(parse("list"), Command::List);
    assert_eq!(parse("ls"), Command::List);
}

#[test]
fn quit_and_its_alias() {
    assert_eq!(parse("quit"), Command::Quit);
    assert_eq!(parse("q"), Command::Quit);
}

#[test]
fn clear_and_its_alias() {
    assert_eq!(parse("clear"), Command::Clear);
    assert_eq!(parse("cls"), Command::Clear);
}

#[test]
fn help_and_anything_unknown() {
    assert_eq!(parse("help"), Command::Help);
    assert_eq!(parse("h"), Command::Help);
    assert_eq!(parse(""), Command::Help);
    assert_eq!(parse("frobnicate"), Command::Help);
    assert_eq!(parse("lists"), Command::Help);
    assert_eq!(parse("complete3"), Command::Help);
}

#[test]
fn commands_are_case_sensitive() {
    assert_eq!(parse("Add"), Command::Help);
    assert_eq!(parse("LIST"), Command::Help);
    assert_eq!(parse("Quit"), Command::Help);
    assert_eq!(parse("C 3"), Command::Help);
}

#[test]
fn bare_commands_ask_for_a_hint() {
    assert_eq!(parse("complete"), Command::Hint(Hint::Complete));
    assert_eq!(parse("c"), Command::Hint(Hint::CompleteShort));
    assert_eq!(parse("edit"), Command::Hint(Hint::Edit));
    assert_eq!(parse("e"), Command::Hint(Hint::Edit));
    assert_eq!(parse("delete"), Command::Hint(Hint::Delete));
    assert_eq!(parse("d"), Command::Hint(Hint::Delete));
}

#[test]
fn commands_with_an_id() {
    assert_eq!(parse("complete 3"), Command::Complete(3));
    assert_eq!(parse("c 3"), Command::Complete(3));
    assert_eq!(parse("edit 4"), Command::Edit(4));
    assert_eq!(parse("e 4"), Command::Edit(4));
    assert_eq!(parse("delete 18446744073709551615"), Command::Delete(u64::MAX));
    assert_eq!(parse("d 0"), Command::Delete(0));
    assert_eq!(parse("c +7"), Command::Complete(7));
}

#[test]
fn malformed_ids_are_ignored() {
    assert_eq!(parse("complete x"), Command::Ignored);
    assert_eq!(parse("c -1"), Command::Ignored);
    assert_eq!(parse("edit 1.5"), Command::Ignored);
    assert_eq!(parse("e  4"), Command::Ignored);
    assert_eq!(parse("delete 3 4"), Command::Ignored);
    assert_eq!(parse("d 18446744073709551616"), Command::Ignored);
    assert_eq!(parse("c 3\t4"), Command::Ignored);
}

#[test]
fn commands_that_take_no_argument_fall_back_to_help() {
    assert_eq!(parse("add milk"), Command::Help);
    assert_eq!(parse("list 3"), Command::Help);
    assert_eq!(parse("quit now"), Command::Help);
    assert_eq!(parse("q 1"), Command::Help);
    assert_eq!(parse("clear 1"), Command::Help);
}

#[test]
fn a_tab_is_no_separator() {
    assert_eq!(parse("c\t3"), Command::Help);
}

#[test]
fn parse_trims_the_line() {
    assert_eq!(parse("  list  "), Command::List);
    assert_eq!(parse("list\n"), Command::List);
    assert_eq!(parse("\t c 12 \r\n"), Command::Complete(12));
    assert_eq!(parse("quit\r\n"), Command::Quit);
    assert_eq!(parse("   "), Command::Help);
    assert_eq!(parse("c \n"), Command::Hint(Hint::CompleteShort));
    assert_eq!(parse("\u{a0}add\u{2003}"), Command::Add);
}

#[test]
fn classify_does_not_trim() {
    assert_eq!(classify("list"), Command::List);
    assert_eq!(classify("list\n"), Command::Help);
    assert_eq!(classify(" list"), Command::Help);
    assert_eq!(classify("list "), Command::Help);
    assert_eq!(classify("c "), Command::Ignored);
    assert_eq!(classify("e "), Command::Ignored);
    assert_eq!(classify("d 5\n"), Command::Ignored);
    assert_eq!(classify(" c 5"), Command::Help);
}
