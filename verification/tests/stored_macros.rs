use macros::config::{
    add_macro, default_macros, macro_names, out_of_bounds, remove_macro_at_index,
    update_macro_at_index,
};
use macros::input::{Axis, Coordinate, Direction, Key};
use macros::model::{Instruction, Macro, Token};

fn named(name: &str) -> Macro {
    Macro::new(name.to_string(), String::new(), vec![Instruction::Wait(10)])
}

#[test]
fn add_to_missing_list_starts_one() {
    assert_eq!(add_macro(None, named("a")), vec![named("a")]);
}

#[test]
fn add_appends_at_the_end() {
    let list = add_macro(Some(vec![named("a"), named("b")]), named("c"));
    assert_eq!(list, vec![named("a"), named("b"), named("c")]);
}

#[test]
fn update_replaces_in_place() {
    let list = update_macro_at_index(vec![named("a"), named("b")], 1, named("z"));
    assert_eq!(list, Ok(vec![named("a"), named("z")]));
}

#[test]
fn update_out_of_bounds_is_an_error() {
    let list = update_macro_at_index(vec![named("a")], 1, named("z"));
    assert_eq!(list, Err("Macro index 1 out of bounds".to_string()));
    let list = update_macro_at_index(vec![], 0, named("z"));
    assert_eq!(list, Err("Macro index 0 out of bounds".to_string()));
}

#[test]
fn remove_takes_out_one() {
    let list = remove_macro_at_index(vec![named("a"), named("b"), named("c")], 0);
    assert_eq!(list, Ok(vec![named("b"), named("c")]));
}

#[test]
fn remove_out_of_bounds_is_an_error() {
    let list = remove_macro_at_index(vec![named("a")], 42);
    assert_eq!(list, Err("Macro index 42 out of bounds".to_string()));
}

#[test]
fn out_of_bounds_message_writes_decimal() {
    assert_eq!(out_of_bounds(0), "Macro index 0 out of bounds");
    assert_eq!(out_of_bounds(1305), "Macro index 1305 out of bounds");
    assert_eq!(
        out_of_bounds(usize::MAX),
        format!("Macro index {} out of bounds", usize::MAX)
    );
}

#[test]
fn names_follow_the_list() {
    let names = macro_names(&vec![named("x"), named("y")]);
    assert_eq!(names, vec!["x".to_string(), "y".to_string()]);
    assert!(macro_names(&vec![]).is_empty());
}

#[test]
fn default_list_holds_three_macros() {
    let list = default_macros();
    assert_eq!(list.len(), 3);
    assert_eq!(macro_names(&list), vec!["macro", "macro2", "rustrustrust"]);
    assert_eq!(list[0].description, "description");
    assert_eq!(list[2].description, "awesome macro");
    assert_eq!(list[0].code.len(), 12);
    assert_eq!(list[0].code[1], Instruction::Token(Token::MoveMouse(100, 100, Coordinate::Rel)));
    assert_eq!(list[0].code[7], Instruction::Token(Token::Key(Key::Unicode('b'), Direction::Press)));
    assert_eq!(list[1].code[3], Instruction::Token(Token::Scroll(4, Axis::Vertical)));
    assert_eq!(
        list[2].code,
        vec![
            Instruction::Wait(1000),
            Instruction::Token(Token::Text("Rust Rust Rust Rust Rust".to_string())),
        ]
    );
}
