use macros::input::{Axis, Button, Coordinate, Direction, Key};
use macros::instruction_utils::{create_default_instruction, get_instruction_type_names};
use macros::model::{Instruction, Token};
use macros::ui_utils::{
    axis_to_index, coordinate_to_index, direction_to_index, get_axis_names, get_coordinate_names,
    get_direction_names, index_to_axis, index_to_coordinate, index_to_direction,
};

#[test]
fn direction_positions() {
    assert_eq!(direction_to_index(&Direction::Click), 0);
    assert_eq!(direction_to_index(&Direction::Press), 1);
    assert_eq!(direction_to_index(&Direction::Release), 2);
    assert_eq!(index_to_direction(0), Direction::Click);
    assert_eq!(index_to_direction(1), Direction::Press);
    assert_eq!(index_to_direction(2), Direction::Release);
    assert_eq!(index_to_direction(3), Direction::Click);
    assert_eq!(get_direction_names(), &["Click", "Press", "Release"]);
}

#[test]
fn direction_round_trip() {
    for d in [Direction::Click, Direction::Press, Direction::Release] {
        assert_eq!(index_to_direction(direction_to_index(&d)), d);
    }
    for i in 0..get_direction_names().len() {
        assert_eq!(direction_to_index(&index_to_direction(i)), i);
    }
}

#[test]
fn coordinate_positions() {
    assert_eq!(coordinate_to_index(&Coordinate::Abs), 0);
    assert_eq!(coordinate_to_index(&Coordinate::Rel), 1);
    assert_eq!(index_to_coordinate(0), Coordinate::Abs);
    assert_eq!(index_to_coordinate(1), Coordinate::Rel);
    assert_eq!(index_to_coordinate(5), Coordinate::Abs);
    assert_eq!(get_coordinate_names(), &["Absolute", "Relative"]);
    for c in [Coordinate::Abs, Coordinate::Rel] {
        assert_eq!(index_to_coordinate(coordinate_to_index(&c)), c);
    }
}

#[test]
fn axis_positions() {
    assert_eq!(axis_to_index(&Axis::Vertical), 0);
    assert_eq!(axis_to_index(&Axis::Horizontal), 1);
    assert_eq!(index_to_axis(0), Axis::Vertical);
    assert_eq!(index_to_axis(1), Axis::Horizontal);
    assert_eq!(index_to_axis(2), Axis::Vertical);
    assert_eq!(get_axis_names(), &["Vertical", "Horizontal"]);
    for a in [Axis::Vertical, Axis::Horizontal] {
        assert_eq!(index_to_axis(axis_to_index(&a)), a);
    }
}

#[test]
fn default_instructions_by_kind() {
    assert_eq!(create_default_instruction(0), Some(Instruction::Wait(1000)));
    assert_eq!(
        create_default_instruction(1),
        Some(Instruction::Token(Token::Text("text".to_string())))
    );
    assert_eq!(
        create_default_instruction(2),
        Some(Instruction::Token(Token::Key(Key::Unicode('a'), Direction::Click)))
    );
    assert_eq!(
        create_default_instruction(3),
        Some(Instruction::Token(Token::Button(Button::Left, Direction::Click)))
    );
    assert_eq!(
        create_default_instruction(4),
        Some(Instruction::Token(Token::MoveMouse(0, 0, Coordinate::Rel)))
    );
    assert_eq!(
        create_default_instruction(5),
        Some(Instruction::Token(Token::Scroll(4, Axis::Vertical)))
    );
    assert_eq!(create_default_instruction(6), Some(Instruction::Script("script".to_string())));
    assert_eq!(create_default_instruction(7), None);
}

#[test]
fn every_instruction_kind_label_has_a_default() {
    let names = get_instruction_type_names();
    assert_eq!(
        names,
        &["Wait", "Text", "Key", "Mouse Button", "Move Mouse", "Scroll", "Run Script"]
    );
    for i in 0..names.len() {
        assert!(create_default_instruction(i).is_some());
    }
    assert!(create_default_instruction(names.len()).is_none());
}
