use macros::editor::{
    add_instruction_message, add_instruction_names, edit_button_direction, edit_button_name,
    edit_key_direction, edit_key_name, edit_move_coordinate, edit_move_x, edit_move_y,
    edit_script, edit_scroll_amount, edit_scroll_axis, edit_text, edit_wait, header_title,
    Effect, EditorState, Message, Page,
};
use macros::input::{Axis, Button, Coordinate, Direction, Key};
use macros::model::{Instruction, Macro, Token};

fn editing(code: Vec<Instruction>) -> EditorState {
    let mut state = EditorState::new();
    assert_eq!(state.update(Message::SelectMacro(2)), Effect::LoadMacro(2));
    state.macro_loaded(Macro::new("m".to_string(), "d".to_string(), code));
    state
}

fn code_of(state: &EditorState) -> Vec<Instruction> {
    state.current_macro.as_ref().unwrap().code.clone()
}

#[test]
fn page_title_and_header() {
    assert_eq!(Page::Page1.as_str(), "Macros");
    assert_eq!(header_title("Macros"), "Macros — Macros");
    assert_eq!(header_title(""), " — Macros");
}

#[test]
fn select_asks_for_load_and_load_sets_current() {
    let state = editing(vec![]);
    assert_eq!(state.macro_selected, Some(2));
    assert_eq!(state.current_macro.as_ref().unwrap().name, "m");
}

#[test]
fn run_and_save_need_a_current_macro() {
    let mut state = EditorState::new();
    assert_eq!(state.update(Message::RunMacro), Effect::Nothing);
    assert_eq!(state.update(Message::SaveMacro), Effect::Nothing);
    let mut state = editing(vec![Instruction::Wait(1)]);
    assert_eq!(state.update(Message::RunMacro), Effect::RunCurrentMacro);
    assert_eq!(state.update(Message::SaveMacro), Effect::SaveCurrentMacro(2));
}

#[test]
fn save_needs_a_selection() {
    let mut state = EditorState::new();
    state.macro_loaded(Macro::new("m".to_string(), String::new(), vec![]));
    assert_eq!(state.update(Message::SaveMacro), Effect::Nothing);
}

#[test]
fn set_title_renames_current() {
    let mut state = editing(vec![Instruction::Wait(1)]);
    assert_eq!(state.update(Message::SetTitle("new".to_string())), Effect::Nothing);
    let m = state.current_macro.as_ref().unwrap();
    assert_eq!(m.name, "new");
    assert_eq!(m.description, "d");
    assert_eq!(m.code, vec![Instruction::Wait(1)]);
}

#[test]
fn add_edit_remove_clear() {
    let mut state = editing(vec![Instruction::Wait(1), Instruction::Wait(2)]);
    state.update(Message::AddInstruction(1, Instruction::Wait(9)));
    assert_eq!(code_of(&state), vec![Instruction::Wait(1), Instruction::Wait(9), Instruction::Wait(2)]);
    state.update(Message::AddInstruction(3, Instruction::Wait(7)));
    assert_eq!(code_of(&state).len(), 4);
    state.update(Message::EditInstruction(0, Instruction::Script("s".to_string())));
    assert_eq!(code_of(&state)[0], Instruction::Script("s".to_string()));
    state.update(Message::RemoveInstruction(1));
    assert_eq!(
        code_of(&state),
        vec![Instruction::Script("s".to_string()), Instruction::Wait(2), Instruction::Wait(7)]
    );
    state.update(Message::RemoveInstruction(-1));
    assert_eq!(code_of(&state).len(), 3);
    state.update(Message::ClearInstructions);
    assert!(code_of(&state).is_empty());
    state.update(Message::EditInstruction(5, Instruction::Wait(3)));
    state.update(Message::RemoveInstruction(5));
    assert!(code_of(&state).is_empty());
}

#[test]
fn add_then_remove_restores() {
    let original = vec![Instruction::Wait(1), Instruction::Wait(2)];
    let mut state = editing(original.clone());
    state.update(Message::AddInstruction(1, Instruction::Wait(5)));
    state.update(Message::RemoveInstruction(1));
    assert_eq!(code_of(&state), original);
}

#[test]
fn without_current_macro_edits_do_nothing() {
    let mut state = EditorState::new();
    state.update(Message::AddInstruction(3, Instruction::Wait(5)));
    state.update(Message::SetTitle("t".to_string()));
    state.update(Message::ClearInstructions);
    assert!(state.current_macro.is_none());
    assert!(state.macro_selected.is_none());
}

#[test]
fn add_dropdown_messages() {
    assert_eq!(add_instruction_names().len(), 7);
    assert_eq!(add_instruction_names()[3], "Add mouse button press");
    assert_eq!(add_instruction_message(4, 0), Message::AddInstruction(4, Instruction::Wait(1000)));
    assert_eq!(
        add_instruction_message(0, 2),
        Message::AddInstruction(0, Instruction::Token(Token::Key(Key::Unicode('a'), Direction::Press)))
    );
    assert_eq!(
        add_instruction_message(1, 4),
        Message::AddInstruction(1, Instruction::Token(Token::MoveMouse(100, 100, Coordinate::Rel)))
    );
    assert_eq!(
        add_instruction_message(1, 6),
        Message::AddInstruction(1, Instruction::Script("script".to_string()))
    );
}

#[test]
fn typed_edits() {
    assert_eq!(
        edit_text(2, "hi".to_string()),
        Message::EditInstruction(2, Instruction::Token(Token::Text("hi".to_string())))
    );
    assert_eq!(
        edit_key_name(0, Key::Tab, Direction::Press, "Home"),
        Message::EditInstruction(0, Instruction::Token(Token::Key(Key::Home, Direction::Press)))
    );
    assert_eq!(
        edit_key_name(0, Key::Tab, Direction::Press, "Nope"),
        Message::EditInstruction(0, Instruction::Token(Token::Key(Key::Tab, Direction::Press)))
    );
    assert_eq!(
        edit_button_name(1, Button::Left, Direction::Click, "Back"),
        Message::EditInstruction(1, Instruction::Token(Token::Button(Button::Back, Direction::Click)))
    );
    assert_eq!(
        edit_button_name(1, Button::Left, Direction::Click, "back"),
        Message::EditInstruction(1, Instruction::Token(Token::Button(Button::Left, Direction::Click)))
    );
    assert_eq!(
        edit_move_x(0, 5, 6, Coordinate::Abs, "-12"),
        Message::EditInstruction(0, Instruction::Token(Token::MoveMouse(-12, 6, Coordinate::Abs)))
    );
    assert_eq!(
        edit_move_x(0, 5, 6, Coordinate::Abs, "1x"),
        Message::EditInstruction(0, Instruction::Token(Token::MoveMouse(5, 6, Coordinate::Abs)))
    );
    assert_eq!(
        edit_move_y(0, 5, 6, Coordinate::Rel, "+40"),
        Message::EditInstruction(0, Instruction::Token(Token::MoveMouse(5, 40, Coordinate::Rel)))
    );
    assert_eq!(
        edit_move_y(0, 5, 6, Coordinate::Rel, "2147483648"),
        Message::EditInstruction(0, Instruction::Token(Token::MoveMouse(5, 6, Coordinate::Rel)))
    );
    assert_eq!(
        edit_scroll_amount(3, 4, Axis::Horizontal, "-2147483648"),
        Message::EditInstruction(3, Instruction::Token(Token::Scroll(i32::MIN, Axis::Horizontal)))
    );
    assert_eq!(
        edit_scroll_amount(3, 4, Axis::Horizontal, " 1"),
        Message::EditInstruction(3, Instruction::Token(Token::Scroll(4, Axis::Horizontal)))
    );
    assert_eq!(edit_wait(1, 100, "250"), Message::EditInstruction(1, Instruction::Wait(250)));
    assert_eq!(edit_wait(1, 100, "-1"), Message::EditInstruction(1, Instruction::Wait(100)));
    assert_eq!(edit_wait(1, 100, ""), Message::EditInstruction(1, Instruction::Wait(100)));
    assert_eq!(
        edit_wait(1, 100, "18446744073709551615"),
        Message::EditInstruction(1, Instruction::Wait(u64::MAX))
    );
    assert_eq!(
        edit_wait(1, 100, "18446744073709551616"),
        Message::EditInstruction(1, Instruction::Wait(100))
    );
    assert_eq!(
        edit_script(0, "/tmp/x.sh".to_string()),
        Message::EditInstruction(0, Instruction::Script("/tmp/x.sh".to_string()))
    );
}

#[test]
fn dropdown_edits() {
    assert_eq!(
        edit_key_direction(0, Key::Space, 0),
        Message::EditInstruction(0, Instruction::Token(Token::Key(Key::Space, Direction::Click)))
    );
    assert_eq!(
        edit_key_direction(0, Key::Space, 1),
        Message::EditInstruction(0, Instruction::Token(Token::Key(Key::Space, Direction::Press)))
    );
    assert_eq!(
        edit_key_direction(0, Key::Space, 5),
        Message::EditInstruction(0, Instruction::Token(Token::Key(Key::Space, Direction::Release)))
    );
    assert_eq!(
        edit_button_direction(0, Button::Right, 2),
        Message::EditInstruction(0, Instruction::Token(Token::Button(Button::Right, Direction::Release)))
    );
    assert_eq!(
        edit_move_coordinate(0, 1, 2, 0),
        Message::EditInstruction(0, Instruction::Token(Token::MoveMouse(1, 2, Coordinate::Abs)))
    );
    assert_eq!(
        edit_move_coordinate(0, 1, 2, 1),
        Message::EditInstruction(0, Instruction::Token(Token::MoveMouse(1, 2, Coordinate::Rel)))
    );
    assert_eq!(
        edit_scroll_axis(0, 3, 0),
        Message::EditInstruction(0, Instruction::Token(Token::Scroll(3, Axis::Vertical)))
    );
    assert_eq!(
        edit_scroll_axis(0, 3, 1),
        Message::EditInstruction(0, Instruction::Token(Token::Scroll(3, Axis::Horizontal)))
    );
}
