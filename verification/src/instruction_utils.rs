//! The kinds of instruction a user can add, their labels, and the instruction
//! each kind starts out as.
use vstd::prelude::*;
use crate::input::{Axis, Button, Coordinate, Direction, Key};
use crate::model::{Instruction, InstructionView, Token, TokenView};

verus! {

/// The labels of the instruction kinds, in order.
pub open spec fn instruction_type_labels() -> Seq<Seq<char>> {
    seq!["Wait"@, "Text"@, "Key"@, "Mouse Button"@, "Move Mouse"@, "Scroll"@, "Run Script"@]
}

/// The instruction that a kind starts out as, if the kind exists.
pub open spec fn default_instruction(instruction_type: int) -> Option<InstructionView> {
    if instruction_type == 0 {
        Some(InstructionView::Wait(1000))
    } else if instruction_type == 1 {
        Some(InstructionView::Token(TokenView::Text("text"@)))
    } else if instruction_type == 2 {
        Some(InstructionView::Token(TokenView::Key(Key::Unicode('a'), Direction::Click)))
    } else if instruction_type == 3 {
        Some(InstructionView::Token(TokenView::Button(Button::Left, Direction::Click)))
    } else if instruction_type == 4 {
        Some(InstructionView::Token(TokenView::MoveMouse(0, 0, Coordinate::Rel)))
    } else if instruction_type == 5 {
        Some(InstructionView::Token(TokenView::Scroll(4, Axis::Vertical)))
    } else if instruction_type == 6 {
        Some(InstructionView::Script("script"@))
    } else {
        None
    }
}

pub fn create_default_instruction(instruction_type: usize) -> (instruction: Option<Instruction>)
    ensures
        match default_instruction(instruction_type as int) {
            Some(v) => instruction matches Some(i) && i@ == v,
            None => instruction is None,
        },
{
    match instruction_type {
        0 => Some(Instruction::Wait(1000)),
        1 => Some(Instruction::Token(Token::Text("text".to_owned()))),
        2 => Some(Instruction::Token(Token::Key(Key::Unicode('a'), Direction::Click))),
        3 => Some(Instruction::Token(Token::Button(Button::Left, Direction::Click))),
        4 => Some(Instruction::Token(Token::MoveMouse(0, 0, Coordinate::Rel))),
        5 => Some(Instruction::Token(Token::Scroll(4, Axis::Vertical))),
        6 => Some(Instruction::Script("script".to_owned())),
        _ => None,
    }
}

pub fn get_instruction_type_names() -> (names: &'static [&'static str])
    ensures
        names@.map_values(|s: &str| s@) == instruction_type_labels(),
{
    let names: &'static [&'static str] = &[
        "Wait",
        "Text",
        "Key",
        "Mouse Button",
        "Move Mouse",
        "Scroll",
        "Run Script",
    ];
    names
}

/// Every kind that has a label starts out as an instruction, and no other does.
pub proof fn lemma_every_labelled_kind_has_default(instruction_type: int)
    ensures
        default_instruction(instruction_type) is Some <==> 0 <= instruction_type
            < instruction_type_labels().len(),
{
}

} // verus!
