//! The recorded macros: a macro is a named list of instructions, and an
//! instruction waits, runs a script, or sends one input event.
use vstd::prelude::*;
use crate::input::{Axis, Button, Coordinate, Direction, Key};

verus! {

/// One input event.
#[derive(Clone, Debug, PartialEq, Eq)]
pub enum Token {
    /// Types the text.
    Text(String),
    /// Presses, releases or clicks a key.
    Key(Key, Direction),
    /// Presses, releases or clicks a key given by its raw keycode.
    Raw(u16, Direction),
    /// Presses, releases or clicks a mouse button.
    Button(Button, Direction),
    /// Moves the pointer by or to the given x and y.
    MoveMouse(i32, i32, Coordinate),
    /// Scrolls by the given amount along the axis.
    Scroll(i32, Axis),
    /// Checks that the pointer is at the given position.
    Location(i32, i32),
    /// Checks that the main display has the given size.
    MainDisplay(i32, i32),
}

/// What a token holds, with its text as characters.
pub enum TokenView {
    Text(Seq<char>),
    Key(Key, Direction),
    Raw(u16, Direction),
    Button(Button, Direction),
    MoveMouse(i32, i32, Coordinate),
    Scroll(i32, Axis),
    Location(i32, i32),
    MainDisplay(i32, i32),
}

impl View for Token {
    type V = TokenView;

    open spec fn view(&self) -> TokenView {
        match self {
            Token::Text(text) => TokenView::Text(text@),
            Token::Key(key, direction) => TokenView::Key(*key, *direction),
            Token::Raw(code, direction) => TokenView::Raw(*code, *direction),
            Token::Button(button, direction) => TokenView::Button(*button, *direction),
            Token::MoveMouse(x, y, coordinate) => TokenView::MoveMouse(*x, *y, *coordinate),
            Token::Scroll(amount, axis) => TokenView::Scroll(*amount, *axis),
            Token::Location(x, y) => TokenView::Location(*x, *y),
            Token::MainDisplay(w, h) => TokenView::MainDisplay(*w, *h),
        }
    }
}

/// One step of a macro.
#[derive(Clone, Debug, PartialEq, Eq)]
pub enum Instruction {
    /// Sends an input event.
    Token(Token),
    /// Waits for the given number of milliseconds.
    Wait(u64),
    /// Runs the script at the given path with bash.
    Script(String),
}

/// What an instruction holds, with its texts as characters.
pub enum InstructionView {
    Token(TokenView),
    Wait(u64),
    Script(Seq<char>),
}

impl View for Instruction {
    type V = InstructionView;

    open spec fn view(&self) -> InstructionView {
        match self {
            Instruction::Token(token) => InstructionView::Token(token@),
            Instruction::Wait(duration) => InstructionView::Wait(*duration),
            Instruction::Script(path) => InstructionView::Script(path@),
        }
    }
}

/// A named, described list of instructions.
#[derive(Clone, Debug, PartialEq, Eq)]
pub struct Macro {
    pub name: String,
    pub description: String,
    pub code: Vec<Instruction>,
}

/// What a macro holds: its name, description and instructions.
pub struct MacroView {
    pub name: Seq<char>,
    pub description: Seq<char>,
    pub code: Seq<InstructionView>,
}

/// The views of a list of instructions.
pub open spec fn instructions_view(code: Seq<Instruction>) -> Seq<InstructionView> {
    code.map_values(|instruction: Instruction| instruction@)
}

/// The views of a list of macros.
pub open spec fn macros_view(macros: Seq<Macro>) -> Seq<MacroView> {
    macros.map_values(|m: Macro| m@)
}

impl View for Macro {
    type V = MacroView;

    open spec fn view(&self) -> MacroView {
        MacroView {
            name: self.name@,
            description: self.description@,
            code: instructions_view(self.code@),
        }
    }
}

impl Macro {
    pub fn new(name: String, description: String, code: Vec<Instruction>) -> (m: Macro)
        ensures
            m@ == (MacroView { name: name@, description: description@, code: instructions_view(code@) }),
    {
        Macro { name, description, code }
    }
}

} // verus!
