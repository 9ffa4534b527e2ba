//! Edits of the stored list of macros: appending, replacing and removing by
//! position, the list a fresh configuration starts with, and the names shown
//! for the list.
use vstd::prelude::*;
use crate::input::{Axis, Coordinate, Direction, Key};
use crate::model::{
    instructions_view, macros_view, Instruction, InstructionView, Macro, MacroView, Token, TokenView,
};
use crate::text::{decimal_text, usize_text};

verus! {

/// The message given when a position lies outside the list of macros.
pub open spec fn out_of_bounds_message(index: nat) -> Seq<char> {
    "Macro index "@ + decimal_text(index) + " out of bounds"@
}

/// The stored list after appending `mac`; a missing list counts as empty.
pub open spec fn list_after_add(stored: Option<Seq<MacroView>>, mac: MacroView) -> Seq<MacroView> {
    match stored {
        Some(list) => list.push(mac),
        None => seq![mac],
    }
}

/// Appends a macro to the stored list, starting a new list when none is stored.
pub fn add_macro(stored: Option<Vec<Macro>>, mac: Macro) -> (macros: Vec<Macro>)
    ensures
        macros_view(macros@) == list_after_add(
            match stored {
                Some(list) => Some(macros_view(list@)),
                None => None,
            },
            mac@,
        ),
{
    match stored {
        Some(mut list) => {
            let ghost before = list@;
            list.push(mac);
            proof {
                assert(macros_view(list@) =~= macros_view(before).push(mac@));
            }
            list
        },
        None => {
            let mut list: Vec<Macro> = Vec::new();
            list.push(mac);
            proof {
                assert(macros_view(list@) =~= seq![mac@]);
            }
            list
        },
    }
}

/// Builds the out-of-bounds message for a position.
pub fn out_of_bounds(index: usize) -> (message: String)
    ensures
        message@ == out_of_bounds_message(index as nat),
{
    let mut message = "Macro index ".to_owned();
    let number = usize_text(index);
    message.append(number.as_str());
    message.append(" out of bounds");
    message
}

/// Replaces the macro at `index`, or reports that `index` is out of bounds.
pub fn update_macro_at_index(macros: Vec<Macro>, index: usize, new_macro: Macro) -> (result:
    Result<Vec<Macro>, String>)
    ensures
        match result {
            Ok(list) => index < macros@.len() && macros_view(list@) == macros_view(
                macros@,
            ).update(index as int, new_macro@),
            Err(message) => index >= macros@.len() && message@ == out_of_bounds_message(
                index as nat,
            ),
        },
{
    if index < macros.len() {
        let mut list = macros;
        let ghost before = list@;
        list.set(index, new_macro);
        proof {
            assert(macros_view(list@) =~= macros_view(before).update(index as int, new_macro@));
        }
        Ok(list)
    } else {
        Err(out_of_bounds(index))
    }
}

/// Removes the macro at `index`, or reports that `index` is out of bounds.
pub fn remove_macro_at_index(macros: Vec<Macro>, index: usize) -> (result: Result<
    Vec<Macro>,
    String,
>)
    ensures
        match result {
            Ok(list) => index < macros@.len() && macros_view(list@) == macros_view(
                macros@,
            ).remove(index as int),
            Err(message) => index >= macros@.len() && message@ == out_of_bounds_message(
                index as nat,
            ),
        },
{
    if index < macros.len() {
        let mut list = macros;
        let ghost before = list@;
        let _removed = list.remove(index);
        proof {
            assert(macros_view(list@) =~= macros_view(before).remove(index as int));
        }
        Ok(list)
    } else {
        Err(out_of_bounds(index))
    }
}

/// The names of a list of macros, in order.
pub fn macro_names(macros: &Vec<Macro>) -> (names: Vec<String>)
    ensures
        names@.len() == macros@.len(),
        forall|i: int| 0 <= i < macros@.len() ==> #[trigger] names@[i]@ == macros@[i].name@,
{
    let mut names: Vec<String> = Vec::new();
    let mut i: usize = 0;
    while i < macros.len()
        invariant
            i <= macros@.len(),
            names@.len() == i,
            forall|j: int| 0 <= j < i ==> #[trigger] names@[j]@ == macros@[j].name@,
        decreases macros@.len() - i,
    {
        names.push(macros[i].name.clone());
        i = i + 1;
    }
    names
}

/// The macros a configuration starts with when it holds none.
pub open spec fn default_macros_view() -> Seq<MacroView> {
    seq![
        MacroView {
            name: "macro"@,
            description: "description"@,
            code: seq![
                InstructionView::Wait(1000),
                InstructionView::Token(TokenView::MoveMouse(100, 100, Coordinate::Rel)),
                InstructionView::Token(TokenView::Key(Key::Unicode('a'), Direction::Press)),
                InstructionView::Token(TokenView::Key(Key::Unicode('a'), Direction::Release)),
                InstructionView::Token(TokenView::Key(Key::Unicode('a'), Direction::Press)),
                InstructionView::Token(TokenView::Key(Key::Unicode('a'), Direction::Release)),
                InstructionView::Wait(1000),
                InstructionView::Token(TokenView::Key(Key::Unicode('b'), Direction::Press)),
                InstructionView::Token(TokenView::Key(Key::Unicode('b'), Direction::Release)),
                InstructionView::Token(TokenView::Text("All of this text just got pasted"@)),
                InstructionView::Wait(500),
                InstructionView::Token(TokenView::Scroll(4, Axis::Vertical)),
            ],
        },
        MacroView {
            name: "macro2"@,
            description: "description"@,
            code: seq![
                InstructionView::Wait(1000),
                InstructionView::Token(TokenView::Text("NJOPFPDSFSODPFJODSIFJOPSDPFJ SPAM"@)),
                InstructionView::Wait(500),
                InstructionView::Token(TokenView::Scroll(4, Axis::Vertical)),
            ],
        },
        MacroView {
            name: "rustrustrust"@,
            description: "awesome macro"@,
            code: seq![
                InstructionView::Wait(1000),
                InstructionView::Token(TokenView::Text("Rust Rust Rust Rust Rust"@)),
            ],
        },
    ]
}

/// Builds the macros a configuration starts with when it holds none.
pub fn default_macros() -> (macros: Vec<Macro>)
    ensures
        macros_view(macros@) == default_macros_view(),
{
    let first_code = vec![
        Instruction::Wait(1000),
        Instruction::Token(Token::MoveMouse(100, 100, Coordinate::Rel)),
        Instruction::Token(Token::Key(Key::Unicode('a'), Direction::Press)),
        Instruction::Token(Token::Key(Key::Unicode('a'), Direction::Release)),
        Instruction::Token(Token::Key(Key::Unicode('a'), Direction::Press)),
        Instruction::Token(Token::Key(Key::Unicode('a'), Direction::Release)),
        Instruction::Wait(1000),
        Instruction::Token(Token::Key(Key::Unicode('b'), Direction::Press)),
        Instruction::Token(Token::Key(Key::Unicode('b'), Direction::Release)),
        Instruction::Token(Token::Text("All of this text just got pasted".to_owned())),
        Instruction::Wait(500),
        Instruction::Token(Token::Scroll(4, Axis::Vertical)),
    ];
    let second_code = vec![
        Instruction::Wait(1000),
        Instruction::Token(Token::Text("NJOPFPDSFSODPFJODSIFJOPSDPFJ SPAM".to_owned())),
        Instruction::Wait(500),
        Instruction::Token(Token::Scroll(4, Axis::Vertical)),
    ];
    let third_code = vec![
        Instruction::Wait(1000),
        Instruction::Token(Token::Text("Rust Rust Rust Rust Rust".to_owned())),
    ];
    proof {
        assert(instructions_view(first_code@) =~= default_macros_view()[0].code);
        assert(instructions_view(second_code@) =~= default_macros_view()[1].code);
        assert(instructions_view(third_code@) =~= default_macros_view()[2].code);
    }
    let macros = vec![
        Macro::new("macro".to_owned(), "description".to_owned(), first_code),
        Macro::new("macro2".to_owned(), "description".to_owned(), second_code),
        Macro::new("rustrustrust".to_owned(), "awesome macro".to_owned(), third_code),
    ];
    proof {
        assert(macros_view(macros@) =~= default_macros_view());
    }
    macros
}

/// Appending a macro adds exactly one entry, at the end, and keeps every
/// entry that was there.
pub proof fn lemma_add_appends(stored: Seq<MacroView>, mac: MacroView)
    ensures
        list_after_add(Some(stored), mac).len() == stored.len() + 1,
        list_after_add(Some(stored), mac).last() == mac,
        forall|i: int| 0 <= i < stored.len() ==> #[trigger] list_after_add(Some(stored), mac)[i]
            == stored[i],
{
}

} // verus!
