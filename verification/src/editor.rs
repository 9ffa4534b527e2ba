//! The macro editor's state machine: the messages the user interface sends,
//! how each changes the selected macro and the macro being edited, and which
//! outside work (loading, running, saving) it asks for.
use vstd::prelude::*;
use crate::input::{Axis, Button, Coordinate, Direction, Key};
use crate::keys::{key_named, string_to_key};
use crate::model::{Instruction, InstructionView, Macro, MacroView, Token, TokenView};
use crate::mouse::{button_named, string_to_button};
use crate::text::{parse_i32, parse_u64, parsed_i32, parsed_u64};

verus! {

/// A page of the application.
#[derive(Clone, Copy, Debug, PartialEq, Eq, Structural)]
pub enum Page {
    Page1,
}

impl Page {
    /// The title of the page.
    pub fn as_str(self) -> (title: &'static str)
        ensures
            title@ == "Macros"@,
    {
        match self {
            Page::Page1 => "Macros",
        }
    }
}

/// The header title shown for a page.
pub open spec fn header_title_text(page_title: Seq<char>) -> Seq<char> {
    page_title + " — Macros"@
}

/// Builds the header title shown for a page.
pub fn header_title(page_title: &str) -> (title: String)
    ensures
        title@ == header_title_text(page_title@),
{
    let mut title = page_title.to_owned();
    title.append(" — Macros");
    title
}

/// What the user interface asks of the editor.
#[derive(Clone, Debug, PartialEq, Eq)]
pub enum Message {
    SelectMacro(usize),
    RunMacro,
    SetTitle(String),
    AddInstruction(usize, Instruction),
    EditInstruction(usize, Instruction),
    RemoveInstruction(isize),
    ClearInstructions,
    SaveMacro,
}

/// What a message holds, with its texts as characters.
pub enum MessageView {
    SelectMacro(usize),
    RunMacro,
    SetTitle(Seq<char>),
    AddInstruction(usize, InstructionView),
    EditInstruction(usize, InstructionView),
    RemoveInstruction(isize),
    ClearInstructions,
    SaveMacro,
}

impl View for Message {
    type V = MessageView;

    open spec fn view(&self) -> MessageView {
        match self {
            Message::SelectMacro(index) => MessageView::SelectMacro(*index),
            Message::RunMacro => MessageView::RunMacro,
            Message::SetTitle(title) => MessageView::SetTitle(title@),
            Message::AddInstruction(index, instruction) => MessageView::AddInstruction(
                *index,
                instruction@,
            ),
            Message::EditInstruction(index, instruction) => MessageView::EditInstruction(
                *index,
                instruction@,
            ),
            Message::RemoveInstruction(index) => MessageView::RemoveInstruction(*index),
            Message::ClearInstructions => MessageView::ClearInstructions,
            Message::SaveMacro => MessageView::SaveMacro,
        }
    }
}

/// The outside work a message asks for.
#[derive(Clone, Copy, Debug, PartialEq, Eq, Structural)]
pub enum Effect {
    /// Nothing beyond the change of state.
    Nothing,
    /// Load the stored macro at this position and hand it to `macro_loaded`.
    LoadMacro(usize),
    /// Run the macro being edited on a worker thread.
    RunCurrentMacro,
    /// Store the macro being edited at this position of the stored list.
    SaveCurrentMacro(usize),
}

/// The editor's state: which stored macro is selected, and the macro being edited.
pub struct EditorState {
    pub macro_selected: Option<usize>,
    pub current_macro: Option<Macro>,
}

/// What the editor's state holds.
pub struct EditorView {
    pub selected: Option<usize>,
    pub current: Option<MacroView>,
}

impl View for EditorState {
    type V = EditorView;

    open spec fn view(&self) -> EditorView {
        EditorView {
            selected: self.macro_selected,
            current: match self.current_macro {
                Some(m) => Some(m@),
                None => None,
            },
        }
    }
}

/// Whether the editor can take a message in a state: positions that name an
/// instruction of the macro being edited must lie inside its list.
pub open spec fn accepts(state: EditorView, message: MessageView) -> bool {
    match state.current {
        Some(m) => match message {
            MessageView::AddInstruction(index, _) => index <= m.code.len(),
            MessageView::EditInstruction(index, _) => m.code.len() > 0 ==> index < m.code.len(),
            MessageView::RemoveInstruction(index) => (m.code.len() > 0 && index >= 0) ==> index
                < m.code.len(),
            _ => true,
        },
        None => true,
    }
}

/// The macro being edited with its instructions replaced.
pub open spec fn with_code(m: MacroView, code: Seq<InstructionView>) -> MacroView {
    MacroView { name: m.name, description: m.description, code }
}

/// The state after a message, and the outside work it asks for.
pub open spec fn next_state(state: EditorView, message: MessageView) -> (EditorView, Effect) {
    match message {
        MessageView::SelectMacro(index) => (
            EditorView { selected: Some(index), current: state.current },
            Effect::LoadMacro(index),
        ),
        MessageView::RunMacro => (
            state,
            if state.current is Some {
                Effect::RunCurrentMacro
            } else {
                Effect::Nothing
            },
        ),
        MessageView::SetTitle(title) => (
            EditorView {
                selected: state.selected,
                current: match state.current {
                    Some(m) => Some(
                        MacroView { name: title, description: m.description, code: m.code },
                    ),
                    None => None,
                },
            },
            Effect::Nothing,
        ),
        MessageView::AddInstruction(index, instruction) => (
            EditorView {
                selected: state.selected,
                current: match state.current {
                    Some(m) => Some(with_code(m, m.code.insert(index as int, instruction))),
                    None => None,
                },
            },
            Effect::Nothing,
        ),
        MessageView::EditInstruction(index, instruction) => (
            EditorView {
                selected: state.selected,
                current: match state.current {
                    Some(m) => Some(
                        if m.code.len() > 0 {
                            with_code(m, m.code.update(index as int, instruction))
                        } else {
                            m
                        },
                    ),
                    None => None,
                },
            },
            Effect::Nothing,
        ),
        MessageView::RemoveInstruction(index) => (
            EditorView {
                selected: state.selected,
                current: match state.current {
                    Some(m) => Some(
                        if m.code.len() > 0 && index >= 0 {
                            with_code(m, m.code.remove(index as int))
                        } else {
                            m
                        },
                    ),
                    None => None,
                },
            },
            Effect::Nothing,
        ),
        MessageView::ClearInstructions => (
            EditorView {
                selected: state.selected,
                current: match state.current {
                    Some(m) => Some(with_code(m, Seq::empty())),
                    None => None,
                },
            },
            Effect::Nothing,
        ),
        MessageView::SaveMacro => (
            state,
            match (state.selected, state.current) {
                (Some(index), Some(_)) => Effect::SaveCurrentMacro(index),
                _ => Effect::Nothing,
            },
        ),
    }
}

/// Whether the editor can take a message in its present state (see `accepts`).
pub fn accepts_message(state: &EditorState, message: &Message) -> (ok: bool)
    ensures
        ok == accepts(state@, message@),
{
    match &state.current_macro {
        Some(m) => match message {
            Message::AddInstruction(index, _) => *index <= m.code.len(),
            Message::EditInstruction(index, _) => m.code.len() == 0 || *index < m.code.len(),
            Message::RemoveInstruction(index) => {
                if m.code.len() > 0 && *index >= 0 {
                    (*index as usize) < m.code.len()
                } else {
                    true
                }
            },
            _ => true,
        },
        None => true,
    }
}

impl EditorState {
    /// An editor with nothing selected and nothing being edited.
    pub fn new() -> (state: EditorState)
        ensures
            state@ == (EditorView { selected: None, current: None }),
    {
        EditorState { macro_selected: None, current_macro: None }
    }

    /// Takes a message: changes the state as `next_state` says and returns
    /// the outside work it asks for.
    pub fn update(&mut self, message: Message) -> (effect: Effect)
        requires
            accepts(old(self)@, message@),
        ensures
            (final(self)@, effect) == next_state(old(self)@, message@),
    {
        match message {
            Message::SelectMacro(index) => {
                self.macro_selected = Some(index);
                Effect::LoadMacro(index)
            },
            Message::RunMacro => {
                if self.current_macro.is_some() {
                    Effect::RunCurrentMacro
                } else {
                    Effect::Nothing
                }
            },
            Message::SetTitle(title) => {
                match self.current_macro.take() {
                    Some(mut m) => {
                        m.name = title;
                        self.current_macro = Some(m);
                    },
                    None => {},
                }
                Effect::Nothing
            },
            Message::AddInstruction(index, instruction) => {
                match self.current_macro.take() {
                    Some(mut m) => {
                        let ghost before = m@;
                        m.code.insert(index, instruction);
                        proof {
                            assert(m@.code =~= before.code.insert(index as int, instruction@));
                        }
                        self.current_macro = Some(m);
                    },
                    None => {},
                }
                Effect::Nothing
            },
            Message::EditInstruction(index, instruction) => {
                match self.current_macro.take() {
                    Some(mut m) => {
                        if m.code.len() > 0 {
                            let ghost before = m@;
                            m.code.set(index, instruction);
                            proof {
                                assert(m@.code =~= before.code.update(index as int, instruction@));
                            }
                        }
                        self.current_macro = Some(m);
                    },
                    None => {},
                }
                Effect::Nothing
            },
            Message::RemoveInstruction(index) => {
                match self.current_macro.take() {
                    Some(mut m) => {
                        if m.code.len() > 0 && index >= 0 {
                            let ghost before = m@;
                            let position = index as usize;
                            let _removed = m.code.remove(position);
                            proof {
                                assert(m@.code =~= before.code.remove(index as int));
                            }
                        }
                        self.current_macro = Some(m);
                    },
                    None => {},
                }
                Effect::Nothing
            },
            Message::ClearInstructions => {
                match self.current_macro.take() {
                    Some(mut m) => {
                        m.code.clear();
                        proof {
                            assert(m@.code =~= Seq::empty());
                        }
                        self.current_macro = Some(m);
                    },
                    None => {},
                }
                Effect::Nothing
            },
            Message::SaveMacro => {
                match self.macro_selected {
                    Some(index) => {
                        if self.current_macro.is_some() {
                            Effect::SaveCurrentMacro(index)
                        } else {
                            Effect::Nothing
                        }
                    },
                    None => Effect::Nothing,
                }
            },
        }
    }

    /// Takes the macro that a `LoadMacro` effect loaded: it becomes the macro
    /// being edited.
    pub fn macro_loaded(&mut self, mac: Macro)
        ensures
            final(self)@ == (EditorView { selected: old(self)@.selected, current: Some(mac@) }),
    {
        self.current_macro = Some(mac);
    }
}

/// The labels of the "add instruction" dropdown, in order.
pub open spec fn add_instruction_labels() -> Seq<Seq<char>> {
    seq![
        "Add wait"@,
        "Add text"@,
        "Add key press"@,
        "Add mouse button press"@,
        "Add mouse move"@,
        "Add scroll"@,
        "Add script"@,
    ]
}

/// The instruction that an entry of the "add instruction" dropdown inserts.
pub open spec fn added_instruction(selected: int) -> InstructionView {
    if selected == 0 {
        InstructionView::Wait(1000)
    } else if selected == 1 {
        InstructionView::Token(TokenView::Text("text"@))
    } else if selected == 2 {
        InstructionView::Token(TokenView::Key(Key::Unicode('a'), Direction::Press))
    } else if selected == 3 {
        InstructionView::Token(TokenView::Button(Button::Left, Direction::Click))
    } else if selected == 4 {
        InstructionView::Token(TokenView::MoveMouse(100, 100, Coordinate::Rel))
    } else if selected == 5 {
        InstructionView::Token(TokenView::Scroll(4, Axis::Vertical))
    } else {
        InstructionView::Script("script"@)
    }
}

/// The direction chosen in a press-direction dropdown: `Click`, `Press`, and
/// `Release` for every later position.
pub open spec fn chosen_direction(selected: int) -> Direction {
    if selected == 0 {
        Direction::Click
    } else if selected == 1 {
        Direction::Press
    } else {
        Direction::Release
    }
}

/// The coordinate mode chosen in its dropdown: `Abs` first, `Rel` for every later position.
pub open spec fn chosen_coordinate(selected: int) -> Coordinate {
    if selected == 0 {
        Coordinate::Abs
    } else {
        Coordinate::Rel
    }
}

/// The axis chosen in its dropdown: `Vertical` first, `Horizontal` for every later position.
pub open spec fn chosen_axis(selected: int) -> Axis {
    if selected == 0 {
        Axis::Vertical
    } else {
        Axis::Horizontal
    }
}

/// The value typed into a field, or the previous value when the text does not read as one.
pub open spec fn typed_or<T>(typed: Option<T>, previous: T) -> T {
    match typed {
        Some(value) => value,
        None => previous,
    }
}

/// The message that edits the instruction at `index` into `instruction`.
pub open spec fn edit_of(index: usize, instruction: InstructionView) -> MessageView {
    MessageView::EditInstruction(index, instruction)
}

/// The labels of the "add instruction" dropdown.
pub fn add_instruction_names() -> (names: &'static [&'static str])
    ensures
        names@.map_values(|s: &str| s@) == add_instruction_labels(),
{
    let names: &'static [&'static str] = &[
        "Add wait",
        "Add text",
        "Add key press",
        "Add mouse button press",
        "Add mouse move",
        "Add scroll",
        "Add script",
    ];
    names
}

/// The message sent when entry `selected` of the "add instruction" dropdown
/// is chosen at position `index`.
pub fn add_instruction_message(index: usize, selected: usize) -> (message: Message)
    requires
        selected < add_instruction_labels().len(),
    ensures
        message@ == MessageView::AddInstruction(index, added_instruction(selected as int)),
{
    let instruction = match selected {
        0 => Instruction::Wait(1000),
        1 => Instruction::Token(Token::Text("text".to_owned())),
        2 => Instruction::Token(Token::Key(Key::Unicode('a'), Direction::Press)),
        3 => Instruction::Token(Token::Button(Button::Left, Direction::Click)),
        4 => Instruction::Token(Token::MoveMouse(100, 100, Coordinate::Rel)),
        5 => Instruction::Token(Token::Scroll(4, Axis::Vertical)),
        _ => Instruction::Script("script".to_owned()),
    };
    Message::AddInstruction(index, instruction)
}

/// The message sent when the text of a text instruction is typed.
pub fn edit_text(index: usize, text: String) -> (message: Message)
    ensures
        message@ == edit_of(index, InstructionView::Token(TokenView::Text(text@))),
{
    Message::EditInstruction(index, Instruction::Token(Token::Text(text)))
}

/// The message sent when the key name of a key instruction is typed; a name
/// that denotes no key keeps the previous key.
pub fn edit_key_name(index: usize, key: Key, direction: Direction, typed: &str) -> (message: Message)
    ensures
        message@ == edit_of(
            index,
            InstructionView::Token(TokenView::Key(typed_or(key_named(typed@), key), direction)),
        ),
{
    let chosen = match string_to_key(typed) {
        Ok(k) => k,
        Err(_) => key,
    };
    Message::EditInstruction(index, Instruction::Token(Token::Key(chosen, direction)))
}

/// The message sent when the direction of a key instruction is chosen.
pub fn edit_key_direction(index: usize, key: Key, selected: usize) -> (message: Message)
    ensures
        message@ == edit_of(
            index,
            InstructionView::Token(TokenView::Key(key, chosen_direction(selected as int))),
        ),
{
    let direction = if selected == 0 {
        Direction::Click
    } else if selected == 1 {
        Direction::Press
    } else {
        Direction::Release
    };
    Message::EditInstruction(index, Instruction::Token(Token::Key(key, direction)))
}

/// The message sent when the button name of a mouse-button instruction is
/// typed; a name that denotes no button keeps the previous button.
pub fn edit_button_name(index: usize, button: Button, direction: Direction, typed: &str) -> (message:
    Message)
    ensures
        message@ == edit_of(
            index,
            InstructionView::Token(
                TokenView::Button(typed_or(button_named(typed@), button), direction),
            ),
        ),
{
    let chosen = match string_to_button(typed) {
        Some(b) => b,
        None => button,
    };
    Message::EditInstruction(index, Instruction::Token(Token::Button(chosen, direction)))
}

/// The message sent when the direction of a mouse-button instruction is chosen.
pub fn edit_button_direction(index: usize, button: Button, selected: usize) -> (message: Message)
    ensures
        message@ == edit_of(
            index,
            InstructionView::Token(TokenView::Button(button, chosen_direction(selected as int))),
        ),
{
    let direction = if selected == 0 {
        Direction::Click
    } else if selected == 1 {
        Direction::Press
    } else {
        Direction::Release
    };
    Message::EditInstruction(index, Instruction::Token(Token::Button(button, direction)))
}

/// The message sent when the x value of a pointer move is typed; text that
/// does not read as an `i32` keeps the previous value.
pub fn edit_move_x(index: usize, x: i32, y: i32, coordinate: Coordinate, typed: &str) -> (message:
    Message)
    ensures
        message@ == edit_of(
            index,
            InstructionView::Token(TokenView::MoveMouse(typed_or(parsed_i32(typed@), x), y, coordinate)),
        ),
{
    let new_x = match parse_i32(typed) {
        Some(v) => v,
        None => x,
    };
    Message::EditInstruction(index, Instruction::Token(Token::MoveMouse(new_x, y, coordinate)))
}

/// The message sent when the y value of a pointer move is typed; text that
/// does not read as an `i32` keeps the previous value.
pub fn edit_move_y(index: usize, x: i32, y: i32, coordinate: Coordinate, typed: &str) -> (message:
    Message)
    ensures
        message@ == edit_of(
            index,
            InstructionView::Token(TokenView::MoveMouse(x, typed_or(parsed_i32(typed@), y), coordinate)),
        ),
{
    let new_y = match parse_i32(typed) {
        Some(v) => v,
        None => y,
    };
    Message::EditInstruction(index, Instruction::Token(Token::MoveMouse(x, new_y, coordinate)))
}

/// The message sent when the coordinate mode of a pointer move is chosen.
pub fn edit_move_coordinate(index: usize, x: i32, y: i32, selected: usize) -> (message: Message)
    ensures
        message@ == edit_of(
            index,
            InstructionView::Token(TokenView::MoveMouse(x, y, chosen_coordinate(selected as int))),
        ),
{
    let coordinate = if selected == 0 {
        Coordinate::Abs
    } else {
        Coordinate::Rel
    };
    Message::EditInstruction(index, Instruction::Token(Token::MoveMouse(x, y, coordinate)))
}

/// The message sent when the amount of a scroll is typed; text that does not
/// read as an `i32` keeps the previous amount.
pub fn edit_scroll_amount(index: usize, amount: i32, axis: Axis, typed: &str) -> (message: Message)
    ensures
        message@ == edit_of(
            index,
            InstructionView::Token(TokenView::Scroll(typed_or(parsed_i32(typed@), amount), axis)),
        ),
{
    let new_amount = match parse_i32(typed) {
        Some(v) => v,
        None => amount,
    };
    Message::EditInstruction(index, Instruction::Token(Token::Scroll(new_amount, axis)))
}

/// The message sent when the axis of a scroll is chosen.
pub fn edit_scroll_axis(index: usize, amount: i32, selected: usize) -> (message: Message)
    ensures
        message@ == edit_of(
            index,
            InstructionView::Token(TokenView::Scroll(amount, chosen_axis(selected as int))),
        ),
{
    let axis = if selected == 0 {
        Axis::Vertical
    } else {
        Axis::Horizontal
    };
    Message::EditInstruction(index, Instruction::Token(Token::Scroll(amount, axis)))
}

/// The message sent when the duration of a wait is typed; text that does not
/// read as a `u64` keeps the previous duration.
pub fn edit_wait(index: usize, duration: u64, typed: &str) -> (message: Message)
    ensures
        message@ == edit_of(index, InstructionView::Wait(typed_or(parsed_u64(typed@), duration))),
{
    let new_duration = match parse_u64(typed) {
        Some(v) => v,
        None => duration,
    };
    Message::EditInstruction(index, Instruction::Wait(new_duration))
}

/// The message sent when the path of a script instruction is typed.
pub fn edit_script(index: usize, path: String) -> (message: Message)
    ensures
        message@ == edit_of(index, InstructionView::Script(path@)),
{
    Message::EditInstruction(index, Instruction::Script(path))
}

/// Adding an instruction and then removing the instruction at the same
/// position gives back the state from before.
pub proof fn lemma_add_then_remove_restores(
    state: EditorView,
    index: usize,
    instruction: InstructionView,
)
    requires
        state.current is Some,
        index <= state.current->Some_0.code.len(),
        index <= isize::MAX,
    ensures
        accepts(state, MessageView::AddInstruction(index, instruction)),
        accepts(
            next_state(state, MessageView::AddInstruction(index, instruction)).0,
            MessageView::RemoveInstruction(index as isize),
        ),
        next_state(
            next_state(state, MessageView::AddInstruction(index, instruction)).0,
            MessageView::RemoveInstruction(index as isize),
        ).0 == state,
{
    let m = state.current->Some_0;
    assert(m.code.insert(index as int, instruction).remove(index as int) =~= m.code);
}

/// Clearing leaves the macro being edited with no instructions, under the same
/// name and description.
pub proof fn lemma_clear_empties(state: EditorView)
    requires
        state.current is Some,
    ensures
        next_state(state, MessageView::ClearInstructions).0.current == Some(
            with_code(state.current->Some_0, Seq::empty()),
        ),
{
}

/// Editing an instruction replaces that one instruction and keeps the length
/// of the list and every other instruction.
pub proof fn lemma_edit_replaces_one(state: EditorView, index: usize, instruction: InstructionView)
    requires
        state.current is Some,
        state.current->Some_0.code.len() > 0,
        accepts(state, MessageView::EditInstruction(index, instruction)),
    ensures
        ({
            let after = next_state(state, MessageView::EditInstruction(index, instruction)).0.current->Some_0;
            let before = state.current->Some_0;
            &&& after.code.len() == before.code.len()
            &&& after.code[index as int] == instruction
            &&& forall|j: int| 0 <= j < before.code.len() && j != index ==> #[trigger] after.code[j]
                == before.code[j]
        }),
{
}

/// Renaming changes the name of the macro being edited and nothing else.
pub proof fn lemma_set_title_renames(state: EditorView, title: Seq<char>)
    requires
        state.current is Some,
    ensures
        next_state(state, MessageView::SetTitle(title)).0.current == Some(
            MacroView {
                name: title,
                description: state.current->Some_0.description,
                code: state.current->Some_0.code,
            },
        ),
        next_state(state, MessageView::SetTitle(title)).0.selected == state.selected,
{
}

/// Only selecting a macro changes which stored macro is selected.
pub proof fn lemma_selection_changes_only_on_select(state: EditorView, message: MessageView)
    requires
        !(message is SelectMacro),
    ensures
        next_state(state, message).0.selected == state.selected,
{
}

/// With no macro being edited, every message but a selection leaves the
/// state as it is and asks for no outside work.
pub proof fn lemma_nothing_to_edit(state: EditorView, message: MessageView)
    requires
        state.current is None,
        !(message is SelectMacro),
    ensures
        next_state(state, message) == (state, Effect::Nothing),
{
}

/// Selecting a macro selects it, keeps the macro being edited until the
/// selected one is loaded, and asks for that load.
pub proof fn lemma_select_asks_for_load(state: EditorView, index: usize)
    ensures
        next_state(state, MessageView::SelectMacro(index)) == (
            EditorView { selected: Some(index), current: state.current },
            Effect::LoadMacro(index),
        ),
{
}

/// Adding an instruction at `index` puts it at that position: the instructions
/// before it stay where they were, the ones from `index` on move one place
/// later, and the name and description are kept.
pub proof fn lemma_add_inserts_at_index(state: EditorView, index: usize, instruction: InstructionView)
    requires
        state.current is Some,
        index <= state.current->Some_0.code.len(),
    ensures
        ({
            let before = state.current->Some_0;
            let after = next_state(state, MessageView::AddInstruction(index, instruction)).0;
            &&& after.selected == state.selected
            &&& after.current is Some
            &&& after.current->Some_0.name == before.name
            &&& after.current->Some_0.description == before.description
            &&& after.current->Some_0.code.len() == before.code.len() + 1
            &&& after.current->Some_0.code[index as int] == instruction
            &&& forall|j: int|
                0 <= j < index ==> #[trigger] after.current->Some_0.code[j] == before.code[j]
            &&& forall|j: int|
                index <= j < before.code.len() ==> after.current->Some_0.code[j + 1]
                    == #[trigger] before.code[j]
        }),
{
}

/// Removing the instruction at a position inside the list takes out exactly
/// that instruction: the ones before it stay, the ones after it move one place
/// earlier, and the name and description are kept.
pub proof fn lemma_remove_takes_out_index(state: EditorView, index: isize)
    requires
        state.current is Some,
        0 <= index < state.current->Some_0.code.len(),
    ensures
        ({
            let before = state.current->Some_0;
            let after = next_state(state, MessageView::RemoveInstruction(index)).0;
            &&& after.selected == state.selected
            &&& after.current is Some
            &&& after.current->Some_0.name == before.name
            &&& after.current->Some_0.description == before.description
            &&& after.current->Some_0.code.len() == before.code.len() - 1
            &&& forall|j: int|
                0 <= j < index ==> #[trigger] after.current->Some_0.code[j] == before.code[j]
            &&& forall|j: int|
                index <= j < before.code.len() - 1 ==> #[trigger] after.current->Some_0.code[j]
                    == before.code[j + 1]
        }),
{
}

/// Messages that name no instruction position are taken in every state, and
/// so is every selection of a stored macro, whatever is being edited.
pub proof fn lemma_accepts_position_free_messages(state: EditorView, index: usize, title: Seq<char>)
    ensures
        accepts(state, MessageView::SelectMacro(index)),
        accepts(state, MessageView::RunMacro),
        accepts(state, MessageView::SetTitle(title)),
        accepts(state, MessageView::ClearInstructions),
        accepts(state, MessageView::SaveMacro),
{
}

/// Positions that name an instruction are taken exactly when they lie inside
/// the list the message works on.
pub proof fn lemma_accepts_positions_in_range(
    state: EditorView,
    index: usize,
    position: isize,
    instruction: InstructionView,
)
    requires
        state.current is Some,
    ensures
        accepts(state, MessageView::AddInstruction(index, instruction)) <==> index
            <= state.current->Some_0.code.len(),
        state.current->Some_0.code.len() > 0 ==> (accepts(
            state,
            MessageView::EditInstruction(index, instruction),
        ) <==> index < state.current->Some_0.code.len()),
        (state.current->Some_0.code.len() > 0 && position >= 0) ==> (accepts(
            state,
            MessageView::RemoveInstruction(position),
        ) <==> position < state.current->Some_0.code.len()),
{
}

/// The kind of an instruction, numbered as the instruction kinds are listed:
/// wait, text, key, mouse button, pointer move, scroll, script; other events
/// have no kind that can be added.
pub open spec fn instruction_kind(instruction: InstructionView) -> int {
    match instruction {
        InstructionView::Wait(_) => 0,
        InstructionView::Token(TokenView::Text(_)) => 1,
        InstructionView::Token(TokenView::Key(_, _)) => 2,
        InstructionView::Token(TokenView::Button(_, _)) => 3,
        InstructionView::Token(TokenView::MoveMouse(_, _, _)) => 4,
        InstructionView::Token(TokenView::Scroll(_, _)) => 5,
        InstructionView::Script(_) => 6,
        _ => -1,
    }
}

/// The instructions that the entries of the "add instruction" dropdown insert, in order.
pub open spec fn add_dropdown_entries() -> Seq<InstructionView> {
    seq![
        InstructionView::Wait(1000),
        InstructionView::Token(TokenView::Text("text"@)),
        InstructionView::Token(TokenView::Key(Key::Unicode('a'), Direction::Press)),
        InstructionView::Token(TokenView::Button(Button::Left, Direction::Click)),
        InstructionView::Token(TokenView::MoveMouse(100, 100, Coordinate::Rel)),
        InstructionView::Token(TokenView::Scroll(4, Axis::Vertical)),
        InstructionView::Script("script"@),
    ]
}

/// Each entry of the "add instruction" dropdown adds an instruction of the
/// kind its label names (entry `k` is kind `k`, as the labels are listed), and
/// that instruction is the entry's fixed starting instruction.
pub proof fn lemma_added_instruction_matches_entry(selected: int)
    requires
        0 <= selected < add_instruction_labels().len(),
    ensures
        add_dropdown_entries().len() == add_instruction_labels().len(),
        instruction_kind(added_instruction(selected)) == selected,
        added_instruction(selected) == add_dropdown_entries()[selected],
{
}

/// The starting instruction of each listed instruction kind is of that kind.
pub proof fn lemma_default_instruction_kind(instruction_type: int)
    requires
        0 <= instruction_type < crate::instruction_utils::instruction_type_labels().len(),
    ensures
        crate::instruction_utils::default_instruction(instruction_type) is Some,
        instruction_kind(crate::instruction_utils::default_instruction(instruction_type)->Some_0)
            == instruction_type,
{
}

} // verus!
