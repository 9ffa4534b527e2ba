//! Mouse buttons in the editor: their dropdown positions and labels, and the
//! conversions between buttons and the labels typed for them.
use vstd::prelude::*;
use crate::input::Button;
use crate::text::text_eq;

verus! {

/// The labels of the mouse-button dropdown, in order.
pub open spec fn button_labels() -> Seq<Seq<char>> {
    seq![
        "Left"@,
        "Right"@,
        "Middle"@,
        "Back"@,
        "Forward"@,
        "ScrollUp"@,
        "ScrollDown"@,
        "ScrollLeft"@,
        "ScrollRight"@,
    ]
}

/// The dropdown position of a mouse button.
pub open spec fn button_index(button: Button) -> int {
    match button {
        Button::Left => 0,
        Button::Right => 1,
        Button::Middle => 2,
        Button::Back => 3,
        Button::Forward => 4,
        Button::ScrollUp => 5,
        Button::ScrollDown => 6,
        Button::ScrollLeft => 7,
        Button::ScrollRight => 8,
    }
}

/// The mouse button at a dropdown position; positions past the end fall back to `Left`.
pub open spec fn button_at(index: int) -> Button {
    if index == 1 {
        Button::Right
    } else if index == 2 {
        Button::Middle
    } else if index == 3 {
        Button::Back
    } else if index == 4 {
        Button::Forward
    } else if index == 5 {
        Button::ScrollUp
    } else if index == 6 {
        Button::ScrollDown
    } else if index == 7 {
        Button::ScrollLeft
    } else if index == 8 {
        Button::ScrollRight
    } else {
        Button::Left
    }
}

/// The button that a label denotes, if any.
pub open spec fn button_named(s: Seq<char>) -> Option<Button> {
    if exists|i: int| 0 <= i < button_labels().len() && button_labels()[i] == s {
        Some(button_at(choose|i: int| 0 <= i < button_labels().len() && button_labels()[i] == s))
    } else {
        None
    }
}

pub fn get_mouse_button_names() -> (names: &'static [&'static str])
    ensures
        names@.map_values(|s: &str| s@) == button_labels(),
{
    let names: &'static [&'static str] = &[
        "Left",
        "Right",
        "Middle",
        "Back",
        "Forward",
        "ScrollUp",
        "ScrollDown",
        "ScrollLeft",
        "ScrollRight",
    ];
    names
}

pub fn mouse_button_to_index(button: &Button) -> (index: usize)
    ensures
        index == button_index(*button),
{
    match button {
        Button::Left => 0,
        Button::Right => 1,
        Button::Middle => 2,
        Button::Back => 3,
        Button::Forward => 4,
        Button::ScrollUp => 5,
        Button::ScrollDown => 6,
        Button::ScrollLeft => 7,
        Button::ScrollRight => 8,
    }
}

pub fn index_to_mouse_button(index: usize) -> (button: Button)
    ensures
        button == button_at(index as int),
{
    match index {
        0 => Button::Left,
        1 => Button::Right,
        2 => Button::Middle,
        3 => Button::Back,
        4 => Button::Forward,
        5 => Button::ScrollUp,
        6 => Button::ScrollDown,
        7 => Button::ScrollLeft,
        8 => Button::ScrollRight,
        _ => Button::Left,
    }
}

/// The label of a mouse button: the dropdown label at the button's position.
pub fn button_to_string(button: &Button) -> (name: &'static str)
    ensures
        name@ == button_labels()[button_index(*button)],
{
    let names = get_mouse_button_names();
    let index = mouse_button_to_index(button);
    proof {
        assert(names@.map_values(|s: &str| s@).len() == names@.len());
        assert(names@.map_values(|s: &str| s@)[index as int] == names@[index as int]@);
    }
    names[index]
}

/// Reads a mouse button from its label: the button at the position of the
/// label in the dropdown, or `None` when no label matches.
pub fn string_to_button(name: &str) -> (button: Option<Button>)
    ensures
        button == button_named(name@),
{
    let names = get_mouse_button_names();
    let ghost labels = button_labels();
    let mut i: usize = 0;
    while i < names.len()
        invariant
            0 <= i <= names@.len(),
            names@.map_values(|s: &str| s@) == labels,
            labels == button_labels(),
            forall|j: int| 0 <= j < i ==> labels[j] != name@,
        decreases names@.len() - i,
    {
        proof {
            assert(names@.map_values(|s: &str| s@)[i as int] == names@[i as int]@);
        }
        if text_eq(names[i], name) {
            proof {
                lemma_button_labels_distinct();
                assert(labels[i as int] == name@);
                let j = choose|j: int| 0 <= j < labels.len() && labels[j] == name@;
                assert(j == i);
            }
            return Some(index_to_mouse_button(i));
        }
        i = i + 1;
    }
    None
}

/// The labels of the mouse-button dropdown are pairwise different.
pub proof fn lemma_button_labels_distinct()
    ensures
        forall|i: int, j: int|
            0 <= i < button_labels().len() && 0 <= j < button_labels().len() && i != j
                ==> button_labels()[i] != button_labels()[j],
{
    broadcast use vstd::string::group_string_axioms;

    reveal_strlit("Left");
    reveal_strlit("Right");
    reveal_strlit("Middle");
    reveal_strlit("Back");
    reveal_strlit("Forward");
    reveal_strlit("ScrollUp");
    reveal_strlit("ScrollDown");
    reveal_strlit("ScrollLeft");
    reveal_strlit("ScrollRight");
    assert("Left"@.len() == 4);
    assert("Right"@.len() == 5);
    assert("Middle"@.len() == 6);
    assert("Back"@.len() == 4 && "Back"@[0] == 'B' && "Left"@[0] == 'L');
    assert("Forward"@.len() == 7);
    assert("ScrollUp"@.len() == 8);
    assert("ScrollDown"@.len() == 10 && "ScrollDown"@[6] == 'D' && "ScrollLeft"@[6] == 'L');
    assert("ScrollLeft"@.len() == 10);
    assert("ScrollRight"@.len() == 11);
}

/// Every button sits at a position of the dropdown, and reading that position
/// back gives the same button.
pub proof fn lemma_button_roundtrip(button: Button)
    ensures
        0 <= button_index(button) < button_labels().len(),
        button_at(button_index(button)) == button,
{
}

/// Every position of the dropdown names a button whose position it is.
pub proof fn lemma_button_position_roundtrip(index: int)
    requires
        0 <= index < button_labels().len(),
    ensures
        button_index(button_at(index)) == index,
{
}

/// Reading back the label of a button gives that button.
pub proof fn lemma_button_label_roundtrip(button: Button)
    ensures
        button_named(button_labels()[button_index(button)]) == Some(button),
{
    lemma_button_labels_distinct();
    let s = button_labels()[button_index(button)];
    assert(0 <= button_index(button) < button_labels().len() && button_labels()[button_index(button)] == s);
    let j = choose|i: int| 0 <= i < button_labels().len() && button_labels()[i] == s;
    assert(j == button_index(button));
}

} // verus!
