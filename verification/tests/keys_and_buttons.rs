use macros::input::{Button, Key};
use macros::keys::{key_to_string, string_to_key};
use macros::mouse::{
    button_to_string, get_mouse_button_names, index_to_mouse_button, mouse_button_to_index,
    string_to_button,
};

#[test]
fn named_keys_read_from_their_names() {
    assert_eq!(string_to_key("F1"), Ok(Key::F1));
    assert_eq!(string_to_key("F24"), Ok(Key::F24));
    assert_eq!(string_to_key("Enter"), Ok(Key::Return));
    assert_eq!(string_to_key("LeftAlt"), Ok(Key::Option));
    assert_eq!(string_to_key("LeftShift"), Ok(Key::LShift));
    assert_eq!(string_to_key("ScrollLock"), Ok(Key::ScrollLock));
    assert_eq!(string_to_key("VolumeUp"), Ok(Key::VolumeUp));
}

#[test]
fn super_is_an_alias_of_meta() {
    assert_eq!(string_to_key("Super"), Ok(Key::Meta));
    assert_eq!(key_to_string(&Key::Meta), Ok("Meta".to_string()));
}

#[test]
fn single_ascii_character_reads_as_unicode_key() {
    assert_eq!(string_to_key("a"), Ok(Key::Unicode('a')));
    assert_eq!(string_to_key("F"), Ok(Key::Unicode('F')));
    assert_eq!(string_to_key(" "), Ok(Key::Unicode(' ')));
}

#[test]
fn unknown_key_strings_are_refused() {
    assert_eq!(string_to_key(""), Err("Unknown key string"));
    assert_eq!(string_to_key("F25"), Err("Unknown key string"));
    assert_eq!(string_to_key("enter"), Err("Unknown key string"));
    assert_eq!(string_to_key("é"), Err("Unknown key string"));
    assert_eq!(string_to_key("ab"), Err("Unknown key string"));
}

#[test]
fn keys_write_their_names() {
    assert_eq!(key_to_string(&Key::F12), Ok("F12".to_string()));
    assert_eq!(key_to_string(&Key::Return), Ok("Enter".to_string()));
    assert_eq!(key_to_string(&Key::RControl), Ok("RightControl".to_string()));
    assert_eq!(key_to_string(&Key::Option), Ok("LeftAlt".to_string()));
    assert_eq!(key_to_string(&Key::Unicode('z')), Ok("z".to_string()));
    assert_eq!(key_to_string(&Key::Unicode('é')), Ok("é".to_string()));
}

#[test]
fn keys_without_names_are_refused() {
    assert_eq!(key_to_string(&Key::Add), Err("Unknown key"));
    assert_eq!(key_to_string(&Key::F25), Err("Unknown key"));
    assert_eq!(key_to_string(&Key::Other(7)), Err("Unknown key"));
    assert_eq!(key_to_string(&Key::MicMute), Err("Unknown key"));
}

#[test]
fn key_names_read_back() {
    let keys = [
        Key::F1, Key::F9, Key::F10, Key::F20, Key::Escape, Key::Space, Key::Return, Key::Tab,
        Key::Backspace, Key::CapsLock, Key::Shift, Key::Control, Key::Alt, Key::Meta,
        Key::LeftArrow, Key::RightArrow, Key::UpArrow, Key::DownArrow, Key::Insert, Key::Delete,
        Key::Home, Key::End, Key::PageUp, Key::PageDown, Key::Numlock, Key::ScrollLock,
        Key::Pause, Key::PrintScr, Key::LMenu, Key::LShift, Key::RShift, Key::LControl,
        Key::RControl, Key::Option, Key::Select, Key::VolumeDown, Key::VolumeMute,
        Key::VolumeUp, Key::Unicode('q'), Key::Unicode('7'),
    ];
    for key in keys {
        let name = key_to_string(&key).unwrap();
        assert_eq!(string_to_key(&name), Ok(key));
    }
}

#[test]
fn non_ascii_character_name_does_not_read_back() {
    let name = key_to_string(&Key::Unicode('ß')).unwrap();
    assert!(string_to_key(&name).is_err());
}

#[test]
fn mouse_button_names_in_order() {
    assert_eq!(
        get_mouse_button_names(),
        &["Left", "Right", "Middle", "Back", "Forward", "ScrollUp", "ScrollDown", "ScrollLeft", "ScrollRight"]
    );
}

#[test]
fn mouse_button_positions() {
    assert_eq!(mouse_button_to_index(&Button::Left), 0);
    assert_eq!(mouse_button_to_index(&Button::Middle), 2);
    assert_eq!(mouse_button_to_index(&Button::ScrollRight), 8);
    assert_eq!(index_to_mouse_button(1), Button::Right);
    assert_eq!(index_to_mouse_button(6), Button::ScrollDown);
    assert_eq!(index_to_mouse_button(9), Button::Left);
    assert_eq!(index_to_mouse_button(usize::MAX), Button::Left);
}

#[test]
fn mouse_button_positions_round_trip() {
    for i in 0..9 {
        assert_eq!(mouse_button_to_index(&index_to_mouse_button(i)), i);
    }
    let buttons = [
        Button::Left, Button::Middle, Button::Right, Button::Back, Button::Forward,
        Button::ScrollUp, Button::ScrollDown, Button::ScrollLeft, Button::ScrollRight,
    ];
    for b in buttons {
        assert_eq!(index_to_mouse_button(mouse_button_to_index(&b)), b);
        assert_eq!(string_to_button(button_to_string(&b)), Some(b));
    }
}

#[test]
fn mouse_button_labels() {
    assert_eq!(button_to_string(&Button::Forward), "Forward");
    assert_eq!(string_to_button("ScrollLeft"), Some(Button::ScrollLeft));
    assert_eq!(string_to_button("left"), None);
    assert_eq!(string_to_button(""), None);
}
