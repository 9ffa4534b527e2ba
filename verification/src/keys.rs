//! The names under which keys are written in a macro editor, and the
//! conversions between keys and those names.
use vstd::prelude::*;
use crate::input::Key;
use crate::text::{push_char, text_eq};

verus! {

/// The name under which a key is written, if it has one: the named keys by
/// their labels, and a character key by its character.
pub open spec fn key_name(key: Key) -> Option<Seq<char>> {
    match key {
        Key::F1 => Some("F1"@),
        Key::F2 => Some("F2"@),
        Key::F3 => Some("F3"@),
        Key::F4 => Some("F4"@),
        Key::F5 => Some("F5"@),
        Key::F6 => Some("F6"@),
        Key::F7 => Some("F7"@),
        Key::F8 => Some("F8"@),
        Key::F9 => Some("F9"@),
        Key::F10 => Some("F10"@),
        Key::F11 => Some("F11"@),
        Key::F12 => Some("F12"@),
        Key::F13 => Some("F13"@),
        Key::F14 => Some("F14"@),
        Key::F15 => Some("F15"@),
        Key::F16 => Some("F16"@),
        Key::F17 => Some("F17"@),
        Key::F18 => Some("F18"@),
        Key::F19 => Some("F19"@),
        Key::F20 => Some("F20"@),
        Key::F21 => Some("F21"@),
        Key::F22 => Some("F22"@),
        Key::F23 => Some("F23"@),
        Key::F24 => Some("F24"@),
        Key::Escape => Some("Escape"@),
        Key::Space => Some("Space"@),
        Key::Return => Some("Enter"@),
        Key::Tab => Some("Tab"@),
        Key::Backspace => Some("Backspace"@),
        Key::CapsLock => Some("CapsLock"@),
        Key::Shift => Some("Shift"@),
        Key::Control => Some("Control"@),
        Key::Alt => Some("Alt"@),
        Key::Meta => Some("Meta"@),
        Key::LeftArrow => Some("LeftArrow"@),
        Key::RightArrow => Some("RightArrow"@),
        Key::UpArrow => Some("UpArrow"@),
        Key::DownArrow => Some("DownArrow"@),
        Key::Insert => Some("Insert"@),
        Key::Delete => Some("Delete"@),
        Key::Home => Some("Home"@),
        Key::End => Some("End"@),
        Key::PageUp => Some("PageUp"@),
        Key::PageDown => Some("PageDown"@),
        Key::Numlock => Some("Numlock"@),
        Key::ScrollLock => Some("ScrollLock"@),
        Key::Pause => Some("Pause"@),
        Key::PrintScr => Some("PrintScr"@),
        Key::LMenu => Some("LMenu"@),
        Key::LShift => Some("LeftShift"@),
        Key::RShift => Some("RightShift"@),
        Key::LControl => Some("LeftControl"@),
        Key::RControl => Some("RightControl"@),
        Key::Option => Some("LeftAlt"@),
        Key::Select => Some("Select"@),
        Key::VolumeDown => Some("VolumeDown"@),
        Key::VolumeMute => Some("VolumeMute"@),
        Key::VolumeUp => Some("VolumeUp"@),
        Key::Unicode(c) => Some(seq![c]),
        _ => None,
    }
}

/// Whether `s` is exactly one ASCII character, which is what a one-byte
/// string holds.
pub open spec fn is_single_ascii(s: Seq<char>) -> bool {
    s.len() == 1 && (s[0] as u32) < 128
}

/// The key that a name denotes, if any: the labels of the named keys, `Super`
/// for the meta key, and any single ASCII character for that character's key.
pub open spec fn key_named(s: Seq<char>) -> Option<Key> {
    if s == "F1"@ {
        Some(Key::F1)
    } else if s == "F2"@ {
        Some(Key::F2)
    } else if s == "F3"@ {
        Some(Key::F3)
    } else if s == "F4"@ {
        Some(Key::F4)
    } else if s == "F5"@ {
        Some(Key::F5)
    } else if s == "F6"@ {
        Some(Key::F6)
    } else if s == "F7"@ {
        Some(Key::F7)
    } else if s == "F8"@ {
        Some(Key::F8)
    } else if s == "F9"@ {
        Some(Key::F9)
    } else if s == "F10"@ {
        Some(Key::F10)
    } else if s == "F11"@ {
        Some(Key::F11)
    } else if s == "F12"@ {
        Some(Key::F12)
    } else if s == "F13"@ {
        Some(Key::F13)
    } else if s == "F14"@ {
        Some(Key::F14)
    } else if s == "F15"@ {
        Some(Key::F15)
    } else if s == "F16"@ {
        Some(Key::F16)
    } else if s == "F17"@ {
        Some(Key::F17)
    } else if s == "F18"@ {
        Some(Key::F18)
    } else if s == "F19"@ {
        Some(Key::F19)
    } else if s == "F20"@ {
        Some(Key::F20)
    } else if s == "F21"@ {
        Some(Key::F21)
    } else if s == "F22"@ {
        Some(Key::F22)
    } else if s == "F23"@ {
        Some(Key::F23)
    } else if s == "F24"@ {
        Some(Key::F24)
    } else if s == "Escape"@ {
        Some(Key::Escape)
    } else if s == "Space"@ {
        Some(Key::Space)
    } else if s == "Enter"@ {
        Some(Key::Return)
    } else if s == "Tab"@ {
        Some(Key::Tab)
    } else if s == "Backspace"@ {
        Some(Key::Backspace)
    } else if s == "CapsLock"@ {
        Some(Key::CapsLock)
    } else if s == "Shift"@ {
        Some(Key::Shift)
    } else if s == "Control"@ {
        Some(Key::Control)
    } else if s == "Alt"@ {
        Some(Key::Alt)
    } else if s == "Meta"@ {
        Some(Key::Meta)
    } else if s == "Super"@ {
        Some(Key::Meta)
    } else if s == "LeftArrow"@ {
        Some(Key::LeftArrow)
    } else if s == "RightArrow"@ {
        Some(Key::RightArrow)
    } else if s == "UpArrow"@ {
        Some(Key::UpArrow)
    } else if s == "DownArrow"@ {
        Some(Key::DownArrow)
    } else if s == "Insert"@ {
        Some(Key::Insert)
    } else if s == "Delete"@ {
        Some(Key::Delete)
    } else if s == "Home"@ {
        Some(Key::Home)
    } else if s == "End"@ {
        Some(Key::End)
    } else if s == "PageUp"@ {
        Some(Key::PageUp)
    } else if s == "PageDown"@ {
        Some(Key::PageDown)
    } else if s == "Numlock"@ {
        Some(Key::Numlock)
    } else if s == "ScrollLock"@ {
        Some(Key::ScrollLock)
    } else if s == "Pause"@ {
        Some(Key::Pause)
    } else if s == "PrintScr"@ {
        Some(Key::PrintScr)
    } else if s == "LMenu"@ {
        Some(Key::LMenu)
    } else if s == "LeftShift"@ {
        Some(Key::LShift)
    } else if s == "RightShift"@ {
        Some(Key::RShift)
    } else if s == "LeftControl"@ {
        Some(Key::LControl)
    } else if s == "RightControl"@ {
        Some(Key::RControl)
    } else if s == "LeftAlt"@ {
        Some(Key::Option)
    } else if s == "Select"@ {
        Some(Key::Select)
    } else if s == "VolumeDown"@ {
        Some(Key::VolumeDown)
    } else if s == "VolumeMute"@ {
        Some(Key::VolumeMute)
    } else if s == "VolumeUp"@ {
        Some(Key::VolumeUp)
    } else if is_single_ascii(s) {
        Some(Key::Unicode(s[0]))
    } else {
        None
    }
}

/// Reads a key from its name.
pub fn string_to_key(key_str: &str) -> (key: Result<Key, &'static str>)
    ensures
        match key_named(key_str@) {
            Some(k) => key == Ok::<Key, &'static str>(k),
            None => key matches Err(e) && e@ == "Unknown key string"@,
        },
{
    if text_eq(key_str, "F1") {
        Ok(Key::F1)
    } else if text_eq(key_str, "F2") {
        Ok(Key::F2)
    } else if text_eq(key_str, "F3") {
        Ok(Key::F3)
    } else if text_eq(key_str, "F4") {
        Ok(Key::F4)
    } else if text_eq(key_str, "F5") {
        Ok(Key::F5)
    } else if text_eq(key_str, "F6") {
        Ok(Key::F6)
    } else if text_eq(key_str, "F7") {
        Ok(Key::F7)
    } else if text_eq(key_str, "F8") {
        Ok(Key::F8)
    } else if text_eq(key_str, "F9") {
        Ok(Key::F9)
    } else if text_eq(key_str, "F10") {
        Ok(Key::F10)
    } else if text_eq(key_str, "F11") {
        Ok(Key::F11)
    } else if text_eq(key_str, "F12") {
        Ok(Key::F12)
    } else if text_eq(key_str, "F13") {
        Ok(Key::F13)
    } else if text_eq(key_str, "F14") {
        Ok(Key::F14)
    } else if text_eq(key_str, "F15") {
        Ok(Key::F15)
    } else if text_eq(key_str, "F16") {
        Ok(Key::F16)
    } else if text_eq(key_str, "F17") {
        Ok(Key::F17)
    } else if text_eq(key_str, "F18") {
        Ok(Key::F18)
    } else if text_eq(key_str, "F19") {
        Ok(Key::F19)
    } else if text_eq(key_str, "F20") {
        Ok(Key::F20)
    } else if text_eq(key_str, "F21") {
        Ok(Key::F21)
    } else if text_eq(key_str, "F22") {
        Ok(Key::F22)
    } else if text_eq(key_str, "F23") {
        Ok(Key::F23)
    } else if text_eq(key_str, "F24") {
        Ok(Key::F24)
    } else if text_eq(key_str, "Escape") {
        Ok(Key::Escape)
    } else if text_eq(key_str, "Space") {
        Ok(Key::Space)
    } else if text_eq(key_str, "Enter") {
        Ok(Key::Return)
    } else if text_eq(key_str, "Tab") {
        Ok(Key::Tab)
    } else if text_eq(key_str, "Backspace") {
        Ok(Key::Backspace)
    } else if text_eq(key_str, "CapsLock") {
        Ok(Key::CapsLock)
    } else if text_eq(key_str, "Shift") {
        Ok(Key::Shift)
    } else if text_eq(key_str, "Control") {
        Ok(Key::Control)
    } else if text_eq(key_str, "Alt") {
        Ok(Key::Alt)
    } else if text_eq(key_str, "Meta") {
        Ok(Key::Meta)
    } else if text_eq(key_str, "Super") {
        Ok(Key::Meta)
    } else if text_eq(key_str, "LeftArrow") {
        Ok(Key::LeftArrow)
    } else if text_eq(key_str, "RightArrow") {
        Ok(Key::RightArrow)
    } else if text_eq(key_str, "UpArrow") {
        Ok(Key::UpArrow)
    } else if text_eq(key_str, "DownArrow") {
        Ok(Key::DownArrow)
    } else if text_eq(key_str, "Insert") {
        Ok(Key::Insert)
    } else if text_eq(key_str, "Delete") {
        Ok(Key::Delete)
    } else if text_eq(key_str, "Home") {
        Ok(Key::Home)
    } else if text_eq(key_str, "End") {
        Ok(Key::End)
    } else if text_eq(key_str, "PageUp") {
        Ok(Key::PageUp)
    } else if text_eq(key_str, "PageDown") {
        Ok(Key::PageDown)
    } else if text_eq(key_str, "Numlock") {
        Ok(Key::Numlock)
    } else if text_eq(key_str, "ScrollLock") {
        Ok(Key::ScrollLock)
    } else if text_eq(key_str, "Pause") {
        Ok(Key::Pause)
    } else if text_eq(key_str, "PrintScr") {
        Ok(Key::PrintScr)
    } else if text_eq(key_str, "LMenu") {
        Ok(Key::LMenu)
    } else if text_eq(key_str, "LeftShift") {
        Ok(Key::LShift)
    } else if text_eq(key_str, "RightShift") {
        Ok(Key::RShift)
    } else if text_eq(key_str, "LeftControl") {
        Ok(Key::LControl)
    } else if text_eq(key_str, "RightControl") {
        Ok(Key::RControl)
    } else if text_eq(key_str, "LeftAlt") {
        Ok(Key::Option)
    } else if text_eq(key_str, "Select") {
        Ok(Key::Select)
    } else if text_eq(key_str, "VolumeDown") {
        Ok(Key::VolumeDown)
    } else if text_eq(key_str, "VolumeMute") {
        Ok(Key::VolumeMute)
    } else if text_eq(key_str, "VolumeUp") {
        Ok(Key::VolumeUp)
    } else {
        let unknown = "Unknown key string";
        proof {
            reveal_strlit("Unknown key string");
        }
        if key_str.unicode_len() == 1 {
            let c = key_str.get_char(0);
            if (c as u32) < 128 {
                Ok(Key::Unicode(c))
            } else {
                Err(unknown)
            }
        } else {
            Err(unknown)
        }
    }
}

/// Writes the name of a key.
pub fn key_to_string(key: &Key) -> (name: Result<String, &'static str>)
    ensures
        match key_name(*key) {
            Some(n) => name matches Ok(s) && s@ == n,
            None => name matches Err(e) && e@ == "Unknown key"@,
        },
{
    match key {
        Key::F1 => Ok("F1".to_owned()),
        Key::F2 => Ok("F2".to_owned()),
        Key::F3 => Ok("F3".to_owned()),
        Key::F4 => Ok("F4".to_owned()),
        Key::F5 => Ok("F5".to_owned()),
        Key::F6 => Ok("F6".to_owned()),
        Key::F7 => Ok("F7".to_owned()),
        Key::F8 => Ok("F8".to_owned()),
        Key::F9 => Ok("F9".to_owned()),
        Key::F10 => Ok("F10".to_owned()),
        Key::F11 => Ok("F11".to_owned()),
        Key::F12 => Ok("F12".to_owned()),
        Key::F13 => Ok("F13".to_owned()),
        Key::F14 => Ok("F14".to_owned()),
        Key::F15 => Ok("F15".to_owned()),
        Key::F16 => Ok("F16".to_owned()),
        Key::F17 => Ok("F17".to_owned()),
        Key::F18 => Ok("F18".to_owned()),
        Key::F19 => Ok("F19".to_owned()),
        Key::F20 => Ok("F20".to_owned()),
        Key::F21 => Ok("F21".to_owned()),
        Key::F22 => Ok("F22".to_owned()),
        Key::F23 => Ok("F23".to_owned()),
        Key::F24 => Ok("F24".to_owned()),
        Key::Escape => Ok("Escape".to_owned()),
        Key::Space => Ok("Space".to_owned()),
        Key::Return => Ok("Enter".to_owned()),
        Key::Tab => Ok("Tab".to_owned()),
        Key::Backspace => Ok("Backspace".to_owned()),
        Key::CapsLock => Ok("CapsLock".to_owned()),
        Key::Shift => Ok("Shift".to_owned()),
        Key::Control => Ok("Control".to_owned()),
        Key::Alt => Ok("Alt".to_owned()),
        Key::Meta => Ok("Meta".to_owned()),
        Key::LeftArrow => Ok("LeftArrow".to_owned()),
        Key::RightArrow => Ok("RightArrow".to_owned()),
        Key::UpArrow => Ok("UpArrow".to_owned()),
        Key::DownArrow => Ok("DownArrow".to_owned()),
        Key::Insert => Ok("Insert".to_owned()),
        Key::Delete => Ok("Delete".to_owned()),
        Key::Home => Ok("Home".to_owned()),
        Key::End => Ok("End".to_owned()),
        Key::PageUp => Ok("PageUp".to_owned()),
        Key::PageDown => Ok("PageDown".to_owned()),
        Key::Numlock => Ok("Numlock".to_owned()),
        Key::ScrollLock => Ok("ScrollLock".to_owned()),
        Key::Pause => Ok("Pause".to_owned()),
        Key::PrintScr => Ok("PrintScr".to_owned()),
        Key::LMenu => Ok("LMenu".to_owned()),
        Key::LShift => Ok("LeftShift".to_owned()),
        Key::RShift => Ok("RightShift".to_owned()),
        Key::LControl => Ok("LeftControl".to_owned()),
        Key::RControl => Ok("RightControl".to_owned()),
        Key::Option => Ok("LeftAlt".to_owned()),
        Key::Select => Ok("Select".to_owned()),
        Key::VolumeDown => Ok("VolumeDown".to_owned()),
        Key::VolumeMute => Ok("VolumeMute".to_owned()),
        Key::VolumeUp => Ok("VolumeUp".to_owned()),
        Key::Unicode(c) => {
            let mut s = String::new();
            push_char(&mut s, *c);
            Ok(s)
        },
        _ => Err("Unknown key"),
    }
}

/// Reading back the name of a key gives that key, for every named key and every
/// ASCII character key.
pub proof fn lemma_key_name_roundtrip(key: Key)
    requires
        key_name(key) is Some,
        key is Unicode ==> (key->Unicode_0 as u32) < 128,
    ensures
        key_named(key_name(key).unwrap()) == Some(key),
{
    broadcast use vstd::string::group_string_axioms;

    reveal_strlit("Alt");
    assert("Alt"@.len() == 3 && "Alt"@[0] == 'A' && "Alt"@[1] == 'l' && "Alt"@[2] == 't');
    reveal_strlit("Backspace");
    assert("Backspace"@.len() == 9 && "Backspace"@[0] == 'B' && "Backspace"@[1] == 'a' && "Backspace"@[2] == 'c' && "Backspace"@[3] == 'k' && "Backspace"@[4] == 's' && "Backspace"@[5] == 'p' && "Backspace"@[6] == 'a' && "Backspace"@[7] == 'c' && "Backspace"@[8] == 'e');
    reveal_strlit("CapsLock");
    assert("CapsLock"@.len() == 8 && "CapsLock"@[0] == 'C' && "CapsLock"@[1] == 'a' && "CapsLock"@[2] == 'p' && "CapsLock"@[3] == 's' && "CapsLock"@[4] == 'L' && "CapsLock"@[5] == 'o' && "CapsLock"@[6] == 'c' && "CapsLock"@[7] == 'k');
    reveal_strlit("Control");
    assert("Control"@.len() == 7 && "Control"@[0] == 'C' && "Control"@[1] == 'o' && "Control"@[2] == 'n' && "Control"@[3] == 't' && "Control"@[4] == 'r' && "Control"@[5] == 'o' && "Control"@[6] == 'l');
    reveal_strlit("Delete");
    assert("Delete"@.len() == 6 && "Delete"@[0] == 'D' && "Delete"@[1] == 'e' && "Delete"@[2] == 'l' && "Delete"@[3] == 'e' && "Delete"@[4] == 't' && "Delete"@[5] == 'e');
    reveal_strlit("DownArrow");
    assert("DownArrow"@.len() == 9 && "DownArrow"@[0] == 'D' && "DownArrow"@[1] == 'o' && "DownArrow"@[2] == 'w' && "DownArrow"@[3] == 'n' && "DownArrow"@[4] == 'A' && "DownArrow"@[5] == 'r' && "DownArrow"@[6] == 'r' && "DownArrow"@[7] == 'o' && "DownArrow"@[8] == 'w');
    reveal_strlit("End");
    assert("End"@.len() == 3 && "End"@[0] == 'E' && "End"@[1] == 'n' && "End"@[2] == 'd');
    reveal_strlit("Enter");
    assert("Enter"@.len() == 5 && "Enter"@[0] == 'E' && "Enter"@[1] == 'n' && "Enter"@[2] == 't' && "Enter"@[3] == 'e' && "Enter"@[4] == 'r');
    reveal_strlit("Escape");
    assert("Escape"@.len() == 6 && "Escape"@[0] == 'E' && "Escape"@[1] == 's' && "Escape"@[2] == 'c' && "Escape"@[3] == 'a' && "Escape"@[4] == 'p' && "Escape"@[5] == 'e');
    reveal_strlit("F1");
    assert("F1"@.len() == 2 && "F1"@[0] == 'F' && "F1"@[1] == '1');
    reveal_strlit("F10");
    assert("F10"@.len() == 3 && "F10"@[0] == 'F' && "F10"@[1] == '1' && "F10"@[2] == '0');
    reveal_strlit("F11");
    assert("F11"@.len() == 3 && "F11"@[0] == 'F' && "F11"@[1] == '1' && "F11"@[2] == '1');
    reveal_strlit("F12");
    assert("F12"@.len() == 3 && "F12"@[0] == 'F' && "F12"@[1] == '1' && "F12"@[2] == '2');
    reveal_strlit("F13");
    assert("F13"@.len() == 3 && "F13"@[0] == 'F' && "F13"@[1] == '1' && "F13"@[2] == '3');
    reveal_strlit("F14");
    assert("F14"@.len() == 3 && "F14"@[0] == 'F' && "F14"@[1] == '1' && "F14"@[2] == '4');
    reveal_strlit("F15");
    assert("F15"@.len() == 3 && "F15"@[0] == 'F' && "F15"@[1] == '1' && "F15"@[2] == '5');
    reveal_strlit("F16");
    assert("F16"@.len() == 3 && "F16"@[0] == 'F' && "F16"@[1] == '1' && "F16"@[2] == '6');
    reveal_strlit("F17");
    assert("F17"@.len() == 3 && "F17"@[0] == 'F' && "F17"@[1] == '1' && "F17"@[2] == '7');
    reveal_strlit("F18");
    assert("F18"@.len() == 3 && "F18"@[0] == 'F' && "F18"@[1] == '1' && "F18"@[2] == '8');
    reveal_strlit("F19");
    assert("F19"@.len() == 3 && "F19"@[0] == 'F' && "F19"@[1] == '1' && "F19"@[2] == '9');
    reveal_strlit("F2");
    assert("F2"@.len() == 2 && "F2"@[0] == 'F' && "F2"@[1] == '2');
    reveal_strlit("F20");
    assert("F20"@.len() == 3 && "F20"@[0] == 'F' && "F20"@[1] == '2' && "F20"@[2] == '0');
    reveal_strlit("F21");
    assert("F21"@.len() == 3 && "F21"@[0] == 'F' && "F21"@[1] == '2' && "F21"@[2] == '1');
    reveal_strlit("F22");
    assert("F22"@.len() == 3 && "F22"@[0] == 'F' && "F22"@[1] == '2' && "F22"@[2] == '2');
    reveal_strlit("F23");
    assert("F23"@.len() == 3 && "F23"@[0] == 'F' && "F23"@[1] == '2' && "F23"@[2] == '3');
    reveal_strlit("F24");
    assert("F24"@.len() == 3 && "F24"@[0] == 'F' && "F24"@[1] == '2' && "F24"@[2] == '4');
    reveal_strlit("F3");
    assert("F3"@.len() == 2 && "F3"@[0] == 'F' && "F3"@[1] == '3');
    reveal_strlit("F4");
    assert("F4"@.len() == 2 && "F4"@[0] == 'F' && "F4"@[1] == '4');
    reveal_strlit("F5");
    assert("F5"@.len() == 2 && "F5"@[0] == 'F' && "F5"@[1] == '5');
    reveal_strlit("F6");
    assert("F6"@.len() == 2 && "F6"@[0] == 'F' && "F6"@[1] == '6');
    reveal_strlit("F7");
    assert("F7"@.len() == 2 && "F7"@[0] == 'F' && "F7"@[1] == '7');
    reveal_strlit("F8");
    assert("F8"@.len() == 2 && "F8"@[0] == 'F' && "F8"@[1] == '8');
    reveal_strlit("F9");
    assert("F9"@.len() == 2 && "F9"@[0] == 'F' && "F9"@[1] == '9');
    reveal_strlit("Home");
    assert("Home"@.len() == 4 && "Home"@[0] == 'H' && "Home"@[1] == 'o' && "Home"@[2] == 'm' && "Home"@[3] == 'e');
    reveal_strlit("Insert");
    assert("Insert"@.len() == 6 && "Insert"@[0] == 'I' && "Insert"@[1] == 'n' && "Insert"@[2] == 's' && "Insert"@[3] == 'e' && "Insert"@[4] == 'r' && "Insert"@[5] == 't');
    reveal_strlit("LMenu");
    assert("LMenu"@.len() == 5 && "LMenu"@[0] == 'L' && "LMenu"@[1] == 'M' && "LMenu"@[2] == 'e' && "LMenu"@[3] == 'n' && "LMenu"@[4] == 'u');
    reveal_strlit("LeftAlt");
    assert("LeftAlt"@.len() == 7 && "LeftAlt"@[0] == 'L' && "LeftAlt"@[1] == 'e' && "LeftAlt"@[2] == 'f' && "LeftAlt"@[3] == 't' && "LeftAlt"@[4] == 'A' && "LeftAlt"@[5] == 'l' && "LeftAlt"@[6] == 't');
    reveal_strlit("LeftArrow");
    assert("LeftArrow"@.len() == 9 && "LeftArrow"@[0] == 'L' && "LeftArrow"@[1] == 'e' && "LeftArrow"@[2] == 'f' && "LeftArrow"@[3] == 't' && "LeftArrow"@[4] == 'A' && "LeftArrow"@[5] == 'r' && "LeftArrow"@[6] == 'r' && "LeftArrow"@[7] == 'o' && "LeftArrow"@[8] == 'w');
    reveal_strlit("LeftControl");
    assert("LeftControl"@.len() == 11 && "LeftControl"@[0] == 'L' && "LeftControl"@[1] == 'e' && "LeftControl"@[2] == 'f' && "LeftControl"@[3] == 't' && "LeftControl"@[4] == 'C' && "LeftControl"@[5] == 'o' && "LeftControl"@[6] == 'n' && "LeftControl"@[7] == 't' && "LeftControl"@[8] == 'r' && "LeftControl"@[9] == 'o' && "LeftControl"@[10] == 'l');
    reveal_strlit("LeftShift");
    assert("LeftShift"@.len() == 9 && "LeftShift"@[0] == 'L' && "LeftShift"@[1] == 'e' && "LeftShift"@[2] == 'f' && "LeftShift"@[3] == 't' && "LeftShift"@[4] == 'S' && "LeftShift"@[5] == 'h' && "LeftShift"@[6] == 'i' && "LeftShift"@[7] == 'f' && "LeftShift"@[8] == 't');
    reveal_strlit("Meta");
    assert("Meta"@.len() == 4 && "Meta"@[0] == 'M' && "Meta"@[1] == 'e' && "Meta"@[2] == 't' && "Meta"@[3] == 'a');
    reveal_strlit("Numlock");
    assert("Numlock"@.len() == 7 && "Numlock"@[0] == 'N' && "Numlock"@[1] == 'u' && "Numlock"@[2] == 'm' && "Numlock"@[3] == 'l' && "Numlock"@[4] == 'o' && "Numlock"@[5] == 'c' && "Numlock"@[6] == 'k');
    reveal_strlit("PageDown");
    assert("PageDown"@.len() == 8 && "PageDown"@[0] == 'P' && "PageDown"@[1] == 'a' && "PageDown"@[2] == 'g' && "PageDown"@[3] == 'e' && "PageDown"@[4] == 'D' && "PageDown"@[5] == 'o' && "PageDown"@[6] == 'w' && "PageDown"@[7] == 'n');
    reveal_strlit("PageUp");
    assert("PageUp"@.len() == 6 && "PageUp"@[0] == 'P' && "PageUp"@[1] == 'a' && "PageUp"@[2] == 'g' && "PageUp"@[3] == 'e' && "PageUp"@[4] == 'U' && "PageUp"@[5] == 'p');
    reveal_strlit("Pause");
    assert("Pause"@.len() == 5 && "Pause"@[0] == 'P' && "Pause"@[1] == 'a' && "Pause"@[2] == 'u' && "Pause"@[3] == 's' && "Pause"@[4] == 'e');
    reveal_strlit("PrintScr");
    assert("PrintScr"@.len() == 8 && "PrintScr"@[0] == 'P' && "PrintScr"@[1] == 'r' && "PrintScr"@[2] == 'i' && "PrintScr"@[3] == 'n' && "PrintScr"@[4] == 't' && "PrintScr"@[5] == 'S' && "PrintScr"@[6] == 'c' && "PrintScr"@[7] == 'r');
    reveal_strlit("RightArrow");
    assert("RightArrow"@.len() == 10 && "RightArrow"@[0] == 'R' && "RightArrow"@[1] == 'i' && "RightArrow"@[2] == 'g' && "RightArrow"@[3] == 'h' && "RightArrow"@[4] == 't' && "RightArrow"@[5] == 'A' && "RightArrow"@[6] == 'r' && "RightArrow"@[7] == 'r' && "RightArrow"@[8] == 'o' && "RightArrow"@[9] == 'w');
    reveal_strlit("RightControl");
    assert("RightControl"@.len() == 12 && "RightControl"@[0] == 'R' && "RightControl"@[1] == 'i' && "RightControl"@[2] == 'g' && "RightControl"@[3] == 'h' && "RightControl"@[4] == 't' && "RightControl"@[5] == 'C' && "RightControl"@[6] == 'o' && "RightControl"@[7] == 'n' && "RightControl"@[8] == 't' && "RightControl"@[9] == 'r' && "RightControl"@[10] == 'o' && "RightControl"@[11] == 'l');
    reveal_strlit("RightShift");
    assert("RightShift"@.len() == 10 && "RightShift"@[0] == 'R' && "RightShift"@[1] == 'i' && "RightShift"@[2] == 'g' && "RightShift"@[3] == 'h' && "RightShift"@[4] == 't' && "RightShift"@[5] == 'S' && "RightShift"@[6] == 'h' && "RightShift"@[7] == 'i' && "RightShift"@[8] == 'f' && "RightShift"@[9] == 't');
    reveal_strlit("ScrollLock");
    assert("ScrollLock"@.len() == 10 && "ScrollLock"@[0] == 'S' && "ScrollLock"@[1] == 'c' && "ScrollLock"@[2] == 'r' && "ScrollLock"@[3] == 'o' && "ScrollLock"@[4] == 'l' && "ScrollLock"@[5] == 'l' && "ScrollLock"@[6] == 'L' && "ScrollLock"@[7] == 'o' && "ScrollLock"@[8] == 'c' && "ScrollLock"@[9] == 'k');
    reveal_strlit("Select");
    assert("Select"@.len() == 6 && "Select"@[0] == 'S' && "Select"@[1] == 'e' && "Select"@[2] == 'l' && "Select"@[3] == 'e' && "Select"@[4] == 'c' && "Select"@[5] == 't');
    reveal_strlit("Shift");
    assert("Shift"@.len() == 5 && "Shift"@[0] == 'S' && "Shift"@[1] == 'h' && "Shift"@[2] == 'i' && "Shift"@[3] == 'f' && "Shift"@[4] == 't');
    reveal_strlit("Space");
    assert("Space"@.len() == 5 && "Space"@[0] == 'S' && "Space"@[1] == 'p' && "Space"@[2] == 'a' && "Space"@[3] == 'c' && "Space"@[4] == 'e');
    reveal_strlit("Super");
    assert("Super"@.len() == 5 && "Super"@[0] == 'S' && "Super"@[1] == 'u' && "Super"@[2] == 'p' && "Super"@[3] == 'e' && "Super"@[4] == 'r');
    reveal_strlit("Tab");
    assert("Tab"@.len() == 3 && "Tab"@[0] == 'T' && "Tab"@[1] == 'a' && "Tab"@[2] == 'b');
    reveal_strlit("UpArrow");
    assert("UpArrow"@.len() == 7 && "UpArrow"@[0] == 'U' && "UpArrow"@[1] == 'p' && "UpArrow"@[2] == 'A' && "UpArrow"@[3] == 'r' && "UpArrow"@[4] == 'r' && "UpArrow"@[5] == 'o' && "UpArrow"@[6] == 'w');
    reveal_strlit("VolumeDown");
    assert("VolumeDown"@.len() == 10 && "VolumeDown"@[0] == 'V' && "VolumeDown"@[1] == 'o' && "VolumeDown"@[2] == 'l' && "VolumeDown"@[3] == 'u' && "VolumeDown"@[4] == 'm' && "VolumeDown"@[5] == 'e' && "VolumeDown"@[6] == 'D' && "VolumeDown"@[7] == 'o' && "VolumeDown"@[8] == 'w' && "VolumeDown"@[9] == 'n');
    reveal_strlit("VolumeMute");
    assert("VolumeMute"@.len() == 10 && "VolumeMute"@[0] == 'V' && "VolumeMute"@[1] == 'o' && "VolumeMute"@[2] == 'l' && "VolumeMute"@[3] == 'u' && "VolumeMute"@[4] == 'm' && "VolumeMute"@[5] == 'e' && "VolumeMute"@[6] == 'M' && "VolumeMute"@[7] == 'u' && "VolumeMute"@[8] == 't' && "VolumeMute"@[9] == 'e');
    reveal_strlit("VolumeUp");
    assert("VolumeUp"@.len() == 8 && "VolumeUp"@[0] == 'V' && "VolumeUp"@[1] == 'o' && "VolumeUp"@[2] == 'l' && "VolumeUp"@[3] == 'u' && "VolumeUp"@[4] == 'm' && "VolumeUp"@[5] == 'e' && "VolumeUp"@[6] == 'U' && "VolumeUp"@[7] == 'p');
    if let Key::Unicode(c) = key {
        assert(seq![c].len() == 1);
    }
}

/// Writing the name of the key that a name denotes gives that name back, for
/// every name but the `Super` alias of the meta key.
pub proof fn lemma_named_key_roundtrip(s: Seq<char>)
    requires
        key_named(s) is Some,
        s != "Super"@,
    ensures
        key_name(key_named(s).unwrap()) == Some(s),
{
    if is_single_ascii(s) {
        assert(seq![s[0]] =~= s);
    }
}

/// The named keys and their labels, in the order the editor lists them.
pub open spec fn key_labels() -> Seq<(Key, Seq<char>)> {
    seq![
        (Key::F1, "F1"@),
        (Key::F2, "F2"@),
        (Key::F3, "F3"@),
        (Key::F4, "F4"@),
        (Key::F5, "F5"@),
        (Key::F6, "F6"@),
        (Key::F7, "F7"@),
        (Key::F8, "F8"@),
        (Key::F9, "F9"@),
        (Key::F10, "F10"@),
        (Key::F11, "F11"@),
        (Key::F12, "F12"@),
        (Key::F13, "F13"@),
        (Key::F14, "F14"@),
        (Key::F15, "F15"@),
        (Key::F16, "F16"@),
        (Key::F17, "F17"@),
        (Key::F18, "F18"@),
        (Key::F19, "F19"@),
        (Key::F20, "F20"@),
        (Key::F21, "F21"@),
        (Key::F22, "F22"@),
        (Key::F23, "F23"@),
        (Key::F24, "F24"@),
        (Key::Escape, "Escape"@),
        (Key::Space, "Space"@),
        (Key::Return, "Enter"@),
        (Key::Tab, "Tab"@),
        (Key::Backspace, "Backspace"@),
        (Key::CapsLock, "CapsLock"@),
        (Key::Shift, "Shift"@),
        (Key::Control, "Control"@),
        (Key::Alt, "Alt"@),
        (Key::Meta, "Meta"@),
        (Key::LeftArrow, "LeftArrow"@),
        (Key::RightArrow, "RightArrow"@),
        (Key::UpArrow, "UpArrow"@),
        (Key::DownArrow, "DownArrow"@),
        (Key::Insert, "Insert"@),
        (Key::Delete, "Delete"@),
        (Key::Home, "Home"@),
        (Key::End, "End"@),
        (Key::PageUp, "PageUp"@),
        (Key::PageDown, "PageDown"@),
        (Key::Numlock, "Numlock"@),
        (Key::ScrollLock, "ScrollLock"@),
        (Key::Pause, "Pause"@),
        (Key::PrintScr, "PrintScr"@),
        (Key::LMenu, "LMenu"@),
        (Key::LShift, "LeftShift"@),
        (Key::RShift, "RightShift"@),
        (Key::LControl, "LeftControl"@),
        (Key::RControl, "RightControl"@),
        (Key::Option, "LeftAlt"@),
        (Key::Select, "Select"@),
        (Key::VolumeDown, "VolumeDown"@),
        (Key::VolumeMute, "VolumeMute"@),
        (Key::VolumeUp, "VolumeUp"@),
    ]
}

/// Each named key is written as its own label, and each label reads as its
/// own key.
pub proof fn lemma_key_labels(i: int)
    requires
        0 <= i < key_labels().len(),
    ensures
        key_name(key_labels()[i].0) == Some(key_labels()[i].1),
        key_named(key_labels()[i].1) == Some(key_labels()[i].0),
{
    if i == 0 {
        lemma_key_name_roundtrip(Key::F1);
    } else if i == 1 {
        lemma_key_name_roundtrip(Key::F2);
    } else if i == 2 {
        lemma_key_name_roundtrip(Key::F3);
    } else if i == 3 {
        lemma_key_name_roundtrip(Key::F4);
    } else if i == 4 {
        lemma_key_name_roundtrip(Key::F5);
    } else if i == 5 {
        lemma_key_name_roundtrip(Key::F6);
    } else if i == 6 {
        lemma_key_name_roundtrip(Key::F7);
    } else if i == 7 {
        lemma_key_name_roundtrip(Key::F8);
    } else if i == 8 {
        lemma_key_name_roundtrip(Key::F9);
    } else if i == 9 {
        lemma_key_name_roundtrip(Key::F10);
    } else if i == 10 {
        lemma_key_name_roundtrip(Key::F11);
    } else if i == 11 {
        lemma_key_name_roundtrip(Key::F12);
    } else if i == 12 {
        lemma_key_name_roundtrip(Key::F13);
    } else if i == 13 {
        lemma_key_name_roundtrip(Key::F14);
    } else if i == 14 {
        lemma_key_name_roundtrip(Key::F15);
    } else if i == 15 {
        lemma_key_name_roundtrip(Key::F16);
    } else if i == 16 {
        lemma_key_name_roundtrip(Key::F17);
    } else if i == 17 {
        lemma_key_name_roundtrip(Key::F18);
    } else if i == 18 {
        lemma_key_name_roundtrip(Key::F19);
    } else if i == 19 {
        lemma_key_name_roundtrip(Key::F20);
    } else if i == 20 {
        lemma_key_name_roundtrip(Key::F21);
    } else if i == 21 {
        lemma_key_name_roundtrip(Key::F22);
    } else if i == 22 {
        lemma_key_name_roundtrip(Key::F23);
    } else if i == 23 {
        lemma_key_name_roundtrip(Key::F24);
    } else if i == 24 {
        lemma_key_name_roundtrip(Key::Escape);
    } else if i == 25 {
        lemma_key_name_roundtrip(Key::Space);
    } else if i == 26 {
        lemma_key_name_roundtrip(Key::Return);
    } else if i == 27 {
        lemma_key_name_roundtrip(Key::Tab);
    } else if i == 28 {
        lemma_key_name_roundtrip(Key::Backspace);
    } else if i == 29 {
        lemma_key_name_roundtrip(Key::CapsLock);
    } else if i == 30 {
        lemma_key_name_roundtrip(Key::Shift);
    } else if i == 31 {
        lemma_key_name_roundtrip(Key::Control);
    } else if i == 32 {
        lemma_key_name_roundtrip(Key::Alt);
    } else if i == 33 {
        lemma_key_name_roundtrip(Key::Meta);
    } else if i == 34 {
        lemma_key_name_roundtrip(Key::LeftArrow);
    } else if i == 35 {
        lemma_key_name_roundtrip(Key::RightArrow);
    } else if i == 36 {
        lemma_key_name_roundtrip(Key::UpArrow);
    } else if i == 37 {
        lemma_key_name_roundtrip(Key::DownArrow);
    } else if i == 38 {
        lemma_key_name_roundtrip(Key::Insert);
    } else if i == 39 {
        lemma_key_name_roundtrip(Key::Delete);
    } else if i == 40 {
        lemma_key_name_roundtrip(Key::Home);
    } else if i == 41 {
        lemma_key_name_roundtrip(Key::End);
    } else if i == 42 {
        lemma_key_name_roundtrip(Key::PageUp);
    } else if i == 43 {
        lemma_key_name_roundtrip(Key::PageDown);
    } else if i == 44 {
        lemma_key_name_roundtrip(Key::Numlock);
    } else if i == 45 {
        lemma_key_name_roundtrip(Key::ScrollLock);
    } else if i == 46 {
        lemma_key_name_roundtrip(Key::Pause);
    } else if i == 47 {
        lemma_key_name_roundtrip(Key::PrintScr);
    } else if i == 48 {
        lemma_key_name_roundtrip(Key::LMenu);
    } else if i == 49 {
        lemma_key_name_roundtrip(Key::LShift);
    } else if i == 50 {
        lemma_key_name_roundtrip(Key::RShift);
    } else if i == 51 {
        lemma_key_name_roundtrip(Key::LControl);
    } else if i == 52 {
        lemma_key_name_roundtrip(Key::RControl);
    } else if i == 53 {
        lemma_key_name_roundtrip(Key::Option);
    } else if i == 54 {
        lemma_key_name_roundtrip(Key::Select);
    } else if i == 55 {
        lemma_key_name_roundtrip(Key::VolumeDown);
    } else if i == 56 {
        lemma_key_name_roundtrip(Key::VolumeMute);
    } else if i == 57 {
        lemma_key_name_roundtrip(Key::VolumeUp);
    }
}

/// `Super` reads as the meta key, and a single ASCII character reads as the
/// key of that character, which is written as that character.
pub proof fn lemma_key_aliases(c: char)
    ensures
        key_named("Super"@) == Some(Key::Meta),
        (c as u32) < 128 ==> key_named(seq![c]) == Some(Key::Unicode(c)),
        key_name(Key::Unicode(c)) == Some(seq![c]),
{
    if (c as u32) < 128 {
        lemma_key_name_roundtrip(Key::Unicode(c));
    }
    broadcast use vstd::string::group_string_axioms;

    reveal_strlit("Alt");
    assert("Alt"@.len() == 3 && "Alt"@[0] == 'A' && "Alt"@[1] == 'l' && "Alt"@[2] == 't');
    reveal_strlit("Backspace");
    assert("Backspace"@.len() == 9 && "Backspace"@[0] == 'B' && "Backspace"@[1] == 'a' && "Backspace"@[2] == 'c' && "Backspace"@[3] == 'k' && "Backspace"@[4] == 's' && "Backspace"@[5] == 'p' && "Backspace"@[6] == 'a' && "Backspace"@[7] == 'c' && "Backspace"@[8] == 'e');
    reveal_strlit("CapsLock");
    assert("CapsLock"@.len() == 8 && "CapsLock"@[0] == 'C' && "CapsLock"@[1] == 'a' && "CapsLock"@[2] == 'p' && "CapsLock"@[3] == 's' && "CapsLock"@[4] == 'L' && "CapsLock"@[5] == 'o' && "CapsLock"@[6] == 'c' && "CapsLock"@[7] == 'k');
    reveal_strlit("Control");
    assert("Control"@.len() == 7 && "Control"@[0] == 'C' && "Control"@[1] == 'o' && "Control"@[2] == 'n' && "Control"@[3] == 't' && "Control"@[4] == 'r' && "Control"@[5] == 'o' && "Control"@[6] == 'l');
    reveal_strlit("Delete");
    assert("Delete"@.len() == 6 && "Delete"@[0] == 'D' && "Delete"@[1] == 'e' && "Delete"@[2] == 'l' && "Delete"@[3] == 'e' && "Delete"@[4] == 't' && "Delete"@[5] == 'e');
    reveal_strlit("DownArrow");
    assert("DownArrow"@.len() == 9 && "DownArrow"@[0] == 'D' && "DownArrow"@[1] == 'o' && "DownArrow"@[2] == 'w' && "DownArrow"@[3] == 'n' && "DownArrow"@[4] == 'A' && "DownArrow"@[5] == 'r' && "DownArrow"@[6] == 'r' && "DownArrow"@[7] == 'o' && "DownArrow"@[8] == 'w');
    reveal_strlit("End");
    assert("End"@.len() == 3 && "End"@[0] == 'E' && "End"@[1] == 'n' && "End"@[2] == 'd');
    reveal_strlit("Enter");
    assert("Enter"@.len() == 5 && "Enter"@[0] == 'E' && "Enter"@[1] == 'n' && "Enter"@[2] == 't' && "Enter"@[3] == 'e' && "Enter"@[4] == 'r');
    reveal_strlit("Escape");
    assert("Escape"@.len() == 6 && "Escape"@[0] == 'E' && "Escape"@[1] == 's' && "Escape"@[2] == 'c' && "Escape"@[3] == 'a' && "Escape"@[4] == 'p' && "Escape"@[5] == 'e');
    reveal_strlit("F1");
    assert("F1"@.len() == 2 && "F1"@[0] == 'F' && "F1"@[1] == '1');
    reveal_strlit("F10");
    assert("F10"@.len() == 3 && "F10"@[0] == 'F' && "F10"@[1] == '1' && "F10"@[2] == '0');
    reveal_strlit("F11");
    assert("F11"@.len() == 3 && "F11"@[0] == 'F' && "F11"@[1] == '1' && "F11"@[2] == '1');
    reveal_strlit("F12");
    assert("F12"@.len() == 3 && "F12"@[0] == 'F' && "F12"@[1] == '1' && "F12"@[2] == '2');
    reveal_strlit("F13");
    assert("F13"@.len() == 3 && "F13"@[0] == 'F' && "F13"@[1] == '1' && "F13"@[2] == '3');
    reveal_strlit("F14");
    assert("F14"@.len() == 3 && "F14"@[0] == 'F' && "F14"@[1] == '1' && "F14"@[2] == '4');
    reveal_strlit("F15");
    assert("F15"@.len() == 3 && "F15"@[0] == 'F' && "F15"@[1] == '1' && "F15"@[2] == '5');
    reveal_strlit("F16");
    assert("F16"@.len() == 3 && "F16"@[0] == 'F' && "F16"@[1] == '1' && "F16"@[2] == '6');
    reveal_strlit("F17");
    assert("F17"@.len() == 3 && "F17"@[0] == 'F' && "F17"@[1] == '1' && "F17"@[2] == '7');
    reveal_strlit("F18");
    assert("F18"@.len() == 3 && "F18"@[0] == 'F' && "F18"@[1] == '1' && "F18"@[2] == '8');
    reveal_strlit("F19");
    assert("F19"@.len() == 3 && "F19"@[0] == 'F' && "F19"@[1] == '1' && "F19"@[2] == '9');
    reveal_strlit("F2");
    assert("F2"@.len() == 2 && "F2"@[0] == 'F' && "F2"@[1] == '2');
    reveal_strlit("F20");
    assert("F20"@.len() == 3 && "F20"@[0] == 'F' && "F20"@[1] == '2' && "F20"@[2] == '0');
    reveal_strlit("F21");
    assert("F21"@.len() == 3 && "F21"@[0] == 'F' && "F21"@[1] == '2' && "F21"@[2] == '1');
    reveal_strlit("F22");
    assert("F22"@.len() == 3 && "F22"@[0] == 'F' && "F22"@[1] == '2' && "F22"@[2] == '2');
    reveal_strlit("F23");
    assert("F23"@.len() == 3 && "F23"@[0] == 'F' && "F23"@[1] == '2' && "F23"@[2] == '3');
    reveal_strlit("F24");
    assert("F24"@.len() == 3 && "F24"@[0] == 'F' && "F24"@[1] == '2' && "F24"@[2] == '4');
    reveal_strlit("F3");
    assert("F3"@.len() == 2 && "F3"@[0] == 'F' && "F3"@[1] == '3');
    reveal_strlit("F4");
    assert("F4"@.len() == 2 && "F4"@[0] == 'F' && "F4"@[1] == '4');
    reveal_strlit("F5");
    assert("F5"@.len() == 2 && "F5"@[0] == 'F' && "F5"@[1] == '5');
    reveal_strlit("F6");
    assert("F6"@.len() == 2 && "F6"@[0] == 'F' && "F6"@[1] == '6');
    reveal_strlit("F7");
    assert("F7"@.len() == 2 && "F7"@[0] == 'F' && "F7"@[1] == '7');
    reveal_strlit("F8");
    assert("F8"@.len() == 2 && "F8"@[0] == 'F' && "F8"@[1] == '8');
    reveal_strlit("F9");
    assert("F9"@.len() == 2 && "F9"@[0] == 'F' && "F9"@[1] == '9');
    reveal_strlit("Home");
    assert("Home"@.len() == 4 && "Home"@[0] == 'H' && "Home"@[1] == 'o' && "Home"@[2] == 'm' && "Home"@[3] == 'e');
    reveal_strlit("Insert");
    assert("Insert"@.len() == 6 && "Insert"@[0] == 'I' && "Insert"@[1] == 'n' && "Insert"@[2] == 's' && "Insert"@[3] == 'e' && "Insert"@[4] == 'r' && "Insert"@[5] == 't');
    reveal_strlit("LMenu");
    assert("LMenu"@.len() == 5 && "LMenu"@[0] == 'L' && "LMenu"@[1] == 'M' && "LMenu"@[2] == 'e' && "LMenu"@[3] == 'n' && "LMenu"@[4] == 'u');
    reveal_strlit("LeftAlt");
    assert("LeftAlt"@.len() == 7 && "LeftAlt"@[0] == 'L' && "LeftAlt"@[1] == 'e' && "LeftAlt"@[2] == 'f' && "LeftAlt"@[3] == 't' && "LeftAlt"@[4] == 'A' && "LeftAlt"@[5] == 'l' && "LeftAlt"@[6] == 't');
    reveal_strlit("LeftArrow");
    assert("LeftArrow"@.len() == 9 && "LeftArrow"@[0] == 'L' && "LeftArrow"@[1] == 'e' && "LeftArrow"@[2] == 'f' && "LeftArrow"@[3] == 't' && "LeftArrow"@[4] == 'A' && "LeftArrow"@[5] == 'r' && "LeftArrow"@[6] == 'r' && "LeftArrow"@[7] == 'o' && "LeftArrow"@[8] == 'w');
    reveal_strlit("LeftControl");
    assert("LeftControl"@.len() == 11 && "LeftControl"@[0] == 'L' && "LeftControl"@[1] == 'e' && "LeftControl"@[2] == 'f' && "LeftControl"@[3] == 't' && "LeftControl"@[4] == 'C' && "LeftControl"@[5] == 'o' && "LeftControl"@[6] == 'n' && "LeftControl"@[7] == 't' && "LeftControl"@[8] == 'r' && "LeftControl"@[9] == 'o' && "LeftControl"@[10] == 'l');
    reveal_strlit("LeftShift");
    assert("LeftShift"@.len() == 9 && "LeftShift"@[0] == 'L' && "LeftShift"@[1] == 'e' && "LeftShift"@[2] == 'f' && "LeftShift"@[3] == 't' && "LeftShift"@[4] == 'S' && "LeftShift"@[5] == 'h' && "LeftShift"@[6] == 'i' && "LeftShift"@[7] == 'f' && "LeftShift"@[8] == 't');
    reveal_strlit("Meta");
    assert("Meta"@.len() == 4 && "Meta"@[0] == 'M' && "Meta"@[1] == 'e' && "Meta"@[2] == 't' && "Meta"@[3] == 'a');
    reveal_strlit("Numlock");
    assert("Numlock"@.len() == 7 && "Numlock"@[0] == 'N' && "Numlock"@[1] == 'u' && "Numlock"@[2] == 'm' && "Numlock"@[3] == 'l' && "Numlock"@[4] == 'o' && "Numlock"@[5] == 'c' && "Numlock"@[6] == 'k');
    reveal_strlit("PageDown");
    assert("PageDown"@.len() == 8 && "PageDown"@[0] == 'P' && "PageDown"@[1] == 'a' && "PageDown"@[2] == 'g' && "PageDown"@[3] == 'e' && "PageDown"@[4] == 'D' && "PageDown"@[5] == 'o' && "PageDown"@[6] == 'w' && "PageDown"@[7] == 'n');
    reveal_strlit("PageUp");
    assert("PageUp"@.len() == 6 && "PageUp"@[0] == 'P' && "PageUp"@[1] == 'a' && "PageUp"@[2] == 'g' && "PageUp"@[3] == 'e' && "PageUp"@[4] == 'U' && "PageUp"@[5] == 'p');
    reveal_strlit("Pause");
    assert("Pause"@.len() == 5 && "Pause"@[0] == 'P' && "Pause"@[1] == 'a' && "Pause"@[2] == 'u' && "Pause"@[3] == 's' && "Pause"@[4] == 'e');
    reveal_strlit("PrintScr");
    assert("PrintScr"@.len() == 8 && "PrintScr"@[0] == 'P' && "PrintScr"@[1] == 'r' && "PrintScr"@[2] == 'i' && "PrintScr"@[3] == 'n' && "PrintScr"@[4] == 't' && "PrintScr"@[5] == 'S' && "PrintScr"@[6] == 'c' && "PrintScr"@[7] == 'r');
    reveal_strlit("RightArrow");
    assert("RightArrow"@.len() == 10 && "RightArrow"@[0] == 'R' && "RightArrow"@[1] == 'i' && "RightArrow"@[2] == 'g' && "RightArrow"@[3] == 'h' && "RightArrow"@[4] == 't' && "RightArrow"@[5] == 'A' && "RightArrow"@[6] == 'r' && "RightArrow"@[7] == 'r' && "RightArrow"@[8] == 'o' && "RightArrow"@[9] == 'w');
    reveal_strlit("RightControl");
    assert("RightControl"@.len() == 12 && "RightControl"@[0] == 'R' && "RightControl"@[1] == 'i' && "RightControl"@[2] == 'g' && "RightControl"@[3] == 'h' && "RightControl"@[4] == 't' && "RightControl"@[5] == 'C' && "RightControl"@[6] == 'o' && "RightControl"@[7] == 'n' && "RightControl"@[8] == 't' && "RightControl"@[9] == 'r' && "RightControl"@[10] == 'o' && "RightControl"@[11] == 'l');
    reveal_strlit("RightShift");
    assert("RightShift"@.len() == 10 && "RightShift"@[0] == 'R' && "RightShift"@[1] == 'i' && "RightShift"@[2] == 'g' && "RightShift"@[3] == 'h' && "RightShift"@[4] == 't' && "RightShift"@[5] == 'S' && "RightShift"@[6] == 'h' && "RightShift"@[7] == 'i' && "RightShift"@[8] == 'f' && "RightShift"@[9] == 't');
    reveal_strlit("ScrollLock");
    assert("ScrollLock"@.len() == 10 && "ScrollLock"@[0] == 'S' && "ScrollLock"@[1] == 'c' && "ScrollLock"@[2] == 'r' && "ScrollLock"@[3] == 'o' && "ScrollLock"@[4] == 'l' && "ScrollLock"@[5] == 'l' && "ScrollLock"@[6] == 'L' && "ScrollLock"@[7] == 'o' && "ScrollLock"@[8] == 'c' && "ScrollLock"@[9] == 'k');
    reveal_strlit("Select");
    assert("Select"@.len() == 6 && "Select"@[0] == 'S' && "Select"@[1] == 'e' && "Select"@[2] == 'l' && "Select"@[3] == 'e' && "Select"@[4] == 'c' && "Select"@[5] == 't');
    reveal_strlit("Shift");
    assert("Shift"@.len() == 5 && "Shift"@[0] == 'S' && "Shift"@[1] == 'h' && "Shift"@[2] == 'i' && "Shift"@[3] == 'f' && "Shift"@[4] == 't');
    reveal_strlit("Space");
    assert("Space"@.len() == 5 && "Space"@[0] == 'S' && "Space"@[1] == 'p' && "Space"@[2] == 'a' && "Space"@[3] == 'c' && "Space"@[4] == 'e');
    reveal_strlit("Super");
    assert("Super"@.len() == 5 && "Super"@[0] == 'S' && "Super"@[1] == 'u' && "Super"@[2] == 'p' && "Super"@[3] == 'e' && "Super"@[4] == 'r');
    reveal_strlit("Tab");
    assert("Tab"@.len() == 3 && "Tab"@[0] == 'T' && "Tab"@[1] == 'a' && "Tab"@[2] == 'b');
    reveal_strlit("UpArrow");
    assert("UpArrow"@.len() == 7 && "UpArrow"@[0] == 'U' && "UpArrow"@[1] == 'p' && "UpArrow"@[2] == 'A' && "UpArrow"@[3] == 'r' && "UpArrow"@[4] == 'r' && "UpArrow"@[5] == 'o' && "UpArrow"@[6] == 'w');
    reveal_strlit("VolumeDown");
    assert("VolumeDown"@.len() == 10 && "VolumeDown"@[0] == 'V' && "VolumeDown"@[1] == 'o' && "VolumeDown"@[2] == 'l' && "VolumeDown"@[3] == 'u' && "VolumeDown"@[4] == 'm' && "VolumeDown"@[5] == 'e' && "VolumeDown"@[6] == 'D' && "VolumeDown"@[7] == 'o' && "VolumeDown"@[8] == 'w' && "VolumeDown"@[9] == 'n');
    reveal_strlit("VolumeMute");
    assert("VolumeMute"@.len() == 10 && "VolumeMute"@[0] == 'V' && "VolumeMute"@[1] == 'o' && "VolumeMute"@[2] == 'l' && "VolumeMute"@[3] == 'u' && "VolumeMute"@[4] == 'm' && "VolumeMute"@[5] == 'e' && "VolumeMute"@[6] == 'M' && "VolumeMute"@[7] == 'u' && "VolumeMute"@[8] == 't' && "VolumeMute"@[9] == 'e');
    reveal_strlit("VolumeUp");
    assert("VolumeUp"@.len() == 8 && "VolumeUp"@[0] == 'V' && "VolumeUp"@[1] == 'o' && "VolumeUp"@[2] == 'l' && "VolumeUp"@[3] == 'u' && "VolumeUp"@[4] == 'm' && "VolumeUp"@[5] == 'e' && "VolumeUp"@[6] == 'U' && "VolumeUp"@[7] == 'p');
}

/// Only the listed keys and character keys have a name.
pub proof fn lemma_named_keys_are_listed(key: Key)
    requires
        key_name(key) is Some,
    ensures
        key is Unicode || exists|i: int| 0 <= i < key_labels().len() && key_labels()[i].0 == key,
{
    match key {
        Key::F1 => {
            assert(key_labels()[0].0 == key);
        },
        Key::F2 => {
            assert(key_labels()[1].0 == key);
        },
        Key::F3 => {
            assert(key_labels()[2].0 == key);
        },
        Key::F4 => {
            assert(key_labels()[3].0 == key);
        },
        Key::F5 => {
            assert(key_labels()[4].0 == key);
        },
        Key::F6 => {
            assert(key_labels()[5].0 == key);
        },
        Key::F7 => {
            assert(key_labels()[6].0 == key);
        },
        Key::F8 => {
            assert(key_labels()[7].0 == key);
        },
        Key::F9 => {
            assert(key_labels()[8].0 == key);
        },
        Key::F10 => {
            assert(key_labels()[9].0 == key);
        },
        Key::F11 => {
            assert(key_labels()[10].0 == key);
        },
        Key::F12 => {
            assert(key_labels()[11].0 == key);
        },
        Key::F13 => {
            assert(key_labels()[12].0 == key);
        },
        Key::F14 => {
            assert(key_labels()[13].0 == key);
        },
        Key::F15 => {
            assert(key_labels()[14].0 == key);
        },
        Key::F16 => {
            assert(key_labels()[15].0 == key);
        },
        Key::F17 => {
            assert(key_labels()[16].0 == key);
        },
        Key::F18 => {
            assert(key_labels()[17].0 == key);
        },
        Key::F19 => {
            assert(key_labels()[18].0 == key);
        },
        Key::F20 => {
            assert(key_labels()[19].0 == key);
        },
        Key::F21 => {
            assert(key_labels()[20].0 == key);
        },
        Key::F22 => {
            assert(key_labels()[21].0 == key);
        },
        Key::F23 => {
            assert(key_labels()[22].0 == key);
        },
        Key::F24 => {
            assert(key_labels()[23].0 == key);
        },
        Key::Escape => {
            assert(key_labels()[24].0 == key);
        },
        Key::Space => {
            assert(key_labels()[25].0 == key);
        },
        Key::Return => {
            assert(key_labels()[26].0 == key);
        },
        Key::Tab => {
            assert(key_labels()[27].0 == key);
        },
        Key::Backspace => {
            assert(key_labels()[28].0 == key);
        },
        Key::CapsLock => {
            assert(key_labels()[29].0 == key);
        },
        Key::Shift => {
            assert(key_labels()[30].0 == key);
        },
        Key::Control => {
            assert(key_labels()[31].0 == key);
        },
        Key::Alt => {
            assert(key_labels()[32].0 == key);
        },
        Key::Meta => {
            assert(key_labels()[33].0 == key);
        },
        Key::LeftArrow => {
            assert(key_labels()[34].0 == key);
        },
        Key::RightArrow => {
            assert(key_labels()[35].0 == key);
        },
        Key::UpArrow => {
            assert(key_labels()[36].0 == key);
        },
        Key::DownArrow => {
            assert(key_labels()[37].0 == key);
        },
        Key::Insert => {
            assert(key_labels()[38].0 == key);
        },
        Key::Delete => {
            assert(key_labels()[39].0 == key);
        },
        Key::Home => {
            assert(key_labels()[40].0 == key);
        },
        Key::End => {
            assert(key_labels()[41].0 == key);
        },
        Key::PageUp => {
            assert(key_labels()[42].0 == key);
        },
        Key::PageDown => {
            assert(key_labels()[43].0 == key);
        },
        Key::Numlock => {
            assert(key_labels()[44].0 == key);
        },
        Key::ScrollLock => {
            assert(key_labels()[45].0 == key);
        },
        Key::Pause => {
            assert(key_labels()[46].0 == key);
        },
        Key::PrintScr => {
            assert(key_labels()[47].0 == key);
        },
        Key::LMenu => {
            assert(key_labels()[48].0 == key);
        },
        Key::LShift => {
            assert(key_labels()[49].0 == key);
        },
        Key::RShift => {
            assert(key_labels()[50].0 == key);
        },
        Key::LControl => {
            assert(key_labels()[51].0 == key);
        },
        Key::RControl => {
            assert(key_labels()[52].0 == key);
        },
        Key::Option => {
            assert(key_labels()[53].0 == key);
        },
        Key::Select => {
            assert(key_labels()[54].0 == key);
        },
        Key::VolumeDown => {
            assert(key_labels()[55].0 == key);
        },
        Key::VolumeMute => {
            assert(key_labels()[56].0 == key);
        },
        Key::VolumeUp => {
            assert(key_labels()[57].0 == key);
        },
        _ => {},
    }
}

/// Only the listed labels, `Super`, and single ASCII characters read as a key.
pub proof fn lemma_names_are_listed(s: Seq<char>)
    requires
        key_named(s) is Some,
    ensures
        s == "Super"@ || is_single_ascii(s) || exists|i: int|
            0 <= i < key_labels().len() && key_labels()[i].1 == s,
{
    if s == "F1"@ {
        assert(key_labels()[0].1 == s);
    } else if s == "F2"@ {
        assert(key_labels()[1].1 == s);
    } else if s == "F3"@ {
        assert(key_labels()[2].1 == s);
    } else if s == "F4"@ {
        assert(key_labels()[3].1 == s);
    } else if s == "F5"@ {
        assert(key_labels()[4].1 == s);
    } else if s == "F6"@ {
        assert(key_labels()[5].1 == s);
    } else if s == "F7"@ {
        assert(key_labels()[6].1 == s);
    } else if s == "F8"@ {
        assert(key_labels()[7].1 == s);
    } else if s == "F9"@ {
        assert(key_labels()[8].1 == s);
    } else if s == "F10"@ {
        assert(key_labels()[9].1 == s);
    } else if s == "F11"@ {
        assert(key_labels()[10].1 == s);
    } else if s == "F12"@ {
        assert(key_labels()[11].1 == s);
    } else if s == "F13"@ {
        assert(key_labels()[12].1 == s);
    } else if s == "F14"@ {
        assert(key_labels()[13].1 == s);
    } else if s == "F15"@ {
        assert(key_labels()[14].1 == s);
    } else if s == "F16"@ {
        assert(key_labels()[15].1 == s);
    } else if s == "F17"@ {
        assert(key_labels()[16].1 == s);
    } else if s == "F18"@ {
        assert(key_labels()[17].1 == s);
    } else if s == "F19"@ {
        assert(key_labels()[18].1 == s);
    } else if s == "F20"@ {
        assert(key_labels()[19].1 == s);
    } else if s == "F21"@ {
        assert(key_labels()[20].1 == s);
    } else if s == "F22"@ {
        assert(key_labels()[21].1 == s);
    } else if s == "F23"@ {
        assert(key_labels()[22].1 == s);
    } else if s == "F24"@ {
        assert(key_labels()[23].1 == s);
    } else if s == "Escape"@ {
        assert(key_labels()[24].1 == s);
    } else if s == "Space"@ {
        assert(key_labels()[25].1 == s);
    } else if s == "Enter"@ {
        assert(key_labels()[26].1 == s);
    } else if s == "Tab"@ {
        assert(key_labels()[27].1 == s);
    } else if s == "Backspace"@ {
        assert(key_labels()[28].1 == s);
    } else if s == "CapsLock"@ {
        assert(key_labels()[29].1 == s);
    } else if s == "Shift"@ {
        assert(key_labels()[30].1 == s);
    } else if s == "Control"@ {
        assert(key_labels()[31].1 == s);
    } else if s == "Alt"@ {
        assert(key_labels()[32].1 == s);
    } else if s == "Meta"@ {
        assert(key_labels()[33].1 == s);
    } else if s == "Super"@ {
    } else if s == "LeftArrow"@ {
        assert(key_labels()[34].1 == s);
    } else if s == "RightArrow"@ {
        assert(key_labels()[35].1 == s);
    } else if s == "UpArrow"@ {
        assert(key_labels()[36].1 == s);
    } else if s == "DownArrow"@ {
        assert(key_labels()[37].1 == s);
    } else if s == "Insert"@ {
        assert(key_labels()[38].1 == s);
    } else if s == "Delete"@ {
        assert(key_labels()[39].1 == s);
    } else if s == "Home"@ {
        assert(key_labels()[40].1 == s);
    } else if s == "End"@ {
        assert(key_labels()[41].1 == s);
    } else if s == "PageUp"@ {
        assert(key_labels()[42].1 == s);
    } else if s == "PageDown"@ {
        assert(key_labels()[43].1 == s);
    } else if s == "Numlock"@ {
        assert(key_labels()[44].1 == s);
    } else if s == "ScrollLock"@ {
        assert(key_labels()[45].1 == s);
    } else if s == "Pause"@ {
        assert(key_labels()[46].1 == s);
    } else if s == "PrintScr"@ {
        assert(key_labels()[47].1 == s);
    } else if s == "LMenu"@ {
        assert(key_labels()[48].1 == s);
    } else if s == "LeftShift"@ {
        assert(key_labels()[49].1 == s);
    } else if s == "RightShift"@ {
        assert(key_labels()[50].1 == s);
    } else if s == "LeftControl"@ {
        assert(key_labels()[51].1 == s);
    } else if s == "RightControl"@ {
        assert(key_labels()[52].1 == s);
    } else if s == "LeftAlt"@ {
        assert(key_labels()[53].1 == s);
    } else if s == "Select"@ {
        assert(key_labels()[54].1 == s);
    } else if s == "VolumeDown"@ {
        assert(key_labels()[55].1 == s);
    } else if s == "VolumeMute"@ {
        assert(key_labels()[56].1 == s);
    } else if s == "VolumeUp"@ {
        assert(key_labels()[57].1 == s);
    }
}

} // verus!
