//! The global keyboard shortcuts: `O` options, `C` camera cycle, `1`/`2`
//! camera choice, `F`/`F11` fullscreen, `Esc` close options, leave
//! fullscreen or quit.

use vstd::prelude::*;

use crate::bindings::CameraMode;
use crate::text::{ascii_lower, ascii_lower_seq, eq_ignore_ascii_case, same_text};

verus! {

/// The named keys that have a shortcut.
#[derive(Clone, Copy, Debug, PartialEq, Eq, Structural)]
pub enum NamedKey {
    F11,
    Escape,
}

/// A pressed key: a named key, the text of a character key, or any other key.
#[derive(Clone, Copy, Debug)]
pub enum KeyInput<'a> {
    Named(NamedKey),
    Character(&'a str),
    Other,
}

/// What a key press asks for.
#[derive(Clone, Copy, Debug, PartialEq, Eq, Structural)]
pub enum KeyCommand {
    Nothing,
    ToggleFullscreen,
    CloseOptions,
    LeaveFullscreen,
    Exit,
    ToggleOptions,
    ToggleCamera,
    SelectCamera(CameraMode),
}

/// `text` is `letter` in either case.
pub open spec fn is_letter_key(text: Seq<char>, letter: Seq<char>) -> bool {
    ascii_lower_seq(text) == ascii_lower_seq(letter)
}

/// The command of a key press. Releases and auto-repeats do nothing. `Esc`
/// closes the options when they are open, else leaves fullscreen, else
/// quits.
pub open spec fn key_command_spec(
    pressed: bool,
    repeat: bool,
    key: KeyInput,
    options_open: bool,
    fullscreen: bool,
) -> KeyCommand {
    if !pressed || repeat {
        KeyCommand::Nothing
    } else {
        match key {
            KeyInput::Named(NamedKey::F11) => KeyCommand::ToggleFullscreen,
            KeyInput::Named(NamedKey::Escape) => if options_open {
                KeyCommand::CloseOptions
            } else if fullscreen {
                KeyCommand::LeaveFullscreen
            } else {
                KeyCommand::Exit
            },
            KeyInput::Character(c) => if is_letter_key(c@, "o"@) {
                KeyCommand::ToggleOptions
            } else if is_letter_key(c@, "c"@) {
                KeyCommand::ToggleCamera
            } else if c@ == "1"@ {
                KeyCommand::SelectCamera(CameraMode::Free)
            } else if c@ == "2"@ {
                KeyCommand::SelectCamera(CameraMode::FixedPlane)
            } else if is_letter_key(c@, "f"@) {
                KeyCommand::ToggleFullscreen
            } else {
                KeyCommand::Nothing
            },
            KeyInput::Other => KeyCommand::Nothing,
        }
    }
}

/// A text that lower-cases (ASCII) to a single digit is that digit.
proof fn lemma_lowers_to_digit(c: Seq<char>, d: char)
    requires
        '0' <= d <= '9',
        ascii_lower_seq(c) == seq![d],
    ensures
        c == seq![d],
{
    assert(ascii_lower_seq(c).len() == c.len());
    assert(ascii_lower_seq(c)[0] == ascii_lower(c[0]));
    assert(c =~= seq![d]);
}

/// The character shortcuts ignore ASCII case: two character keys whose texts
/// lower-case to the same text ask for the same command.
pub proof fn lemma_shortcuts_ignore_case(
    a: &str,
    b: &str,
    options_open: bool,
    fullscreen: bool,
)
    requires
        ascii_lower_seq(a@) == ascii_lower_seq(b@),
    ensures
        key_command_spec(true, false, KeyInput::Character(a), options_open, fullscreen)
            == key_command_spec(true, false, KeyInput::Character(b), options_open, fullscreen),
{
    reveal_strlit("1");
    reveal_strlit("2");
    assert("1"@ =~= seq!['1']);
    assert("2"@ =~= seq!['2']);
    if a@ == "1"@ {
        assert(ascii_lower_seq(a@) =~= seq!['1']);
        lemma_lowers_to_digit(b@, '1');
    }
    if b@ == "1"@ {
        assert(ascii_lower_seq(b@) =~= seq!['1']);
        lemma_lowers_to_digit(a@, '1');
    }
    if a@ == "2"@ {
        assert(ascii_lower_seq(a@) =~= seq!['2']);
        lemma_lowers_to_digit(b@, '2');
    }
    if b@ == "2"@ {
        assert(ascii_lower_seq(b@) =~= seq!['2']);
        lemma_lowers_to_digit(a@, '2');
    }
}

/// The letter shortcuts: a pressed, non-repeated `o`/`O` toggles the options,
/// `c`/`C` switches the camera, `f`/`F` (like `F11`) toggles fullscreen,
/// whatever the overlay and window state.
pub proof fn lemma_letter_shortcuts(c: &str, options_open: bool, fullscreen: bool)
    ensures
        ascii_lower_seq(c@) == seq!['o'] ==> key_command_spec(
            true,
            false,
            KeyInput::Character(c),
            options_open,
            fullscreen,
        ) == KeyCommand::ToggleOptions,
        ascii_lower_seq(c@) == seq!['c'] ==> key_command_spec(
            true,
            false,
            KeyInput::Character(c),
            options_open,
            fullscreen,
        ) == KeyCommand::ToggleCamera,
        ascii_lower_seq(c@) == seq!['f'] ==> key_command_spec(
            true,
            false,
            KeyInput::Character(c),
            options_open,
            fullscreen,
        ) == KeyCommand::ToggleFullscreen,
        key_command_spec(true, false, KeyInput::Named(NamedKey::F11), options_open, fullscreen)
            == KeyCommand::ToggleFullscreen,
{
    reveal_strlit("o");
    reveal_strlit("c");
    reveal_strlit("f");
    reveal_strlit("1");
    reveal_strlit("2");
    assert(ascii_lower_seq("o"@) =~= seq!['o']);
    assert(ascii_lower_seq("c"@) =~= seq!['c']);
    assert(ascii_lower_seq("f"@) =~= seq!['f']);
    assert(seq!['c'] != seq!['o']) by {
        assert(seq!['c'][0] != seq!['o'][0]);
    }
    assert(seq!['f'] != seq!['o']) by {
        assert(seq!['f'][0] != seq!['o'][0]);
    }
    assert(seq!['f'] != seq!['c']) by {
        assert(seq!['f'][0] != seq!['c'][0]);
    }
    assert(seq!['1'] != seq!['c'] && seq!['1'] != seq!['f']) by {
        assert(seq!['1'][0] != seq!['c'][0]);
        assert(seq!['1'][0] != seq!['f'][0]);
    }
    assert(seq!['2'] != seq!['c'] && seq!['2'] != seq!['f']) by {
        assert(seq!['2'][0] != seq!['c'][0]);
        assert(seq!['2'][0] != seq!['f'][0]);
    }
    if c@ == "1"@ {
        assert(ascii_lower_seq(c@) =~= seq!['1']);
    }
    if c@ == "2"@ {
        assert(ascii_lower_seq(c@) =~= seq!['2']);
    }
}

/// Decides what a key press does.
pub fn key_command(
    pressed: bool,
    repeat: bool,
    key: KeyInput,
    options_open: bool,
    fullscreen: bool,
) -> (r: KeyCommand)
    ensures
        r == key_command_spec(pressed, repeat, key, options_open, fullscreen),
{
    if !pressed || repeat {
        return KeyCommand::Nothing;
    }
    match key {
        KeyInput::Named(NamedKey::F11) => KeyCommand::ToggleFullscreen,
        KeyInput::Named(NamedKey::Escape) => {
            if options_open {
                KeyCommand::CloseOptions
            } else if fullscreen {
                KeyCommand::LeaveFullscreen
            } else {
                KeyCommand::Exit
            }
        },
        KeyInput::Character(c) => {
            if eq_ignore_ascii_case(c, "o") {
                KeyCommand::ToggleOptions
            } else if eq_ignore_ascii_case(c, "c") {
                KeyCommand::ToggleCamera
            } else if same_text(c, "1") {
                KeyCommand::SelectCamera(CameraMode::Free)
            } else if same_text(c, "2") {
                KeyCommand::SelectCamera(CameraMode::FixedPlane)
            } else if eq_ignore_ascii_case(c, "f") {
                KeyCommand::ToggleFullscreen
            } else {
                KeyCommand::Nothing
            }
        },
        KeyInput::Other => KeyCommand::Nothing,
    }
}

} // verus!
