//! The delivery modes a user can choose, and how a configuration value names one.

use vstd::prelude::*;
use crate::text::same_chars;

verus! {

/// How a piece of text reaches the focused application.
#[derive(Clone, Copy, Debug, PartialEq, Eq, Structural)]
pub enum OutputMode {
    /// Put the text on the clipboard, send the paste shortcut, then put the
    /// previous clipboard text back.
    Paste,
    /// Put the text on the clipboard and send the paste shortcut; the text
    /// stays on the clipboard.
    PasteAndClipboard,
    /// Put the text on the clipboard and send no key.
    Clipboard,
    /// Type the text as synthetic keystrokes.
    Keystrokes,
    /// Put the text on the clipboard, then type it as synthetic keystrokes.
    KeystrokesAndClipboard,
}

/// The mode that an identifier names. The five identifiers are matched
/// exactly; every other string, the retired `auto_paste` among them, names
/// `Paste`, so that a bad configuration value never blocks a delivery.
pub open spec fn resolve_mode(identifier: Seq<char>) -> OutputMode {
    if identifier == "paste_and_clipboard"@ {
        OutputMode::PasteAndClipboard
    } else if identifier == "clipboard"@ {
        OutputMode::Clipboard
    } else if identifier == "keystrokes"@ {
        OutputMode::Keystrokes
    } else if identifier == "keystrokes_and_clipboard"@ {
        OutputMode::KeystrokesAndClipboard
    } else {
        OutputMode::Paste
    }
}

impl OutputMode {
    /// Resolves a configuration value to a mode; never fails.
    pub fn from_str(s: &str) -> (mode: OutputMode)
        ensures
            mode == resolve_mode(s@),
    {
        if same_chars(s, "paste_and_clipboard") {
            OutputMode::PasteAndClipboard
        } else if same_chars(s, "clipboard") {
            OutputMode::Clipboard
        } else if same_chars(s, "keystrokes") {
            OutputMode::Keystrokes
        } else if same_chars(s, "keystrokes_and_clipboard") {
            OutputMode::KeystrokesAndClipboard
        } else {
            OutputMode::Paste
        }
    }

    /// The identifier under which a mode is stored in the configuration.
    pub open spec fn identifier(self) -> Seq<char> {
        match self {
            OutputMode::Paste => "paste"@,
            OutputMode::PasteAndClipboard => "paste_and_clipboard"@,
            OutputMode::Clipboard => "clipboard"@,
            OutputMode::Keystrokes => "keystrokes"@,
            OutputMode::KeystrokesAndClipboard => "keystrokes_and_clipboard"@,
        }
    }
}

impl Default for OutputMode {
    fn default() -> (mode: OutputMode)
        ensures
            mode == OutputMode::Paste,
    {
        OutputMode::Paste
    }
}

/// The lengths of the identifiers, and the first letters of the two that
/// share a length.
proof fn lemma_identifier_shapes()
    ensures
        "paste"@.len() == 5,
        "paste_and_clipboard"@.len() == 19,
        "clipboard"@.len() == 9,
        "keystrokes"@.len() == 10,
        "keystrokes_and_clipboard"@.len() == 24,
        "auto_paste"@.len() == 10,
        "keystrokes"@[0] == 'k',
        "auto_paste"@[0] == 'a',
{
    reveal_strlit("paste");
    reveal_strlit("paste_and_clipboard");
    reveal_strlit("clipboard");
    reveal_strlit("keystrokes");
    reveal_strlit("keystrokes_and_clipboard");
    reveal_strlit("auto_paste");
}

/// Each of the five identifiers names its own mode, and no two of them name
/// the same one.
pub proof fn law_identifiers_name_their_modes(mode: OutputMode, other: OutputMode)
    ensures
        resolve_mode(mode.identifier()) == mode,
        mode != other ==> mode.identifier() != other.identifier(),
{
    lemma_identifier_shapes();
}

/// The retired identifier `auto_paste` names `Paste`, and so does every
/// string that is not the identifier of one of the other four modes.
pub proof fn law_everything_else_names_paste(identifier: Seq<char>)
    ensures
        resolve_mode("auto_paste"@) == OutputMode::Paste,
        resolve_mode(identifier) == OutputMode::Paste || identifier == resolve_mode(
            identifier,
        ).identifier(),
{
    lemma_identifier_shapes();
}

} // verus!
