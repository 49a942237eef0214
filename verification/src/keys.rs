//! Keys, key actions and the platform's paste shortcut.

use vstd::prelude::*;
use crate::text::same_chars;

verus! {

/// A key whose pressed state changes what the keys struck after it mean.
#[derive(Clone, Copy, Debug, PartialEq, Eq, Structural)]
pub enum ModifierKey {
    Control,
    Alt,
    Shift,
    /// The "super" key: Command on macOS, the logo key elsewhere.
    Meta,
}

/// A key that a synthetic event names.
#[derive(Clone, Copy, Debug, PartialEq, Eq, Structural)]
pub enum Key {
    Modifier(ModifierKey),
    Character(char),
}

/// What a synthetic key event does to its key.
#[derive(Clone, Copy, Debug, PartialEq, Eq, Structural)]
pub enum Direction {
    Press,
    Release,
    /// A press followed at once by a release.
    Click,
}

/// The platform family the process runs on. It is settled once, when the
/// process starts, and handed to the functions that depend on it.
#[derive(Clone, Copy, Debug, PartialEq, Eq, Structural)]
pub enum Platform {
    MacOs,
    Other,
}

/// The platform that a target operating system's name stands for.
pub open spec fn platform_of(target_os: Seq<char>) -> Platform {
    if target_os == "macos"@ {
        Platform::MacOs
    } else {
        Platform::Other
    }
}

impl Platform {
    /// The platform for the name of a target operating system, as the
    /// compiler spells it (`macos`, `linux`, `windows`, ...).
    pub fn from_target_os(target_os: &str) -> (platform: Platform)
        ensures
            platform == platform_of(target_os@),
    {
        if same_chars(target_os, "macos") {
            Platform::MacOs
        } else {
            Platform::Other
        }
    }

    /// The modifier of the paste shortcut: Command on macOS, Control elsewhere.
    pub open spec fn spec_paste_modifier(self) -> ModifierKey {
        match self {
            Platform::MacOs => ModifierKey::Meta,
            Platform::Other => ModifierKey::Control,
        }
    }

    /// The modifier of the paste shortcut: Command on macOS, Control elsewhere.
    #[verifier::when_used_as_spec(spec_paste_modifier)]
    pub fn paste_modifier(self) -> (modifier: ModifierKey)
        ensures
            modifier == self.spec_paste_modifier(),
    {
        match self {
            Platform::MacOs => ModifierKey::Meta,
            Platform::Other => ModifierKey::Control,
        }
    }

    /// Whether synthetic input may only be sent from the process's main
    /// thread. This holds on macOS.
    pub open spec fn spec_injects_on_main_thread(self) -> bool {
        self == Platform::MacOs
    }

    /// Whether synthetic input may only be sent from the process's main
    /// thread. This holds on macOS.
    #[verifier::when_used_as_spec(spec_injects_on_main_thread)]
    pub fn injects_on_main_thread(self) -> (main_only: bool)
        ensures
            main_only == self.spec_injects_on_main_thread(),
    {
        match self {
            Platform::MacOs => true,
            Platform::Other => false,
        }
    }
}

} // verus!
