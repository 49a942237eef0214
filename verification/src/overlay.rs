//! The rules behind the overlay window's commands: what a visibility mode
//! and a position name mean. Moving and showing the window is the host's
//! part.

use vstd::prelude::*;
use vstd::string::StringExecFns;
use crate::text::same_chars;

verus! {

/// When the overlay window is on screen.
#[derive(Clone, Copy, Debug, PartialEq, Eq, Structural)]
pub enum OverlayMode {
    Always,
    Never,
    /// Only while a recording runs; the window is hidden until one starts.
    RecordingOnly,
}

/// The mode that a name stands for, if it is one of the three.
pub open spec fn overlay_mode_of(name: Seq<char>) -> Option<OverlayMode> {
    if name == "always"@ {
        Some(OverlayMode::Always)
    } else if name == "never"@ {
        Some(OverlayMode::Never)
    } else if name == "recording_only"@ {
        Some(OverlayMode::RecordingOnly)
    } else {
        None
    }
}

impl OverlayMode {
    /// Whether the window is to be shown when the mode is set: only in
    /// `Always`. In the other two it is hidden.
    pub open spec fn spec_shown_when_set(self) -> bool {
        self == OverlayMode::Always
    }

    /// Whether the window is to be shown when the mode is set: only in
    /// `Always`. In the other two it is hidden.
    #[verifier::when_used_as_spec(spec_shown_when_set)]
    pub fn shown_when_set(self) -> (shown: bool)
        ensures
            shown == self.spec_shown_when_set(),
    {
        match self {
            OverlayMode::Always => true,
            OverlayMode::Never | OverlayMode::RecordingOnly => false,
        }
    }
}

/// Reads a visibility mode. Any name but `always`, `never` and
/// `recording_only` is an error, whose message ends in the name.
pub fn parse_overlay_mode(name: &str) -> (parsed: Result<OverlayMode, String>)
    ensures
        match parsed {
            Ok(mode) => overlay_mode_of(name@) == Some(mode),
            Err(message) => overlay_mode_of(name@) is None && message@
                == "Invalid overlay mode: "@ + name@,
        },
{
    if same_chars(name, "always") {
        Ok(OverlayMode::Always)
    } else if same_chars(name, "never") {
        Ok(OverlayMode::Never)
    } else if same_chars(name, "recording_only") {
        Ok(OverlayMode::RecordingOnly)
    } else {
        Err(String::from_str("Invalid overlay mode: ").concat(name))
    }
}

/// Where the window stands along one axis of the screen.
#[derive(Clone, Copy, Debug, PartialEq, Eq, Structural)]
pub enum Alignment {
    /// At the left or upper edge, a margin away from it.
    Start,
    /// Halfway between the edges.
    Center,
    /// At the right or lower edge, a margin away from it.
    End,
}

/// Where the window stands on the screen.
#[derive(Clone, Copy, Debug, PartialEq, Eq, Structural)]
pub struct WidgetPosition {
    pub horizontal: Alignment,
    pub vertical: Alignment,
}

/// The position that a name stands for, if it is one of the seven.
pub open spec fn widget_position_of(name: Seq<char>) -> Option<WidgetPosition> {
    if name == "top-left"@ {
        Some(WidgetPosition { horizontal: Alignment::Start, vertical: Alignment::Start })
    } else if name == "top-center"@ {
        Some(WidgetPosition { horizontal: Alignment::Center, vertical: Alignment::Start })
    } else if name == "top-right"@ {
        Some(WidgetPosition { horizontal: Alignment::End, vertical: Alignment::Start })
    } else if name == "center"@ {
        Some(WidgetPosition { horizontal: Alignment::Center, vertical: Alignment::Center })
    } else if name == "bottom-left"@ {
        Some(WidgetPosition { horizontal: Alignment::Start, vertical: Alignment::End })
    } else if name == "bottom-center"@ {
        Some(WidgetPosition { horizontal: Alignment::Center, vertical: Alignment::End })
    } else if name == "bottom-right"@ {
        Some(WidgetPosition { horizontal: Alignment::End, vertical: Alignment::End })
    } else {
        None
    }
}

/// Reads a position. Any name but the seven is an error, whose message ends
/// in the name.
pub fn parse_widget_position(name: &str) -> (parsed: Result<WidgetPosition, String>)
    ensures
        match parsed {
            Ok(position) => widget_position_of(name@) == Some(position),
            Err(message) => widget_position_of(name@) is None && message@
                == "Invalid widget position: "@ + name@,
        },
{
    if same_chars(name, "top-left") {
        Ok(WidgetPosition { horizontal: Alignment::Start, vertical: Alignment::Start })
    } else if same_chars(name, "top-center") {
        Ok(WidgetPosition { horizontal: Alignment::Center, vertical: Alignment::Start })
    } else if same_chars(name, "top-right") {
        Ok(WidgetPosition { horizontal: Alignment::End, vertical: Alignment::Start })
    } else if same_chars(name, "center") {
        Ok(WidgetPosition { horizontal: Alignment::Center, vertical: Alignment::Center })
    } else if same_chars(name, "bottom-left") {
        Ok(WidgetPosition { horizontal: Alignment::Start, vertical: Alignment::End })
    } else if same_chars(name, "bottom-center") {
        Ok(WidgetPosition { horizontal: Alignment::Center, vertical: Alignment::End })
    } else if same_chars(name, "bottom-right") {
        Ok(WidgetPosition { horizontal: Alignment::End, vertical: Alignment::End })
    } else {
        Err(String::from_str("Invalid widget position: ").concat(name))
    }
}

} // verus!
