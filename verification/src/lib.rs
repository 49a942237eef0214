//! Delivery of dictated text into the focused application.
//!
//! Once speech has become text, the text has to reach whatever application
//! holds the keyboard focus: by way of the clipboard and the paste shortcut,
//! by synthetic keystrokes, or both. This library holds the rules of that
//! delivery and none of its effects.
//!
//! - [`mode`]: the five delivery modes and the identifiers that name them.
//! - [`protocol`]: each mode as a sequence of steps, with the waits between
//!   them.
//! - [`delivery`]: the engine that walks a protocol, decides what a failure
//!   means, and tells the host what to do next.
//! - [`desktop`]: a model of clipboard and keyboard, and what the protocols
//!   are proved to do to them.
//! - [`keys`], [`error`], [`text`]: keys and platforms, failures, and the
//!   cutting of a text into chunks.
//! - [`overlay`], [`settings`]: the rules behind the commands of the
//!   overlay window and the bounds of configured values.

pub mod delivery;
pub mod desktop;
pub mod error;
pub mod keys;
pub mod mode;
pub mod overlay;
pub mod protocol;
pub mod settings;
pub mod text;
