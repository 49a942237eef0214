//! The five delivery protocols, each as the sequence of steps it is made of.
//!
//! A protocol only says what is to be done and in which order. Doing it, and
//! deciding what a failure means, is the part of [`crate::delivery`].

use vstd::prelude::*;
use crate::keys::{Direction, Key, ModifierKey, Platform};
use crate::mode::OutputMode;
use crate::text::{chunks, law_chunks_rebuild_text, split_chunks, CHUNK_CHARS};

verus! {

/// The wait after a clipboard write, before the paste shortcut is sent.
pub const CLIPBOARD_STABILIZATION_DELAY_MS: u64 = 50;

/// The wait between the key events of the paste shortcut.
pub const KEY_EVENT_DELAY_MS: u64 = 50;

/// The wait after the paste shortcut, before the clipboard is restored.
pub const CLIPBOARD_RESTORE_DELAY_MS: u64 = 100;

/// The wait before typing begins, in which the modifier keys of the hotkey
/// that started the dictation come up.
pub const MODIFIER_SETTLE_DELAY_MS: u64 = 250;

/// The wait after a full chunk of typed text, before the next.
pub const CHUNK_DELAY_MS: u64 = 18;

/// The resource of the operating system that a step works on.
#[derive(Clone, Copy, Debug, PartialEq, Eq, Structural)]
pub enum Resource {
    /// The clipboard's text buffer.
    Clipboard,
    /// The synthetic-input subsystem.
    Injector,
    /// Nothing but time: a wait.
    Clock,
}

/// What a failure of a step means for the delivery.
#[derive(Clone, Copy, Debug, PartialEq, Eq, Structural)]
pub enum Policy {
    /// The delivery cannot go on without this step: its failure ends the
    /// delivery and is reported to the caller.
    Required,
    /// The step is tried and its failure is noted, but the delivery goes on
    /// and its result is not changed by it.
    BestEffort,
}

/// One thing a protocol does.
#[derive(Debug, PartialEq, Eq)]
pub enum Operation {
    /// Read the clipboard's text and keep it as the snapshot.
    SnapshotClipboard,
    /// Replace the clipboard's text.
    WriteClipboard(String),
    /// Write the snapshot back to the clipboard.
    RestoreClipboard,
    /// Let the given number of milliseconds pass.
    Wait(u64),
    /// Connect to the input subsystem of the operating system.
    OpenInjector,
    /// Send one synthetic key event.
    KeyEvent(Key, Direction),
    /// Type a run of characters in one call.
    TypeText(String),
}

/// An `Operation` as a mathematical value.
pub enum OperationView {
    SnapshotClipboard,
    WriteClipboard(Seq<char>),
    RestoreClipboard,
    Wait(u64),
    OpenInjector,
    KeyEvent(Key, Direction),
    TypeText(Seq<char>),
}

impl View for Operation {
    type V = OperationView;

    open spec fn view(&self) -> OperationView {
        match self {
            Operation::SnapshotClipboard => OperationView::SnapshotClipboard,
            Operation::WriteClipboard(text) => OperationView::WriteClipboard(text@),
            Operation::RestoreClipboard => OperationView::RestoreClipboard,
            Operation::Wait(millis) => OperationView::Wait(*millis),
            Operation::OpenInjector => OperationView::OpenInjector,
            Operation::KeyEvent(key, direction) => OperationView::KeyEvent(*key, *direction),
            Operation::TypeText(text) => OperationView::TypeText(text@),
        }
    }
}

impl OperationView {
    /// The resource that the operation works on.
    pub open spec fn resource(self) -> Resource {
        match self {
            OperationView::SnapshotClipboard
            | OperationView::WriteClipboard(_)
            | OperationView::RestoreClipboard => Resource::Clipboard,
            OperationView::Wait(_) => Resource::Clock,
            OperationView::OpenInjector
            | OperationView::KeyEvent(_, _)
            | OperationView::TypeText(_) => Resource::Injector,
        }
    }
}

impl Operation {
    /// The resource that the operation works on.
    pub fn resource(&self) -> (resource: Resource)
        ensures
            resource == self@.resource(),
    {
        match self {
            Operation::SnapshotClipboard
            | Operation::WriteClipboard(_)
            | Operation::RestoreClipboard => Resource::Clipboard,
            Operation::Wait(_) => Resource::Clock,
            Operation::OpenInjector | Operation::KeyEvent(_, _) | Operation::TypeText(_) =>
                Resource::Injector,
        }
    }
}

/// One step of a protocol: an operation, and what its failure means.
#[derive(Debug, PartialEq, Eq)]
pub struct Step {
    pub operation: Operation,
    pub policy: Policy,
}

/// A `Step` as a mathematical value.
pub struct StepView {
    pub operation: OperationView,
    pub policy: Policy,
}

impl View for Step {
    type V = StepView;

    open spec fn view(&self) -> StepView {
        StepView { operation: self.operation@, policy: self.policy }
    }
}

impl DeepView for Step {
    type V = StepView;

    open spec fn deep_view(&self) -> StepView {
        self@
    }
}

/// A step whose failure ends the delivery.
pub open spec fn required(operation: OperationView) -> StepView {
    StepView { operation, policy: Policy::Required }
}

/// A step whose failure is noted and passed over.
pub open spec fn best_effort(operation: OperationView) -> StepView {
    StepView { operation, policy: Policy::BestEffort }
}

/// A wait. Nothing can fail in it.
pub open spec fn pause(millis: u64) -> StepView {
    best_effort(OperationView::Wait(millis))
}

/// The paste shortcut: the modifier goes down, `v` is clicked, the modifier
/// comes up, with a wait between the events. Until the modifier is down a
/// failure ends the delivery; from then on the text is on the clipboard and
/// the paste is under way, so a failure is only noted.
pub open spec fn shortcut_steps(modifier: ModifierKey) -> Seq<StepView> {
    seq![
        required(OperationView::OpenInjector),
        required(OperationView::KeyEvent(Key::Modifier(modifier), Direction::Press)),
        pause(KEY_EVENT_DELAY_MS),
        best_effort(OperationView::KeyEvent(Key::Character('v'), Direction::Click)),
        pause(KEY_EVENT_DELAY_MS),
        best_effort(OperationView::KeyEvent(Key::Modifier(modifier), Direction::Release)),
    ]
}

/// Paste, and leave the text on the clipboard: write the text, let the
/// clipboard settle, send the paste shortcut.
pub open spec fn paste_and_keep_steps(text: Seq<char>, platform: Platform) -> Seq<StepView> {
    seq![
        required(OperationView::WriteClipboard(text)),
        pause(CLIPBOARD_STABILIZATION_DELAY_MS),
    ] + shortcut_steps(platform.paste_modifier())
}

/// Paste, and put the clipboard back: the same sequence, between a snapshot
/// of the clipboard before it and, after a wait, the restoring of the
/// snapshot. Neither of the two can fail the delivery.
pub open spec fn paste_steps(text: Seq<char>, platform: Platform) -> Seq<StepView> {
    seq![best_effort(OperationView::SnapshotClipboard)] + paste_and_keep_steps(text, platform)
        + seq![
        pause(CLIPBOARD_RESTORE_DELAY_MS),
        best_effort(OperationView::RestoreClipboard),
    ]
}

/// Write the text to the clipboard and send no key.
pub open spec fn clipboard_steps(text: Seq<char>) -> Seq<StepView> {
    seq![required(OperationView::WriteClipboard(text))]
}

/// Type the given pieces in order. A wait follows every piece but the last,
/// and the last too if it is a full chunk: the typing is throttled after
/// every full chunk, so that between two chunks there is always a wait.
pub open spec fn typing_steps(pieces: Seq<Seq<char>>) -> Seq<StepView> {
    Seq::new(
        if pieces.len() == 0 {
            0
        } else if pieces.last().len() >= CHUNK_CHARS {
            2 * pieces.len()
        } else {
            (2 * pieces.len() - 1) as nat
        },
        |i: int|
            if i % 2 == 0 {
                required(OperationView::TypeText(pieces[i / 2]))
            } else {
                pause(CHUNK_DELAY_MS)
            },
    )
}

/// Type the text: wait for the hotkey's modifiers to come up, connect to the
/// input subsystem, release the four modifiers for good measure, then type
/// the text chunk by chunk.
pub open spec fn keystroke_steps(text: Seq<char>) -> Seq<StepView> {
    seq![
        pause(MODIFIER_SETTLE_DELAY_MS),
        required(OperationView::OpenInjector),
        best_effort(
            OperationView::KeyEvent(Key::Modifier(ModifierKey::Control), Direction::Release),
        ),
        best_effort(OperationView::KeyEvent(Key::Modifier(ModifierKey::Alt), Direction::Release)),
        best_effort(OperationView::KeyEvent(Key::Modifier(ModifierKey::Shift), Direction::Release)),
        best_effort(OperationView::KeyEvent(Key::Modifier(ModifierKey::Meta), Direction::Release)),
    ] + typing_steps(chunks(text))
}

/// The steps by which a text is delivered in a mode.
pub open spec fn protocol(text: Seq<char>, mode: OutputMode, platform: Platform) -> Seq<StepView> {
    match mode {
        OutputMode::Paste => paste_steps(text, platform),
        OutputMode::PasteAndClipboard => paste_and_keep_steps(text, platform),
        OutputMode::Clipboard => clipboard_steps(text),
        OutputMode::Keystrokes => keystroke_steps(text),
        OutputMode::KeystrokesAndClipboard => clipboard_steps(text) + keystroke_steps(text),
    }
}

/// Adds a step at the end of a protocol.
fn push_step(steps: &mut Vec<Step>, operation: Operation, policy: Policy)
    ensures
        final(steps).deep_view() == old(steps).deep_view().push(
            StepView { operation: operation@, policy },
        ),
{
    steps.push(Step { operation, policy });
    assert(steps.deep_view() =~= old(steps).deep_view().push(
        StepView { operation: operation@, policy },
    ));
}

/// Adds a wait at the end of a protocol.
fn push_pause(steps: &mut Vec<Step>, millis: u64)
    ensures
        final(steps).deep_view() == old(steps).deep_view().push(pause(millis)),
{
    push_step(steps, Operation::Wait(millis), Policy::BestEffort);
}

/// Adds a protocol at the end of another.
fn append_steps(steps: &mut Vec<Step>, more: Vec<Step>)
    ensures
        final(steps).deep_view() == old(steps).deep_view() + more.deep_view(),
{
    let mut more = more;
    let ghost added = more.deep_view();
    steps.append(&mut more);
    assert(steps.deep_view() =~= old(steps).deep_view() + added);
}

/// The protocol that pastes a text and leaves it on the clipboard.
pub fn paste_and_keep_clipboard(text: &str, platform: Platform) -> (steps: Vec<Step>)
    ensures
        steps.deep_view() == paste_and_keep_steps(text@, platform),
{
    let modifier = Key::Modifier(platform.paste_modifier());
    let mut steps: Vec<Step> = Vec::new();
    assert(steps.deep_view() =~= Seq::<StepView>::empty());
    push_step(&mut steps, Operation::WriteClipboard(text.to_owned()), Policy::Required);
    push_pause(&mut steps, CLIPBOARD_STABILIZATION_DELAY_MS);
    push_step(&mut steps, Operation::OpenInjector, Policy::Required);
    push_step(&mut steps, Operation::KeyEvent(modifier, Direction::Press), Policy::Required);
    push_pause(&mut steps, KEY_EVENT_DELAY_MS);
    push_step(
        &mut steps,
        Operation::KeyEvent(Key::Character('v'), Direction::Click),
        Policy::BestEffort,
    );
    push_pause(&mut steps, KEY_EVENT_DELAY_MS);
    push_step(&mut steps, Operation::KeyEvent(modifier, Direction::Release), Policy::BestEffort);
    assert(steps.deep_view() =~= paste_and_keep_steps(text@, platform));
    steps
}

/// The protocol that pastes a text and then puts the previous clipboard
/// text back.
pub fn type_text_blocking(text: &str, platform: Platform) -> (steps: Vec<Step>)
    ensures
        steps.deep_view() == paste_steps(text@, platform),
{
    let mut steps: Vec<Step> = Vec::new();
    assert(steps.deep_view() =~= Seq::<StepView>::empty());
    push_step(&mut steps, Operation::SnapshotClipboard, Policy::BestEffort);
    append_steps(&mut steps, paste_and_keep_clipboard(text, platform));
    push_pause(&mut steps, CLIPBOARD_RESTORE_DELAY_MS);
    push_step(&mut steps, Operation::RestoreClipboard, Policy::BestEffort);
    assert(steps.deep_view() =~= paste_steps(text@, platform));
    steps
}

/// The protocol that writes a text to the clipboard and sends no key.
pub fn copy_to_clipboard(text: &str) -> (steps: Vec<Step>)
    ensures
        steps.deep_view() == clipboard_steps(text@),
{
    let mut steps: Vec<Step> = Vec::new();
    assert(steps.deep_view() =~= Seq::<StepView>::empty());
    push_step(&mut steps, Operation::WriteClipboard(text.to_owned()), Policy::Required);
    assert(steps.deep_view() =~= clipboard_steps(text@));
    steps
}

/// The protocol that types a text as keystrokes.
pub fn type_as_keystrokes(text: &str) -> (steps: Vec<Step>)
    ensures
        steps.deep_view() == keystroke_steps(text@),
{
    let mut steps: Vec<Step> = Vec::new();
    assert(steps.deep_view() =~= Seq::<StepView>::empty());
    push_pause(&mut steps, MODIFIER_SETTLE_DELAY_MS);
    push_step(&mut steps, Operation::OpenInjector, Policy::Required);
    push_step(
        &mut steps,
        Operation::KeyEvent(Key::Modifier(ModifierKey::Control), Direction::Release),
        Policy::BestEffort,
    );
    push_step(
        &mut steps,
        Operation::KeyEvent(Key::Modifier(ModifierKey::Alt), Direction::Release),
        Policy::BestEffort,
    );
    push_step(
        &mut steps,
        Operation::KeyEvent(Key::Modifier(ModifierKey::Shift), Direction::Release),
        Policy::BestEffort,
    );
    push_step(
        &mut steps,
        Operation::KeyEvent(Key::Modifier(ModifierKey::Meta), Direction::Release),
        Policy::BestEffort,
    );
    let ghost head = steps.deep_view();
    let pieces = split_chunks(text);
    let ghost all = pieces.deep_view();
    proof {
        law_chunks_rebuild_text(text@);
        assert(all.take(0) =~= Seq::<Seq<char>>::empty());
    }
    for piece in it: pieces
        invariant
            it.seq() == pieces@,
            all == pieces.deep_view(),
            all == chunks(text@),
            forall|i: int| 0 <= i < all.len() - 1 ==> (#[trigger] all[i]).len() == CHUNK_CHARS,
            forall|i: int| 0 <= i < all.len() ==> (#[trigger] all[i]).len() <= CHUNK_CHARS,
            steps.deep_view() == head + typing_steps(all.take(it.index())),
    {
        let full = piece.as_str().unicode_len() >= CHUNK_CHARS;
        let ghost before = steps.deep_view();
        push_step(&mut steps, Operation::TypeText(piece), Policy::Required);
        if full {
            push_pause(&mut steps, CHUNK_DELAY_MS);
        }
        proof {
            let k = it.index();
            assert(all[k] == piece@);
            assert(all.take(k + 1).last() == all[k]);
            if k > 0 {
                assert(all.take(k).last() == all[k - 1]);
            }
            assert(steps.deep_view() =~= head + typing_steps(all.take(k + 1)));
        }
    }
    assert(all.take(all.len() as int) =~= all);
    assert(steps.deep_view() =~= keystroke_steps(text@));
    steps
}

/// The protocol that delivers a text in the given mode.
pub fn output_text_with_mode(text: &str, mode: OutputMode, platform: Platform) -> (steps: Vec<Step>)
    ensures
        steps.deep_view() == protocol(text@, mode, platform),
{
    match mode {
        OutputMode::Paste => type_text_blocking(text, platform),
        OutputMode::PasteAndClipboard => paste_and_keep_clipboard(text, platform),
        OutputMode::Clipboard => copy_to_clipboard(text),
        OutputMode::Keystrokes => type_as_keystrokes(text),
        OutputMode::KeystrokesAndClipboard => {
            let mut steps = copy_to_clipboard(text);
            append_steps(&mut steps, type_as_keystrokes(text));
            steps
        },
    }
}

} // verus!
