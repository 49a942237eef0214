//! A model of the desktop that a delivery acts on, and what the protocols
//! are proved to do to it.
//!
//! Nothing here runs. The model says what a host that does as it is told
//! leaves behind: a written text is on the clipboard until the next write, a
//! read hands back what is there, key events and typed texts arrive in the
//! order in which they were sent, and an action that fails changes nothing.
//! Other programs that write to the clipboard in the middle of a delivery
//! are outside the model.

use vstd::prelude::*;
use crate::delivery::{failure_of, ActionView, DeliveryView, OutcomeView};
use crate::error::DeliveryErrorView;
use crate::keys::{Direction, Key, Platform};
use crate::mode::OutputMode;
use crate::protocol::{protocol, typing_steps, Policy, Resource, StepView};
use crate::text::chunks;

verus! {

/// What the desktop holds of a delivery's doing.
pub struct Desktop {
    /// The clipboard's text.
    pub clipboard: Seq<char>,
    /// The key events that were sent, oldest first.
    pub keys: Seq<(Key, Direction)>,
    /// The texts that were typed, one entry for each call, oldest first.
    pub typed: Seq<Seq<char>>,
}

/// A way in which the host can fail to perform an action.
pub enum Fault {
    /// The operating system refuses, with this message.
    Refused(Seq<char>),
    /// The main thread cannot be reached, with this message.
    Unreachable(Seq<char>),
}

impl Fault {
    /// What the host reports when the fault befalls an action.
    pub open spec fn report(self) -> OutcomeView {
        match self {
            Fault::Refused(message) => OutcomeView::Refused(message),
            Fault::Unreachable(message) => OutcomeView::Unreachable(message),
        }
    }
}

/// For each step of a protocol, by its index, the fault that befalls it, if
/// any.
pub type Faults = spec_fn(nat) -> Option<Fault>;

impl Desktop {
    /// The desktop after an action has been performed on it.
    pub open spec fn after(self, action: ActionView) -> Desktop {
        match action {
            ActionView::WriteClipboard(text) => Desktop { clipboard: text, ..self },
            ActionView::KeyEvent(key, direction) => Desktop {
                keys: self.keys.push((key, direction)),
                ..self
            },
            ActionView::TypeText(text) => Desktop { typed: self.typed.push(text), ..self },
            _ => self,
        }
    }

    /// What the host reports of an action on a desktop on which nothing
    /// fails.
    pub open spec fn answer(self, action: ActionView) -> OutcomeView {
        match action {
            ActionView::ReadClipboard => OutcomeView::ClipboardText(self.clipboard),
            _ => OutcomeView::Completed,
        }
    }

    /// The desktop that the host leaves, and what it reports, when it is
    /// asked for an action that the given fault befalls.
    pub open spec fn perform(self, action: ActionView, fault: Option<Fault>) -> (
        Desktop,
        OutcomeView,
    ) {
        match fault {
            None => (self.after(action), self.answer(action)),
            Some(fault) => (self, fault.report()),
        }
    }
}

/// One turn of the loop that runs a delivery: the host performs the pending
/// action, and the delivery takes its report.
pub open spec fn turn(delivery: DeliveryView, desktop: Desktop, faults: Faults) -> (
    DeliveryView,
    Desktop,
)
    recommends
        !delivery.finished(),
{
    let (left, outcome) = desktop.perform(delivery.pending()->0, faults(delivery.cursor));
    (delivery.advance(outcome), left)
}

/// A delivery run to its end: the state in which it finishes, and the
/// desktop it leaves.
pub open spec fn run(delivery: DeliveryView, desktop: Desktop, faults: Faults) -> (
    DeliveryView,
    Desktop,
)
    decreases delivery.steps.len() - delivery.cursor,
{
    if delivery.finished() {
        (delivery, desktop)
    } else {
        let (next, left) = turn(delivery, desktop, faults);
        if next.failure is Some {
            (next, left)
        } else {
            run(next, left, faults)
        }
    }
}

/// The delivery of a text in a mode, from its first step to its end.
pub open spec fn delivered(
    text: Seq<char>,
    mode: OutputMode,
    platform: Platform,
    desktop: Desktop,
    faults: Faults,
) -> (DeliveryView, Desktop) {
    run(DeliveryView::start(protocol(text, mode, platform)), desktop, faults)
}

/// Whether no fault befalls a step that works on the given resource.
pub open spec fn never_fails(steps: Seq<StepView>, resource: Resource, faults: Faults) -> bool {
    forall|i: nat|
        i < steps.len() && (#[trigger] steps[i as int]).operation.resource()
            == resource ==> faults(i) is None
}

/// Every delivery comes to an end, whatever fails on the way, and follows
/// the same protocol to the last.
pub proof fn law_every_delivery_ends(delivery: DeliveryView, desktop: Desktop, faults: Faults)
    ensures
        run(delivery, desktop, faults).0.finished(),
        run(delivery, desktop, faults).0.steps == delivery.steps,
    decreases delivery.steps.len() - delivery.cursor,
{
    if !delivery.finished() {
        let (next, left) = turn(delivery, desktop, faults);
        if next.failure is None {
            law_every_delivery_ends(next, left, faults);
        }
    }
}

/// A run on which no fault befalls any step notes no failure.
proof fn lemma_faultless_run_ignores_nothing(
    delivery: DeliveryView,
    desktop: Desktop,
    faults: Faults,
)
    requires
        forall|i: nat| (#[trigger] faults(i)) is None,
    ensures
        run(delivery, desktop, faults).0.ignored == delivery.ignored,
        run(delivery, desktop, faults).0.failure == delivery.failure,
    decreases delivery.steps.len() - delivery.cursor,
{
    if !delivery.finished() {
        let (next, left) = turn(delivery, desktop, faults);
        if next.failure is None {
            lemma_faultless_run_ignores_nothing(next, left, faults);
        }
    }
}

/// Where no fault befalls any step, the delivery succeeds in every mode, and
/// there is nothing for the log.
pub proof fn law_faultless_delivery_succeeds(
    text: Seq<char>,
    mode: OutputMode,
    platform: Platform,
    desktop: Desktop,
    faults: Faults,
)
    requires
        forall|i: nat| (#[trigger] faults(i)) is None,
    ensures
        ({
            let end = delivered(text, mode, platform, desktop, faults).0;
            end.succeeded() && end.ignored.len() == 0
        }),
{
    let start = DeliveryView::start(protocol(text, mode, platform));
    lemma_faultless_run_ignores_nothing(start, desktop, faults);
    law_every_delivery_ends(start, desktop, faults);
}

/// Whether the delivery breaks at the step with the given index, if it gets
/// that far: the step is required, and a fault befalls it. (A wait has
/// nothing to fail in.)
pub open spec fn breaks_at(steps: Seq<StepView>, faults: Faults, i: nat) -> bool {
    &&& i < steps.len()
    &&& steps[i as int].policy == Policy::Required
    &&& steps[i as int].operation.resource() != Resource::Clock
    &&& faults(i) is Some
}

/// The error with which a delivery breaks at the step with the given index.
pub open spec fn error_at(steps: Seq<StepView>, faults: Faults, i: nat) -> Option<
    DeliveryErrorView,
>
    recommends
        breaks_at(steps, faults, i),
{
    failure_of(steps[i as int].operation.resource(), faults(i)->0.report())
}

proof fn lemma_result_follows_required_steps(
    delivery: DeliveryView,
    desktop: Desktop,
    faults: Faults,
)
    requires
        delivery.failure is None,
    ensures
        ({
            let end = run(delivery, desktop, faults).0;
            &&& end.succeeded() <==> forall|i: nat|
                i >= delivery.cursor ==> !#[trigger] breaks_at(delivery.steps, faults, i)
            &&& forall|i: nat|
                i >= delivery.cursor && #[trigger] breaks_at(delivery.steps, faults, i) && (forall|
                    j: nat,
                |
                    delivery.cursor <= j < i ==> !#[trigger] breaks_at(delivery.steps, faults, j))
                    ==> end.cursor == i && end.failure is Some && end.failure == error_at(
                    delivery.steps,
                    faults,
                    i,
                )
        }),
    decreases delivery.steps.len() - delivery.cursor,
{
    let steps = delivery.steps;
    let end = run(delivery, desktop, faults).0;
    if !delivery.finished() {
        let (next, left) = turn(delivery, desktop, faults);
        if next.failure is None {
            lemma_result_follows_required_steps(next, left, faults);
            assert(!breaks_at(steps, faults, delivery.cursor));
            assert forall|i: nat|
                i >= delivery.cursor && #[trigger] breaks_at(steps, faults, i) && (forall|j: nat|
                    delivery.cursor <= j < i ==> !#[trigger] breaks_at(steps, faults, j)) implies end.cursor
                == i && end.failure is Some && end.failure == error_at(steps, faults, i) by {
                assert(i >= next.cursor);
            }
        } else {
            assert(breaks_at(steps, faults, delivery.cursor));
        }
    }
}

/// A delivery succeeds if and only if no fault befalls a required step;
/// what befalls a best-effort step never changes the result. Otherwise it
/// ends at the first required step that a fault befalls, with the error of
/// that fault.
pub proof fn law_result_follows_required_steps(
    steps: Seq<StepView>,
    desktop: Desktop,
    faults: Faults,
)
    ensures
        ({
            let end = run(DeliveryView::start(steps), desktop, faults).0;
            &&& end.succeeded() <==> forall|i: nat| !#[trigger] breaks_at(steps, faults, i)
            &&& forall|i: nat|
                #[trigger] breaks_at(steps, faults, i) && (forall|j: nat|
                    j < i ==> !#[trigger] breaks_at(steps, faults, j)) ==> end.cursor == i
                    && end.failure is Some && end.failure == error_at(steps, faults, i)
        }),
{
    lemma_result_follows_required_steps(DeliveryView::start(steps), desktop, faults);
}

/// In `Paste` mode, where the clipboard never fails, a delivery that
/// succeeds leaves on the clipboard what was there before it; one that
/// fails leaves the text there.
pub proof fn law_paste_restores_clipboard(
    text: Seq<char>,
    platform: Platform,
    desktop: Desktop,
    faults: Faults,
)
    requires
        never_fails(protocol(text, OutputMode::Paste, platform), Resource::Clipboard, faults),
    ensures
        ({
            let (end, left) = delivered(text, OutputMode::Paste, platform, desktop, faults);
            &&& end.succeeded() ==> left.clipboard == desktop.clipboard
            &&& !end.succeeded() ==> left.clipboard == text
        }),
{
    let steps = protocol(text, OutputMode::Paste, platform);
    assert(steps.len() == 11);
    assert(faults(0) is None) by {
        let _ = steps[0];
    }
    assert(faults(1) is None) by {
        let _ = steps[1];
    }
    assert(faults(10) is None) by {
        let _ = steps[10];
    }
    reveal_with_fuel(run, 12);
}

/// In the modes `PasteAndClipboard` and `Clipboard`, a delivery that
/// succeeds leaves the text on the clipboard.
pub proof fn law_text_stays_on_clipboard(
    text: Seq<char>,
    mode: OutputMode,
    platform: Platform,
    desktop: Desktop,
    faults: Faults,
)
    requires
        mode == OutputMode::PasteAndClipboard || mode == OutputMode::Clipboard,
    ensures
        ({
            let (end, left) = delivered(text, mode, platform, desktop, faults);
            end.succeeded() ==> left.clipboard == text
        }),
{
    reveal_with_fuel(run, 9);
}

/// In the modes `Paste` and `PasteAndClipboard`, where the injector never
/// fails, a delivery that succeeds has sent the paste shortcut of the
/// platform and nothing else: the modifier pressed, `v` clicked, the
/// modifier released.
pub proof fn law_pasting_sends_the_shortcut(
    text: Seq<char>,
    mode: OutputMode,
    platform: Platform,
    desktop: Desktop,
    faults: Faults,
)
    requires
        mode == OutputMode::Paste || mode == OutputMode::PasteAndClipboard,
        never_fails(protocol(text, mode, platform), Resource::Injector, faults),
    ensures
        ({
            let (end, left) = delivered(text, mode, platform, desktop, faults);
            let modifier = Key::Modifier(platform.paste_modifier());
            end.succeeded() ==> left.typed == desktop.typed && left.keys == desktop.keys + seq![
                (modifier, Direction::Press),
                (Key::Character('v'), Direction::Click),
                (modifier, Direction::Release),
            ]
        }),
{
    let steps = protocol(text, mode, platform);
    let base: int = if mode == OutputMode::Paste {
        1
    } else {
        0
    };
    assert(faults((base + 2) as nat) is None) by {
        let _ = steps[base + 2];
    }
    assert(faults((base + 3) as nat) is None) by {
        let _ = steps[base + 3];
    }
    assert(faults((base + 5) as nat) is None) by {
        let _ = steps[base + 5];
    }
    assert(faults((base + 7) as nat) is None) by {
        let _ = steps[base + 7];
    }
    reveal_with_fuel(run, 12);
    let (end, left) = delivered(text, mode, platform, desktop, faults);
    let modifier = Key::Modifier(platform.paste_modifier());
    if end.succeeded() {
        assert(left.keys =~= desktop.keys + seq![
            (modifier, Direction::Press),
            (Key::Character('v'), Direction::Click),
            (modifier, Direction::Release),
        ]);
    }
}

/// In `Clipboard` mode no key is sent and nothing is typed.
pub proof fn law_copying_sends_no_key(
    text: Seq<char>,
    platform: Platform,
    desktop: Desktop,
    faults: Faults,
)
    ensures
        ({
            let left = delivered(text, OutputMode::Clipboard, platform, desktop, faults).1;
            left.keys == desktop.keys && left.typed == desktop.typed
        }),
{
    reveal_with_fuel(run, 2);
}

/// Two deliveries of the same text in `Clipboard` mode, one after the other:
/// if both succeed, the second changes nothing, and the clipboard holds the
/// text.
pub proof fn law_copying_twice_is_copying_once(
    text: Seq<char>,
    platform: Platform,
    desktop: Desktop,
    first_faults: Faults,
    second_faults: Faults,
)
    ensures
        ({
            let (first, between) = delivered(
                text,
                OutputMode::Clipboard,
                platform,
                desktop,
                first_faults,
            );
            let (second, left) = delivered(
                text,
                OutputMode::Clipboard,
                platform,
                between,
                second_faults,
            );
            first.succeeded() && second.succeeded() ==> left == between && left.clipboard == text
        }),
{
    reveal_with_fuel(run, 2);
}

/// A run over the typing steps that stand in a protocol from the index
/// `base` on: it leaves the clipboard alone, and where it succeeds, it has
/// typed the pieces that were still to come, in order.
proof fn lemma_typing_run(
    delivery: DeliveryView,
    desktop: Desktop,
    faults: Faults,
    pieces: Seq<Seq<char>>,
    base: nat,
)
    requires
        delivery.failure is None,
        base <= delivery.cursor <= delivery.steps.len(),
        delivery.steps.len() == base + typing_steps(pieces).len(),
        forall|k: int|
            0 <= k < typing_steps(pieces).len() ==> delivery.steps[base + k] == typing_steps(
                pieces,
            )[k],
    ensures
        ({
            let (end, left) = run(delivery, desktop, faults);
            &&& left.clipboard == desktop.clipboard
            &&& end.succeeded() ==> left.typed == desktop.typed + pieces.skip(
                (delivery.cursor - base + 1) / 2,
            )
        }),
    decreases delivery.steps.len() - delivery.cursor,
{
    let done = (delivery.cursor - base + 1) / 2;
    if delivery.finished() {
        assert(pieces.skip(done) =~= Seq::<Seq<char>>::empty());
        assert(desktop.typed + pieces.skip(done) =~= desktop.typed);
    } else {
        let k = delivery.cursor - base;
        assert(delivery.current() == typing_steps(pieces)[k]);
        let (next, left) = turn(delivery, desktop, faults);
        if next.failure is None {
            lemma_typing_run(next, left, faults, pieces, base);
            let (end, last) = run(next, left, faults);
            if end.succeeded() {
                if k % 2 == 0 {
                    assert(left.typed == desktop.typed.push(pieces[k / 2]));
                    assert(desktop.typed.push(pieces[k / 2]) + pieces.skip(k / 2 + 1)
                        =~= desktop.typed + pieces.skip(k / 2));
                }
            }
        }
    }
}

/// In the modes `Keystrokes` and `KeystrokesAndClipboard`, a delivery that
/// succeeds has typed the chunks of the text, one call for each chunk, in
/// order. With `law_chunks_rebuild_text` this gives their number and that,
/// joined, they are the text.
pub proof fn law_typing_types_the_chunks(
    text: Seq<char>,
    mode: OutputMode,
    platform: Platform,
    desktop: Desktop,
    faults: Faults,
)
    requires
        mode == OutputMode::Keystrokes || mode == OutputMode::KeystrokesAndClipboard,
    ensures
        ({
            let (end, left) = delivered(text, mode, platform, desktop, faults);
            end.succeeded() ==> left.typed == desktop.typed + chunks(text)
        }),
{
    let pieces = chunks(text);
    let d0 = DeliveryView::start(protocol(text, mode, platform));
    let base: nat = if mode == OutputMode::Keystrokes {
        6
    } else {
        7
    };
    assert(d0.steps.len() == base + typing_steps(pieces).len());
    assert(forall|k: int|
        0 <= k < typing_steps(pieces).len() ==> d0.steps[base + k] == typing_steps(pieces)[k]);
    assert(pieces.skip(0) =~= pieces);
    lemma_head_then_typing(d0, desktop, faults, pieces, base, base);
}

/// A run that begins in the steps before the typing: each of them types
/// nothing, so what is typed in the end is what the typing steps type.
proof fn lemma_head_then_typing(
    delivery: DeliveryView,
    desktop: Desktop,
    faults: Faults,
    pieces: Seq<Seq<char>>,
    base: nat,
    ahead: nat,
)
    requires
        delivery.failure is None,
        delivery.cursor + ahead == base,
        delivery.steps.len() == base + typing_steps(pieces).len(),
        forall|k: int|
            0 <= k < typing_steps(pieces).len() ==> delivery.steps[base + k] == typing_steps(
                pieces,
            )[k],
        forall|i: int|
            0 <= i < base ==> !((#[trigger] delivery.steps[i]).operation is TypeText),
    ensures
        ({
            let (end, left) = run(delivery, desktop, faults);
            end.succeeded() ==> left.typed == desktop.typed + pieces
        }),
    decreases ahead,
{
    if ahead == 0 {
        assert(pieces.skip(0) =~= pieces);
        lemma_typing_run(delivery, desktop, faults, pieces, base);
    } else {
        let (next, left) = turn(delivery, desktop, faults);
        let _ = delivery.steps[delivery.cursor as int];
        if next.failure is None {
            lemma_head_then_typing(next, left, faults, pieces, base, (ahead - 1) as nat);
        }
    }
}

/// In `Keystrokes` mode the clipboard is left as it is, whatever happens.
pub proof fn law_typing_leaves_the_clipboard(
    text: Seq<char>,
    platform: Platform,
    desktop: Desktop,
    faults: Faults,
)
    ensures
        delivered(text, OutputMode::Keystrokes, platform, desktop, faults).1.clipboard
            == desktop.clipboard,
{
    let pieces = chunks(text);
    let d0 = DeliveryView::start(protocol(text, OutputMode::Keystrokes, platform));
    assert(d0.steps.len() == 6 + typing_steps(pieces).len());
    assert(forall|k: int|
        0 <= k < typing_steps(pieces).len() ==> d0.steps[6 + k] == typing_steps(pieces)[k]);
    lemma_head_keeps_clipboard(d0, desktop, faults, pieces, 6, 6);
}

/// In `KeystrokesAndClipboard` mode, once the text is written to the
/// clipboard it stays there: whatever befalls the typing that follows, the
/// clipboard is not put back.
pub proof fn law_failed_typing_keeps_clipboard(
    text: Seq<char>,
    platform: Platform,
    desktop: Desktop,
    faults: Faults,
)
    requires
        faults(0) is None,
    ensures
        delivered(text, OutputMode::KeystrokesAndClipboard, platform, desktop, faults).1.clipboard
            == text,
{
    let pieces = chunks(text);
    let d0 = DeliveryView::start(protocol(text, OutputMode::KeystrokesAndClipboard, platform));
    assert(d0.steps.len() == 7 + typing_steps(pieces).len());
    assert(forall|k: int|
        0 <= k < typing_steps(pieces).len() ==> d0.steps[7 + k] == typing_steps(pieces)[k]);
    let (d1, k1) = turn(d0, desktop, faults);
    assert(k1.clipboard == text);
    lemma_head_keeps_clipboard(d1, k1, faults, pieces, 7, 6);
}

/// A run that begins in the steps before the typing, none of which writes
/// to the clipboard, leaves the clipboard as it is.
proof fn lemma_head_keeps_clipboard(
    delivery: DeliveryView,
    desktop: Desktop,
    faults: Faults,
    pieces: Seq<Seq<char>>,
    base: nat,
    ahead: nat,
)
    requires
        delivery.failure is None,
        delivery.cursor + ahead == base,
        delivery.steps.len() == base + typing_steps(pieces).len(),
        forall|k: int|
            0 <= k < typing_steps(pieces).len() ==> delivery.steps[base + k] == typing_steps(
                pieces,
            )[k],
        forall|i: int|
            delivery.cursor <= i < base ==> (#[trigger] delivery.steps[i]).operation.resource()
                != Resource::Clipboard,
    ensures
        run(delivery, desktop, faults).1.clipboard == desktop.clipboard,
    decreases ahead,
{
    if ahead == 0 {
        lemma_typing_run(delivery, desktop, faults, pieces, base);
    } else {
        let (next, left) = turn(delivery, desktop, faults);
        let _ = delivery.steps[delivery.cursor as int];
        if next.failure is None {
            lemma_head_keeps_clipboard(next, left, faults, pieces, base, (ahead - 1) as nat);
        }
    }
}

} // verus!
