//! The delivery engine: it walks a protocol step by step and decides, from
//! what the host reports of each step, how the delivery goes on.
//!
//! The engine touches neither the clipboard nor the keyboard and never
//! sleeps. It names the next [`Action`]; the host performs it and hands back
//! an [`Outcome`]; the engine moves on. A delivery is run like this:
//!
//! ```text
//! let mut delivery = deliver(text, mode_identifier, platform);
//! while let Some(action) = delivery.pending() {
//!     delivery.advance(host.perform(action));
//! }
//! delivery.result()
//! ```

use vstd::prelude::*;
use crate::error::{report_view, DeliveryError, DeliveryErrorView, ErrorKind};
use crate::keys::{Direction, Key, Platform};
use crate::mode::{resolve_mode, OutputMode};
use crate::protocol::{
    output_text_with_mode, protocol, Operation, OperationView, Policy, Resource, Step, StepView,
};

verus! {

/// What the engine asks the host to do next.
#[derive(Debug, PartialEq, Eq)]
pub enum Action {
    /// Read the clipboard's text and hand it back.
    ReadClipboard,
    /// Replace the clipboard's text.
    WriteClipboard(String),
    /// Let the given number of milliseconds pass.
    Wait(u64),
    /// Connect to the input subsystem of the operating system.
    OpenInjector,
    /// Send one synthetic key event.
    KeyEvent(Key, Direction),
    /// Type a run of characters in one call.
    TypeText(String),
}

/// An `Action` as a mathematical value.
pub enum ActionView {
    ReadClipboard,
    WriteClipboard(Seq<char>),
    Wait(u64),
    OpenInjector,
    KeyEvent(Key, Direction),
    TypeText(Seq<char>),
}

impl View for Action {
    type V = ActionView;

    open spec fn view(&self) -> ActionView {
        match self {
            Action::ReadClipboard => ActionView::ReadClipboard,
            Action::WriteClipboard(text) => ActionView::WriteClipboard(text@),
            Action::Wait(millis) => ActionView::Wait(*millis),
            Action::OpenInjector => ActionView::OpenInjector,
            Action::KeyEvent(key, direction) => ActionView::KeyEvent(*key, *direction),
            Action::TypeText(text) => ActionView::TypeText(text@),
        }
    }
}

impl DeepView for Action {
    type V = ActionView;

    open spec fn deep_view(&self) -> ActionView {
        self@
    }
}

impl ActionView {
    /// The resource that the action works on.
    pub open spec fn resource(self) -> Resource {
        match self {
            ActionView::ReadClipboard | ActionView::WriteClipboard(_) => Resource::Clipboard,
            ActionView::Wait(_) => Resource::Clock,
            ActionView::OpenInjector | ActionView::KeyEvent(_, _) | ActionView::TypeText(_) =>
                Resource::Injector,
        }
    }
}

impl Action {
    /// The resource that the action works on.
    pub fn resource(&self) -> (resource: Resource)
        ensures
            resource == self@.resource(),
    {
        match self {
            Action::ReadClipboard | Action::WriteClipboard(_) => Resource::Clipboard,
            Action::Wait(_) => Resource::Clock,
            Action::OpenInjector | Action::KeyEvent(_, _) | Action::TypeText(_) =>
                Resource::Injector,
        }
    }

    /// Whether the host has to perform the action on the main thread: every
    /// action on the injector, where the platform asks for it, and nothing
    /// else.
    pub fn on_main_thread(&self, platform: Platform) -> (main: bool)
        ensures
            main == (platform.injects_on_main_thread() && self@.resource() == Resource::Injector),
    {
        platform.injects_on_main_thread() && self.resource() == Resource::Injector
    }
}

impl OperationView {
    /// The action by which the host carries out an operation; it works on
    /// the operation's resource. The engine owns the snapshot: taking it is
    /// a read of the clipboard, restoring it a write of the text that was
    /// read.
    pub open spec fn action(self, snapshot: Seq<char>) -> ActionView {
        match self {
            OperationView::SnapshotClipboard => ActionView::ReadClipboard,
            OperationView::WriteClipboard(text) => ActionView::WriteClipboard(text),
            OperationView::RestoreClipboard => ActionView::WriteClipboard(snapshot),
            OperationView::Wait(millis) => ActionView::Wait(millis),
            OperationView::OpenInjector => ActionView::OpenInjector,
            OperationView::KeyEvent(key, direction) => ActionView::KeyEvent(key, direction),
            OperationView::TypeText(text) => ActionView::TypeText(text),
        }
    }
}

/// The action that carries out an operation works on the operation's
/// resource, whatever the snapshot holds.
pub proof fn law_action_works_on_the_operations_resource(
    operation: OperationView,
    snapshot: Seq<char>,
)
    ensures
        operation.action(snapshot).resource() == operation.resource(),
{
}

/// What the host reports of an action it was asked to perform.
#[derive(Debug, PartialEq, Eq)]
pub enum Outcome {
    /// The action was performed.
    Completed,
    /// The clipboard was read and held this text.
    ClipboardText(String),
    /// The operating system refused the action; the message is its own.
    Refused(String),
    /// The action was to run on the main thread, and the main thread could
    /// not be reached.
    Unreachable(String),
}

/// An `Outcome` as a mathematical value.
pub enum OutcomeView {
    Completed,
    ClipboardText(Seq<char>),
    Refused(Seq<char>),
    Unreachable(Seq<char>),
}

impl View for Outcome {
    type V = OutcomeView;

    open spec fn view(&self) -> OutcomeView {
        match self {
            Outcome::Completed => OutcomeView::Completed,
            Outcome::ClipboardText(text) => OutcomeView::ClipboardText(text@),
            Outcome::Refused(message) => OutcomeView::Refused(message@),
            Outcome::Unreachable(message) => OutcomeView::Unreachable(message@),
        }
    }
}

/// The error, if any, that an outcome stands for when it is reported of an
/// action on the given resource. A refusal is laid at the door of the
/// resource; an unreachable main thread is an error of its own kind. A wait
/// has nothing to fail in: whatever is reported of it, it is over.
pub open spec fn failure_of(resource: Resource, outcome: OutcomeView) -> Option<DeliveryErrorView> {
    match (resource, outcome) {
        (Resource::Clock, _) => None,
        (_, OutcomeView::Completed) => None,
        (_, OutcomeView::ClipboardText(_)) => None,
        (Resource::Clipboard, OutcomeView::Refused(message)) => Some(
            DeliveryErrorView { kind: ErrorKind::ClipboardUnavailable, message },
        ),
        (Resource::Injector, OutcomeView::Refused(message)) => Some(
            DeliveryErrorView { kind: ErrorKind::InjectionDenied, message },
        ),
        (_, OutcomeView::Unreachable(message)) => Some(
            DeliveryErrorView { kind: ErrorKind::DispatchUnreachable, message },
        ),
    }
}

/// The state of a delivery, as a mathematical value.
pub struct DeliveryView {
    /// The protocol being followed.
    pub steps: Seq<StepView>,
    /// The number of steps that are over; the step at this index is next.
    pub cursor: nat,
    /// The clipboard text read by the snapshot step. It is empty until a
    /// snapshot has been taken, and stays empty if the clipboard held no
    /// text or could not be read.
    pub snapshot: Seq<char>,
    /// The failures of best-effort steps, in the order in which they
    /// happened. They never change the result.
    pub ignored: Seq<DeliveryErrorView>,
    /// The failure of a required step, which ended the delivery.
    pub failure: Option<DeliveryErrorView>,
}

impl DeliveryView {
    /// A delivery that has not begun.
    pub open spec fn start(steps: Seq<StepView>) -> DeliveryView {
        DeliveryView {
            steps,
            cursor: 0,
            snapshot: Seq::empty(),
            ignored: Seq::empty(),
            failure: None,
        }
    }

    /// Whether nothing is left to do: a required step has failed, or every
    /// step is over.
    pub open spec fn finished(self) -> bool {
        self.failure is Some || self.cursor >= self.steps.len()
    }

    /// The most turns that the delivery can still take: none once it is
    /// finished, else one for each step that is not over.
    pub open spec fn turns_left(self) -> nat {
        if self.finished() {
            0
        } else {
            (self.steps.len() - self.cursor) as nat
        }
    }

    /// Whether the delivery is finished and reports success.
    pub open spec fn succeeded(self) -> bool {
        self.failure is None && self.cursor >= self.steps.len()
    }

    /// The step that is next.
    pub open spec fn current(self) -> StepView
        recommends
            !self.finished(),
    {
        self.steps[self.cursor as int]
    }

    /// The action that the host is to perform next; none once the delivery
    /// is finished.
    pub open spec fn pending(self) -> Option<ActionView> {
        if self.finished() {
            None
        } else {
            Some(self.current().operation.action(self.snapshot))
        }
    }

    /// What the delivery reports: nothing while it runs, then the failure of
    /// the required step that ended it, or success.
    pub open spec fn result(self) -> Option<Result<(), DeliveryErrorView>> {
        if self.failure is Some {
            Some(Err(self.failure->0))
        } else if self.cursor >= self.steps.len() {
            Some(Ok(()))
        } else {
            None
        }
    }

    /// The state after the host has reported the outcome of the pending
    /// action.
    ///
    /// - A finished delivery stays as it is.
    /// - A failure of a required step ends the delivery with that error.
    /// - A failure of a best-effort step is added to `ignored`, and the
    ///   delivery moves on to the next step.
    /// - Otherwise the delivery moves on, and a text read for the snapshot
    ///   step becomes the snapshot.
    pub open spec fn advance(self, outcome: OutcomeView) -> DeliveryView {
        if self.finished() {
            self
        } else {
            let step = self.current();
            match failure_of(step.operation.resource(), outcome) {
                Some(error) => match step.policy {
                    Policy::Required => DeliveryView { failure: Some(error), ..self },
                    Policy::BestEffort => DeliveryView {
                        cursor: self.cursor + 1,
                        ignored: self.ignored.push(error),
                        ..self
                    },
                },
                None => DeliveryView {
                    cursor: self.cursor + 1,
                    snapshot: match (step.operation, outcome) {
                        (OperationView::SnapshotClipboard, OutcomeView::ClipboardText(text)) => text,
                        _ => self.snapshot,
                    },
                    ..self
                },
            }
        }
    }
}

/// Every report brings a running delivery nearer to its end, so the loop
/// that runs it takes no more turns than the protocol has steps. The
/// protocol and, but for the snapshot step, the snapshot stay as they are,
/// and nothing that was noted is lost.
pub proof fn law_every_report_makes_progress(delivery: DeliveryView, outcome: OutcomeView)
    requires
        !delivery.finished(),
    ensures
        delivery.advance(outcome).turns_left() < delivery.turns_left(),
        delivery.turns_left() <= delivery.steps.len(),
        delivery.advance(outcome).steps == delivery.steps,
        delivery.current().operation != OperationView::SnapshotClipboard ==> delivery.advance(
            outcome,
        ).snapshot == delivery.snapshot,
        delivery.ignored.is_prefix_of(delivery.advance(outcome).ignored),
{
}

/// One delivery of one text, from its first step to its result.
pub struct Delivery {
    steps: Vec<Step>,
    cursor: usize,
    snapshot: String,
    ignored: Vec<DeliveryError>,
    failure: Option<DeliveryError>,
}

impl View for Delivery {
    type V = DeliveryView;

    closed spec fn view(&self) -> DeliveryView {
        DeliveryView {
            steps: self.steps.deep_view(),
            cursor: self.cursor as nat,
            snapshot: self.snapshot@,
            ignored: self.ignored.deep_view(),
            failure: self.failure.deep_view(),
        }
    }
}

impl Delivery {
    /// A delivery that follows the given protocol and has not begun.
    pub fn new(steps: Vec<Step>) -> (delivery: Delivery)
        ensures
            delivery@ == DeliveryView::start(steps.deep_view()),
    {
        let delivery = Delivery {
            steps,
            cursor: 0,
            snapshot: String::new(),
            ignored: Vec::new(),
            failure: None,
        };
        assert(delivery.ignored.deep_view() =~= Seq::<DeliveryErrorView>::empty());
        delivery
    }

    /// Whether nothing is left to do.
    pub fn is_finished(&self) -> (finished: bool)
        ensures
            finished == self@.finished(),
    {
        self.failure.is_some() || self.cursor >= self.steps.len()
    }

    /// The action that the host is to perform next; none once the delivery
    /// is finished.
    pub fn pending(&self) -> (action: Option<Action>)
        ensures
            action.deep_view() == self@.pending(),
    {
        if self.is_finished() {
            return None;
        }
        let step = &self.steps[self.cursor];
        let action = match &step.operation {
            Operation::SnapshotClipboard => Action::ReadClipboard,
            Operation::WriteClipboard(text) => Action::WriteClipboard(text.clone()),
            Operation::RestoreClipboard => Action::WriteClipboard(self.snapshot.clone()),
            Operation::Wait(millis) => Action::Wait(*millis),
            Operation::OpenInjector => Action::OpenInjector,
            Operation::KeyEvent(key, direction) => Action::KeyEvent(*key, *direction),
            Operation::TypeText(text) => Action::TypeText(text.clone()),
        };
        Some(action)
    }

    /// Takes the host's report of the pending action and moves on.
    pub fn advance(&mut self, outcome: Outcome)
        ensures
            final(self)@ == old(self)@.advance(outcome@),
    {
        if self.failure.is_some() || self.cursor >= self.steps.len() {
            return;
        }
        let step = &self.steps[self.cursor];
        let next = self.cursor + 1;
        let policy = step.policy;
        let resource = step.operation.resource();
        let takes_snapshot = match &step.operation {
            Operation::SnapshotClipboard => true,
            _ => false,
        };
        let failure = match outcome {
            Outcome::Completed => None,
            Outcome::ClipboardText(text) => {
                if takes_snapshot {
                    self.snapshot = text;
                }
                None
            },
            Outcome::Refused(message) => match resource {
                Resource::Clock => None,
                Resource::Clipboard => Some(
                    DeliveryError { kind: ErrorKind::ClipboardUnavailable, message },
                ),
                Resource::Injector => Some(
                    DeliveryError { kind: ErrorKind::InjectionDenied, message },
                ),
            },
            Outcome::Unreachable(message) => match resource {
                Resource::Clock => None,
                _ => Some(DeliveryError { kind: ErrorKind::DispatchUnreachable, message }),
            },
        };
        match failure {
            None => {
                self.cursor = next;
            },
            Some(error) => match policy {
                Policy::Required => {
                    self.failure = Some(error);
                },
                Policy::BestEffort => {
                    let ghost noted = error@;
                    self.ignored.push(error);
                    self.cursor = next;
                    assert(self.ignored.deep_view() =~= old(self).ignored.deep_view().push(noted));
                },
            },
        }
    }

    /// What the delivery reports: nothing while it runs, then the failure of
    /// the required step that ended it, or success.
    pub fn result(&self) -> (report: Option<Result<(), DeliveryError>>)
        ensures
            match report {
                Some(report) => self@.result() == Some(report_view(report)),
                None => self@.result() is None,
            },
    {
        match &self.failure {
            Some(error) => Some(Err(error.clone())),
            None => if self.cursor >= self.steps.len() {
                Some(Ok(()))
            } else {
                None
            },
        }
    }

    /// The failures of best-effort steps so far, oldest first. They are for
    /// the log; the result does not depend on them.
    pub fn ignored(&self) -> (noted: &Vec<DeliveryError>)
        ensures
            noted.deep_view() == self@.ignored,
    {
        &self.ignored
    }
}

/// Begins the delivery of a text in the mode that the identifier names.
pub fn deliver(text: &str, mode_identifier: &str, platform: Platform) -> (delivery: Delivery)
    ensures
        delivery@ == DeliveryView::start(protocol(text@, resolve_mode(mode_identifier@), platform)),
{
    let mode = OutputMode::from_str(mode_identifier);
    Delivery::new(output_text_with_mode(text, mode, platform))
}

} // verus!
