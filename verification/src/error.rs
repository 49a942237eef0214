//! Why a delivery failed.

use vstd::prelude::*;

verus! {

/// The resource that let a delivery down.
#[derive(Clone, Copy, Debug, PartialEq, Eq, Structural)]
pub enum ErrorKind {
    /// The clipboard service of the operating system cannot be reached.
    ClipboardUnavailable,
    /// The operating system refuses synthetic input, for instance because
    /// the accessibility permission is missing.
    InjectionDenied,
    /// The main thread, on which synthetic input has to be sent, is gone,
    /// for instance because the application is shutting down.
    DispatchUnreachable,
}

/// A failure of one step of a delivery: the resource that failed, and what
/// the operating system said about it.
#[derive(Debug, PartialEq, Eq)]
pub struct DeliveryError {
    pub kind: ErrorKind,
    pub message: String,
}

/// A `DeliveryError` as a mathematical value.
pub struct DeliveryErrorView {
    pub kind: ErrorKind,
    pub message: Seq<char>,
}

impl View for DeliveryError {
    type V = DeliveryErrorView;

    open spec fn view(&self) -> DeliveryErrorView {
        DeliveryErrorView { kind: self.kind, message: self.message@ }
    }
}

impl DeepView for DeliveryError {
    type V = DeliveryErrorView;

    open spec fn deep_view(&self) -> DeliveryErrorView {
        self@
    }
}

impl Clone for DeliveryError {
    fn clone(&self) -> (copy: DeliveryError)
        ensures
            copy@ == self@,
    {
        DeliveryError { kind: self.kind, message: self.message.clone() }
    }
}

impl DeliveryError {
    /// An error of the given kind with the given message.
    pub fn new(kind: ErrorKind, message: &str) -> (error: DeliveryError)
        ensures
            error@ == (DeliveryErrorView { kind, message: message@ }),
    {
        DeliveryError { kind, message: message.to_owned() }
    }

    /// The text to show to the user: the message of the operating system,
    /// unchanged.
    pub fn message(&self) -> (text: String)
        ensures
            text@ == self@.message,
    {
        self.message.clone()
    }
}

/// What a finished delivery reports, as a mathematical value.
pub open spec fn report_view(report: Result<(), DeliveryError>) -> Result<(), DeliveryErrorView> {
    match report {
        Ok(()) => Ok(()),
        Err(error) => Err(error@),
    }
}

} // verus!
