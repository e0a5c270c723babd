//! How an action can fail, and the failure that ends a run.

use vstd::prelude::*;

verus! {

/// The ways in which a step of a run fails.
#[derive(Clone, Copy, Debug, PartialEq, Eq, Structural)]
pub enum ErrorKind {
    /// A process could not be started.
    SpawnError,
    /// A process ended without success.
    ProcessFailure,
    /// A remote could not be added or changed in the checkout.
    RegistryFailure,
    /// A step run in this process returned an error.
    CallbackFailure,
}

/// The failure of one action, as whoever carried it out reports it.
#[derive(Debug)]
pub struct ActionError {
    pub kind: ErrorKind,
    /// What went wrong, in words.
    pub detail: String,
}

/// An `ActionError` as plain text.
pub struct ActionErrorView {
    pub kind: ErrorKind,
    pub detail: Seq<char>,
}

impl View for ActionError {
    type V = ActionErrorView;

    open spec fn view(&self) -> ActionErrorView {
        ActionErrorView { kind: self.kind, detail: self.detail@ }
    }
}

/// The failure that ends a run: what failed, under the label of the action
/// that failed.
#[derive(Debug)]
pub struct MergeError {
    pub kind: ErrorKind,
    pub label: String,
    pub detail: String,
}

/// A `MergeError` as plain text.
pub struct MergeErrorView {
    pub kind: ErrorKind,
    pub label: Seq<char>,
    pub detail: Seq<char>,
}

impl View for MergeError {
    type V = MergeErrorView;

    open spec fn view(&self) -> MergeErrorView {
        MergeErrorView { kind: self.kind, label: self.label@, detail: self.detail@ }
    }
}

impl ActionErrorView {
    /// This failure, under the label of the action that failed.
    pub open spec fn labelled(self, label: Seq<char>) -> MergeErrorView {
        MergeErrorView { kind: self.kind, label, detail: self.detail }
    }
}

impl ActionError {
    /// A failure of the given kind.
    pub fn new(kind: ErrorKind, detail: &str) -> (error: ActionError)
        ensures
            error@ == (ActionErrorView { kind, detail: detail@ }),
    {
        ActionError { kind, detail: detail.to_owned() }
    }

    /// This failure, under the label of the action that failed.
    pub fn labelled(&self, label: &str) -> (error: MergeError)
        ensures
            error@ == self@.labelled(label@),
    {
        MergeError { kind: self.kind, label: label.to_owned(), detail: self.detail.clone() }
    }
}

impl Clone for MergeError {
    fn clone(&self) -> (copy: Self)
        ensures
            copy@ == self@,
    {
        MergeError {
            kind: self.kind,
            label: self.label.clone(),
            detail: self.detail.clone(),
        }
    }
}

impl MergeError {
    /// The failure in one line: the label, the kind and the detail.
    pub fn message(&self) -> (text: String)
        ensures
            text@ == self.label@ + ": "@ + kind_name(self.kind) + ": "@ + self.detail@,
    {
        let mut text = self.label.clone();
        text.append(": ");
        text.append(
            match self.kind {
                ErrorKind::SpawnError => "could not start the process",
                ErrorKind::ProcessFailure => "the process failed",
                ErrorKind::RegistryFailure => "could not set up the remote",
                ErrorKind::CallbackFailure => "the step failed",
            },
        );
        text.append(": ");
        text.append(self.detail.as_str());
        text
    }
}

/// The outcome of an action as plain text.
pub open spec fn outcome_view(outcome: Result<(), ActionError>) -> Result<(), ActionErrorView> {
    match outcome {
        Ok(()) => Ok(()),
        Err(error) => Err(error@),
    }
}

/// The result of a run, or of a step of it, as plain text.
pub open spec fn result_view(result: Result<(), MergeError>) -> Result<(), MergeErrorView> {
    match result {
        Ok(()) => Ok(()),
        Err(error) => Err(error@),
    }
}

/// How a process ended, as whoever ran it saw it.
#[derive(Debug)]
pub enum ProcessEnd {
    /// The process could not be started.
    NotStarted { reason: String },
    /// The process ran to its end.
    Exited { success: bool, status: String },
}

/// A `ProcessEnd` as plain text.
pub enum ProcessEndView {
    NotStarted { reason: Seq<char> },
    Exited { success: bool, status: Seq<char> },
}

impl View for ProcessEnd {
    type V = ProcessEndView;

    open spec fn view(&self) -> ProcessEndView {
        match self {
            ProcessEnd::NotStarted { reason } => ProcessEndView::NotStarted { reason: reason@ },
            ProcessEnd::Exited { success, status } => ProcessEndView::Exited {
                success: *success,
                status: status@,
            },
        }
    }
}

impl ProcessEndView {
    /// An action that runs a process fails where the process cannot be
    /// started and where it ends without success, and succeeds otherwise.
    pub open spec fn outcome(self) -> Result<(), ActionErrorView> {
        match self {
            ProcessEndView::NotStarted { reason } => Err(
                ActionErrorView { kind: ErrorKind::SpawnError, detail: reason },
            ),
            ProcessEndView::Exited { success, status } => if success {
                Ok(())
            } else {
                Err(ActionErrorView { kind: ErrorKind::ProcessFailure, detail: status })
            },
        }
    }
}

/// An action that runs in this process fails where it returns an error, and
/// succeeds otherwise.
pub open spec fn callback_outcome_of(returned: Result<(), String>) -> Result<(), ActionErrorView> {
    match returned {
        Ok(()) => Ok(()),
        Err(detail) => Err(ActionErrorView { kind: ErrorKind::CallbackFailure, detail: detail@ }),
    }
}

/// The outcome of an action that ran a process which ended as `end` says.
pub fn process_outcome(end: ProcessEnd) -> (outcome: Result<(), ActionError>)
    ensures
        outcome_view(outcome) == end@.outcome(),
{
    match end {
        ProcessEnd::NotStarted { reason } => Err(
            ActionError { kind: ErrorKind::SpawnError, detail: reason },
        ),
        ProcessEnd::Exited { success, status } => {
            if success {
                Ok(())
            } else {
                Err(ActionError { kind: ErrorKind::ProcessFailure, detail: status })
            }
        },
    }
}

/// The outcome of an action that ran in this process and returned
/// `returned`.
pub fn callback_outcome(returned: Result<(), String>) -> (outcome: Result<(), ActionError>)
    ensures
        outcome_view(outcome) == callback_outcome_of(returned),
{
    match returned {
        Ok(()) => Ok(()),
        Err(detail) => Err(ActionError { kind: ErrorKind::CallbackFailure, detail }),
    }
}

/// What a kind of failure is called in a message.
pub open spec fn kind_name(kind: ErrorKind) -> Seq<char> {
    match kind {
        ErrorKind::SpawnError => "could not start the process"@,
        ErrorKind::ProcessFailure => "the process failed"@,
        ErrorKind::RegistryFailure => "could not set up the remote"@,
        ErrorKind::CallbackFailure => "the step failed"@,
    }
}

} // verus!
