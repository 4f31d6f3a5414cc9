//! The failures that the registry and the supervisor report.

use vstd::prelude::*;
use vstd::string::*;

verus! {

/// Why a registry operation or a restart did not go through.
#[derive(Debug, PartialEq, Eq)]
pub enum SupervisionError {
    /// No worker is registered under the name.
    UnknownWorker(String),
    /// The named worker could not be terminated, or did not report its exit.
    ProcessControl(String),
    /// The replacement for the named worker could not be started; the name is
    /// left without an entry in the registry.
    Launch(String),
    /// The change that was to be applied while the workers were down broke
    /// off; the workers were started again all the same.
    MutationFailed,
}

/// What a [`SupervisionError`] says, with the worker's name as a sequence of
/// characters.
pub enum SupervisionErrorView {
    UnknownWorker(Seq<char>),
    ProcessControl(Seq<char>),
    Launch(Seq<char>),
    MutationFailed,
}

impl View for SupervisionError {
    type V = SupervisionErrorView;

    open spec fn view(&self) -> SupervisionErrorView {
        match self {
            SupervisionError::UnknownWorker(name) => SupervisionErrorView::UnknownWorker(name@),
            SupervisionError::ProcessControl(name) => SupervisionErrorView::ProcessControl(name@),
            SupervisionError::Launch(name) => SupervisionErrorView::Launch(name@),
            SupervisionError::MutationFailed => SupervisionErrorView::MutationFailed,
        }
    }
}

/// The text that reports a failure.
pub open spec fn description(error: SupervisionErrorView) -> Seq<char> {
    match error {
        SupervisionErrorView::UnknownWorker(name) => "unknown worker: "@ + name,
        SupervisionErrorView::ProcessControl(name) => "failed to stop worker: "@ + name,
        SupervisionErrorView::Launch(name) => "failed to start worker: "@ + name,
        SupervisionErrorView::MutationFailed => "the change was not applied"@,
    }
}

impl SupervisionError {
    /// The text that reports this failure.
    pub fn describe(&self) -> (text: String)
        ensures
            text@ == description(self@),
    {
        match self {
            SupervisionError::UnknownWorker(name) => String::from_str("unknown worker: ").concat(
                name.as_str(),
            ),
            SupervisionError::ProcessControl(name) => String::from_str(
                "failed to stop worker: ",
            ).concat(name.as_str()),
            SupervisionError::Launch(name) => String::from_str("failed to start worker: ").concat(
                name.as_str(),
            ),
            SupervisionError::MutationFailed => String::from_str("the change was not applied"),
        }
    }

    /// The name of the worker that the failure is about, if it is about one.
    pub fn worker(&self) -> (name: Option<&str>)
        ensures
            match self@ {
                SupervisionErrorView::UnknownWorker(n) => name matches Some(s) && s@ == n,
                SupervisionErrorView::ProcessControl(n) => name matches Some(s) && s@ == n,
                SupervisionErrorView::Launch(n) => name matches Some(s) && s@ == n,
                SupervisionErrorView::MutationFailed => name is None,
            },
    {
        match self {
            SupervisionError::UnknownWorker(name) => Some(name.as_str()),
            SupervisionError::ProcessControl(name) => Some(name.as_str()),
            SupervisionError::Launch(name) => Some(name.as_str()),
            SupervisionError::MutationFailed => None,
        }
    }
}

} // verus!
