//! The restart of a group of workers, as a state machine.
//!
//! A restart stops the named workers one after the other, lets the caller
//! apply a change while they are down, and then starts a replacement for each
//! of them. The machine decides; the caller acts. Each transition yields the
//! next thing the caller has to do, and the caller answers with what came of
//! it. This module states the machine over mathematical values; the
//! supervisor runs it on the registry it owns.

use crate::error::{SupervisionError, SupervisionErrorView};
use crate::worker::WorkerHandle;
use vstd::prelude::*;
use vstd::string::*;

verus! {

/// What came of the last thing the supervisor asked for.
#[derive(Debug, PartialEq, Eq)]
pub enum RestartEvent {
    /// The worker was told to terminate.
    Killed,
    /// The worker could not be told to terminate.
    KillFailed,
    /// The worker's process has exited.
    Exited,
    /// Waiting for the worker's process to exit failed.
    WaitFailed,
    /// The change was applied.
    Mutated,
    /// The change broke off before it was done.
    MutationRaised,
    /// The replacement worker is running, behind this handle.
    Launched(WorkerHandle),
    /// The replacement worker could not be started.
    LaunchFailed,
}

/// What the supervisor asks its caller to do next.
#[derive(Debug, PartialEq, Eq)]
pub enum RestartAction {
    /// Tell the process behind `handle`, registered as `name`, to terminate.
    Kill { name: String, handle: u64 },
    /// Wait until the process behind `handle` has exited.
    Wait { name: String, handle: u64 },
    /// Apply the change for which the workers were stopped.
    Mutate,
    /// Start a fresh worker for `name`.
    Launch { name: String },
    /// The restart is over and the registry is free again.
    Finished(Result<(), SupervisionError>),
    /// Another restart is under way; nothing was done.
    Blocked,
    /// The event answers nothing that was asked for; nothing was done.
    Ignored,
}

/// A [`RestartAction`] with its names as sequences of characters.
pub enum RestartActionView {
    Kill { name: Seq<char>, handle: u64 },
    Wait { name: Seq<char>, handle: u64 },
    Mutate,
    Launch { name: Seq<char> },
    Finished(Result<(), SupervisionErrorView>),
    Blocked,
    Ignored,
}

impl View for RestartAction {
    type V = RestartActionView;

    open spec fn view(&self) -> RestartActionView {
        match self {
            RestartAction::Kill { name, handle } => RestartActionView::Kill {
                name: name@,
                handle: *handle,
            },
            RestartAction::Wait { name, handle } => RestartActionView::Wait {
                name: name@,
                handle: *handle,
            },
            RestartAction::Mutate => RestartActionView::Mutate,
            RestartAction::Launch { name } => RestartActionView::Launch { name: name@ },
            RestartAction::Finished(Ok(_)) => RestartActionView::Finished(Ok(())),
            RestartAction::Finished(Err(e)) => RestartActionView::Finished(Err(e@)),
            RestartAction::Blocked => RestartActionView::Blocked,
            RestartAction::Ignored => RestartActionView::Ignored,
        }
    }
}

/// Where a restart stands: what the supervisor is waiting for.
pub enum Stage {
    /// The worker at the cursor was taken out of the registry; its process,
    /// with this identity, is being told to terminate.
    Killing(u64),
    /// The process with this identity was told to terminate and has yet to
    /// exit.
    Exiting(u64),
    /// All named workers are down; the change is being applied.
    Mutating,
    /// The replacement for the worker at the cursor is being started.
    Launching,
}

/// A restart that is under way.
pub struct Restart {
    /// The names of the workers to restart, in the order asked for.
    pub names: Seq<Seq<char>>,
    /// The position in `names` of the worker being stopped or started.
    pub cursor: int,
    /// What the supervisor is waiting for.
    pub stage: Stage,
    /// Whether the change broke off.
    pub raised: bool,
    /// The position in `names` of the first worker whose replacement could
    /// not be started.
    pub failed: Option<int>,
}

/// The state of a supervisor: the registry, and the one restart that is
/// under way, if any.
pub struct Supervision {
    /// The identity of each registered worker's process, by worker name.
    pub registry: Map<Seq<char>, u64>,
    /// The restart that holds the registry, if one does.
    pub active: Option<Restart>,
}

impl Restart {
    /// The cursor points at a name wherever the stage works on one, and a
    /// recorded failure lies before the cursor.
    pub open spec fn well_formed(self) -> bool {
        &&& match self.stage {
            Stage::Mutating => self.cursor == 0,
            _ => 0 <= self.cursor < self.names.len(),
        }
        &&& match self.failed {
            Some(at) => self.stage is Launching && 0 <= at < self.cursor,
            None => true,
        }
        &&& self.raised ==> self.stage is Launching
    }
}

impl Supervision {
    /// The restart under way, if any, is well formed.
    pub open spec fn well_formed(self) -> bool {
        match self.active {
            Some(restart) => restart.well_formed(),
            None => true,
        }
    }

    /// The state in which no restart is under way.
    pub open spec fn idle(registry: Map<Seq<char>, u64>) -> Supervision {
        Supervision { registry, active: None }
    }
}

/// How a restart that has started its last worker ends.
pub open spec fn verdict(names: Seq<Seq<char>>, raised: bool, failed: Option<int>) -> Result<
    (),
    SupervisionErrorView,
> {
    match failed {
        Some(at) => Err(SupervisionErrorView::Launch(names[at])),
        None => if raised {
            Err(SupervisionErrorView::MutationFailed)
        } else {
            Ok(())
        },
    }
}

/// The stop phase from position `cursor` on: take the next worker out of the
/// registry and have it killed; once none is left, have the change applied.
/// A name under which nothing is registered ends the restart.
pub open spec fn stop_from(registry: Map<Seq<char>, u64>, names: Seq<Seq<char>>, cursor: int) -> (
    Supervision,
    RestartActionView,
) {
    if cursor >= names.len() {
        (
            Supervision {
                registry,
                active: Some(
                    Restart { names, cursor: 0, stage: Stage::Mutating, raised: false, failed: None },
                ),
            },
            RestartActionView::Mutate,
        )
    } else if registry.contains_key(names[cursor]) {
        (
            Supervision {
                registry: registry.remove(names[cursor]),
                active: Some(
                    Restart {
                        names,
                        cursor,
                        stage: Stage::Killing(registry[names[cursor]]),
                        raised: false,
                        failed: None,
                    },
                ),
            },
            RestartActionView::Kill { name: names[cursor], handle: registry[names[cursor]] },
        )
    } else {
        (
            Supervision::idle(registry),
            RestartActionView::Finished(Err(SupervisionErrorView::UnknownWorker(names[cursor]))),
        )
    }
}

/// The start phase from position `cursor` on: have the next replacement
/// started; once none is left, the restart is over.
pub open spec fn start_from(
    registry: Map<Seq<char>, u64>,
    names: Seq<Seq<char>>,
    cursor: int,
    raised: bool,
    failed: Option<int>,
) -> (Supervision, RestartActionView) {
    if cursor >= names.len() {
        (Supervision::idle(registry), RestartActionView::Finished(verdict(names, raised, failed)))
    } else {
        (
            Supervision {
                registry,
                active: Some(Restart { names, cursor, stage: Stage::Launching, raised, failed }),
            },
            RestartActionView::Launch { name: names[cursor] },
        )
    }
}

/// A request to restart the workers `names`. While another restart is under
/// way the request is turned away and nothing changes.
pub open spec fn begin(s: Supervision, names: Seq<Seq<char>>) -> (Supervision, RestartActionView) {
    if s.active is Some {
        (s, RestartActionView::Blocked)
    } else {
        stop_from(s.registry, names, 0)
    }
}

/// The restart under way takes note of `event`. An event that does not
/// answer what the restart is waiting for changes nothing.
pub open spec fn step(s: Supervision, event: RestartEvent) -> (Supervision, RestartActionView) {
    match s.active {
        None => (s, RestartActionView::Ignored),
        Some(r) => {
            let name = r.names[r.cursor];
            match (r.stage, event) {
                (Stage::Killing(id), RestartEvent::Killed) => (
                    Supervision {
                        registry: s.registry,
                        active: Some(Restart { stage: Stage::Exiting(id), ..r }),
                    },
                    RestartActionView::Wait { name, handle: id },
                ),
                (Stage::Killing(_), RestartEvent::KillFailed) => (
                    Supervision::idle(s.registry),
                    RestartActionView::Finished(Err(SupervisionErrorView::ProcessControl(name))),
                ),
                (Stage::Exiting(_), RestartEvent::Exited) => stop_from(
                    s.registry,
                    r.names,
                    r.cursor + 1,
                ),
                (Stage::Exiting(_), RestartEvent::WaitFailed) => (
                    Supervision::idle(s.registry),
                    RestartActionView::Finished(Err(SupervisionErrorView::ProcessControl(name))),
                ),
                (Stage::Mutating, RestartEvent::Mutated) => start_from(
                    s.registry,
                    r.names,
                    0,
                    false,
                    None,
                ),
                (Stage::Mutating, RestartEvent::MutationRaised) => start_from(
                    s.registry,
                    r.names,
                    0,
                    true,
                    None,
                ),
                (Stage::Launching, RestartEvent::Launched(handle)) => start_from(
                    s.registry.insert(name, handle@),
                    r.names,
                    r.cursor + 1,
                    r.raised,
                    r.failed,
                ),
                (Stage::Launching, RestartEvent::LaunchFailed) => start_from(
                    s.registry,
                    r.names,
                    r.cursor + 1,
                    r.raised,
                    if r.failed is Some {
                        r.failed
                    } else {
                        Some(r.cursor)
                    },
                ),
                _ => (s, RestartActionView::Ignored),
            }
        },
    }
}

} // verus!
