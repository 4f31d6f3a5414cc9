//! The supervisor: the owner of the registry, which restarts groups of
//! workers one restart at a time.

use crate::error::SupervisionError;
use crate::registry::ProcessRegistry;
use crate::restart::{
    begin, start_from, step, stop_from, Restart, RestartAction, RestartEvent, Stage, Supervision,
};
use crate::worker::WorkerHandle;
use vstd::prelude::*;
use vstd::string::*;

verus! {

/// The names as sequences of characters.
pub open spec fn names_of(names: Seq<String>) -> Seq<Seq<char>> {
    names.map_values(|name: String| name@)
}

/// What the restart under way is waiting for. While a worker is being
/// stopped its handle is held here, out of the registry.
enum Waiting {
    Kill(WorkerHandle),
    Exit(WorkerHandle),
    Mutation,
    Launch,
}

impl Waiting {
    spec fn stage(self) -> Stage {
        match self {
            Waiting::Kill(handle) => Stage::Killing(handle@),
            Waiting::Exit(handle) => Stage::Exiting(handle@),
            Waiting::Mutation => Stage::Mutating,
            Waiting::Launch => Stage::Launching,
        }
    }
}

/// The restart that is under way.
struct ActiveRestart {
    names: Vec<String>,
    cursor: usize,
    waiting: Waiting,
    raised: bool,
    failed: Option<usize>,
}

impl ActiveRestart {
    spec fn model(self) -> Restart {
        Restart {
            names: names_of(self.names@),
            cursor: self.cursor as int,
            stage: self.waiting.stage(),
            raised: self.raised,
            failed: match self.failed {
                Some(at) => Some(at as int),
                None => None,
            },
        }
    }

    #[verifier::type_invariant]
    spec fn well_formed(self) -> bool {
        self.model().well_formed()
    }
}

/// The owner of the registry of running workers.
///
/// A restart is asked for with [`ProcessSupervisor::begin_restart`] and
/// driven with [`ProcessSupervisor::handle_event`]; each of the two returns
/// what the caller has to do next. From the first worker taken out of the
/// registry to the last replacement put in, the restart holds the registry:
/// a second request gets `Blocked` and changes nothing.
pub struct ProcessSupervisor {
    registry: ProcessRegistry,
    active: Option<ActiveRestart>,
}

impl View for ProcessSupervisor {
    type V = Supervision;

    closed spec fn view(&self) -> Supervision {
        Supervision {
            registry: self.registry@,
            active: match self.active {
                Some(restart) => Some(restart.model()),
                None => None,
            },
        }
    }
}

impl ProcessSupervisor {
    /// A supervisor of the workers in `registry`, with no restart under way.
    pub fn new(registry: ProcessRegistry) -> (supervisor: ProcessSupervisor)
        ensures
            supervisor@ == Supervision::idle(registry@),
    {
        ProcessSupervisor { registry, active: None }
    }

    /// The registry as it stands.
    pub fn registry(&self) -> (registry: &ProcessRegistry)
        ensures
            registry@ == self@.registry,
    {
        &self.registry
    }

    /// Whether a restart is under way.
    pub fn is_restarting(&self) -> (busy: bool)
        ensures
            busy == self@.active is Some,
            self@.well_formed(),
    {
        match &self.active {
            Some(restart) => {
                proof {
                    use_type_invariant(restart);
                }
                true
            },
            None => false,
        }
    }

    /// Gives the registry back, ending the supervision. A restart that is
    /// under way is dropped with it.
    pub fn into_registry(self) -> (registry: ProcessRegistry)
        ensures
            registry@ == self@.registry,
    {
        self.registry
    }

    /// Asks for a restart of the workers `names`, in that order.
    ///
    /// While another restart is under way the answer is `Blocked` and nothing
    /// changes. Otherwise the restart begins: the first named worker is taken
    /// out of the registry and the answer asks for it to be killed. If
    /// nothing is registered under the first name the restart ends at once
    /// with `UnknownWorker`, and no worker was touched.
    pub fn begin_restart(&mut self, names: Vec<String>) -> (action: RestartAction)
        ensures
            (final(self)@, action@) == begin(old(self)@, names_of(names@)),
            final(self)@.well_formed(),
    {
        if self.is_restarting() {
            RestartAction::Blocked
        } else {
            self.stop_next(names, 0)
        }
    }

    /// Takes note of what came of the last action and says what to do next.
    ///
    /// An event that does not answer the action that is outstanding is
    /// `Ignored`, and so is any event while no restart is under way.
    pub fn handle_event(&mut self, event: RestartEvent) -> (action: RestartAction)
        ensures
            (final(self)@, action@) == step(old(self)@, event),
            final(self)@.well_formed(),
    {
        match self.active.take() {
            None => RestartAction::Ignored,
            Some(restart) => {
                proof {
                    use_type_invariant(&restart);
                }
                let ActiveRestart { names, cursor, waiting, raised, failed } = restart;
                assert(names_of(names@).len() == names@.len());
                assert(waiting is Mutation || cursor < names.len());
                match (waiting, event) {
                    (Waiting::Kill(handle), RestartEvent::Killed) => {
                        let name = names[cursor].clone();
                        let id = handle.id();
                        self.active = Some(
                            ActiveRestart {
                                names,
                                cursor,
                                waiting: Waiting::Exit(handle),
                                raised,
                                failed,
                            },
                        );
                        RestartAction::Wait { name, handle: id }
                    },
                    (Waiting::Kill(_), RestartEvent::KillFailed) => {
                        let name = names[cursor].clone();
                        RestartAction::Finished(Err(SupervisionError::ProcessControl(name)))
                    },
                    (Waiting::Exit(_), RestartEvent::Exited) => self.stop_next(names, cursor + 1),
                    (Waiting::Exit(_), RestartEvent::WaitFailed) => {
                        let name = names[cursor].clone();
                        RestartAction::Finished(Err(SupervisionError::ProcessControl(name)))
                    },
                    (Waiting::Mutation, RestartEvent::Mutated) => self.start_next(
                        names,
                        0,
                        false,
                        None,
                    ),
                    (Waiting::Mutation, RestartEvent::MutationRaised) => self.start_next(
                        names,
                        0,
                        true,
                        None,
                    ),
                    (Waiting::Launch, RestartEvent::Launched(handle)) => {
                        let name = names[cursor].clone();
                        let _ = self.registry.insert(name, handle);
                        self.start_next(names, cursor + 1, raised, failed)
                    },
                    (Waiting::Launch, RestartEvent::LaunchFailed) => {
                        let first = if failed.is_some() {
                            failed
                        } else {
                            Some(cursor)
                        };
                        self.start_next(names, cursor + 1, raised, first)
                    },
                    (waiting, _) => {
                        self.active = Some(ActiveRestart { names, cursor, waiting, raised, failed });
                        RestartAction::Ignored
                    },
                }
            },
        }
    }

    /// The stop phase from position `cursor` on.
    fn stop_next(&mut self, names: Vec<String>, cursor: usize) -> (action: RestartAction)
        requires
            old(self).active is None,
            cursor <= names@.len(),
        ensures
            (final(self)@, action@) == stop_from(
                old(self).registry@,
                names_of(names@),
                cursor as int,
            ),
            final(self)@.well_formed(),
    {
        if cursor >= names.len() {
            self.active = Some(
                ActiveRestart {
                    names,
                    cursor: 0,
                    waiting: Waiting::Mutation,
                    raised: false,
                    failed: None,
                },
            );
            RestartAction::Mutate
        } else {
            match self.registry.remove(names[cursor].as_str()) {
                Ok(handle) => {
                    let name = names[cursor].clone();
                    let id = handle.id();
                    self.active = Some(
                        ActiveRestart {
                            names,
                            cursor,
                            waiting: Waiting::Kill(handle),
                            raised: false,
                            failed: None,
                        },
                    );
                    RestartAction::Kill { name, handle: id }
                },
                Err(unknown) => RestartAction::Finished(Err(unknown)),
            }
        }
    }

    /// The start phase from position `cursor` on.
    fn start_next(
        &mut self,
        names: Vec<String>,
        cursor: usize,
        raised: bool,
        failed: Option<usize>,
    ) -> (action: RestartAction)
        requires
            old(self).active is None,
            cursor <= names@.len(),
            failed matches Some(at) ==> at < cursor,
        ensures
            (final(self)@, action@) == start_from(
                old(self).registry@,
                names_of(names@),
                cursor as int,
                raised,
                match failed {
                    Some(at) => Some(at as int),
                    None => None,
                },
            ),
            final(self)@.well_formed(),
    {
        if cursor >= names.len() {
            match failed {
                Some(at) => {
                    let name = names[at].clone();
                    RestartAction::Finished(Err(SupervisionError::Launch(name)))
                },
                None => if raised {
                    RestartAction::Finished(Err(SupervisionError::MutationFailed))
                } else {
                    RestartAction::Finished(Ok(()))
                },
            }
        } else {
            let name = names[cursor].clone();
            self.active = Some(
                ActiveRestart { names, cursor, waiting: Waiting::Launch, raised, failed },
            );
            RestartAction::Launch { name }
        }
    }
}

} // verus!
