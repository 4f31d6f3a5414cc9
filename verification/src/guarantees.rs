//! What holds of every course that restarts can take.
//!
//! The statements here speak of the state machine of [`crate::restart`]
//! alone. A supervisor's transitions are those of the machine, so they hold
//! of every supervisor, whatever its caller does and reports.

use crate::producer::Binding;
use crate::restart::{begin, step, Restart, RestartActionView, RestartEvent, Stage, Supervision};
use vstd::prelude::*;

verus! {

/// What can reach a supervisor: a request for a restart, or the report of
/// what came of an action.
pub enum Input {
    Begin(Seq<Seq<char>>),
    Event(RestartEvent),
}

/// The transition that `input` causes.
pub open spec fn apply(s: Supervision, input: Input) -> (Supervision, RestartActionView) {
    match input {
        Input::Begin(names) => begin(s, names),
        Input::Event(event) => step(s, event),
    }
}

/// The state after all of `inputs`, taken in order.
pub open spec fn run(s: Supervision, inputs: Seq<Input>) -> Supervision
    decreases inputs.len(),
{
    if inputs.len() == 0 {
        s
    } else {
        apply(run(s, inputs.drop_last()), inputs.last()).0
    }
}

/// The action with which the supervisor answers the input at position `at`.
pub open spec fn action_at(s: Supervision, inputs: Seq<Input>, at: int) -> RestartActionView {
    apply(run(s, inputs.take(at)), inputs[at]).1
}

/// Whether `name` stands in `names` at a position from `lo` up to, and not
/// including, `hi`.
pub open spec fn named_in(names: Seq<Seq<char>>, lo: int, hi: int, name: Seq<char>) -> bool {
    exists|i: int| lo <= i < hi && 0 <= i < names.len() && #[trigger] names[i] == name
}

/// Whether the action ends a restart in a way that leaves a worker out of
/// the registry.
pub open spec fn loses_worker(action: RestartActionView) -> bool {
    action matches RestartActionView::Finished(Err(e)) && !(e is MutationFailed)
}

/// Whether the action asks for something to be done to the worker `name`.
pub open spec fn concerns(action: RestartActionView, name: Seq<char>) -> bool {
    match action {
        RestartActionView::Kill { name: n, .. } => n == name,
        RestartActionView::Wait { name: n, .. } => n == name,
        RestartActionView::Launch { name: n } => n == name,
        _ => false,
    }
}

/// Every transition keeps the state well formed.
pub proof fn lemma_well_formed_kept(s: Supervision, input: Input)
    requires
        s.well_formed(),
    ensures
        apply(s, input).0.well_formed(),
{
}

/// One restart at a time: while a restart is under way, a request for
/// another is turned away without any effect, and whatever arrives, the
/// restart under way stays the one it is until it is over.
pub proof fn lemma_one_restart_at_a_time(s: Supervision, input: Input)
    requires
        s.active is Some,
    ensures
        input matches Input::Begin(names) ==> apply(s, input) == (s, RestartActionView::Blocked),
        apply(s, input).0.active matches Some(after) ==> after.names == s.active->0.names,
{
}

/// The registry is set free whenever a restart ends, however it ends: the
/// action `Finished` leaves no restart under way, a restart that was under
/// way is over only with that action, and no other action ends one.
pub proof fn lemma_finished_frees_registry(s: Supervision, input: Input)
    requires
        s.well_formed(),
    ensures
        apply(s, input).1 is Finished ==> apply(s, input).0.active is None,
        s.active is Some && apply(s, input).0.active is None ==> apply(s, input).1 is Finished,
{
}

/// A restart does not touch a worker it was not asked to restart: the entry
/// of such a worker stays as it is, and no action is about it.
pub proof fn lemma_step_spares_others(s: Supervision, input: Input, other: Seq<char>)
    requires
        s.well_formed(),
        s.active matches Some(r) ==> !r.names.contains(other),
        input matches Input::Begin(names) ==> !names.contains(other),
    ensures
        apply(s, input).0.registry.get(other) == s.registry.get(other),
        !concerns(apply(s, input).1, other),
        apply(s, input).0.active matches Some(r) ==> !r.names.contains(other),
{
    match s.active {
        Some(r) => {
            if !(r.stage is Mutating) {
                assert(r.names.contains(r.names[r.cursor]));
            }
            match input {
                Input::Event(RestartEvent::Exited) => {
                    if r.cursor + 1 < r.names.len() {
                        assert(r.names.contains(r.names[r.cursor + 1]));
                    }
                },
                Input::Event(RestartEvent::Mutated) | Input::Event(RestartEvent::MutationRaised) => {
                    if 0 < r.names.len() {
                        assert(r.names.contains(r.names[0]));
                    }
                },
                Input::Event(RestartEvent::Launched(_)) | Input::Event(
                    RestartEvent::LaunchFailed,
                ) => {
                    if r.cursor + 1 < r.names.len() {
                        assert(r.names.contains(r.names[r.cursor + 1]));
                    }
                },
                _ => {},
            }
        },
        None => {
            match input {
                Input::Begin(names) => {
                    if 0 < names.len() {
                        assert(names.contains(names[0]));
                    }
                },
                _ => {},
            }
        },
    }
}

/// Over any course of requests and reports, a worker that no request names
/// keeps its entry in the registry, with the same handle, from the first
/// moment to the last, and no action is ever about it.
pub proof fn lemma_unnamed_worker_untouched(s: Supervision, inputs: Seq<Input>, other: Seq<char>)
    requires
        s.well_formed(),
        s.active matches Some(r) ==> !r.names.contains(other),
        forall|i: int|
            0 <= i < inputs.len() ==> (#[trigger] inputs[i] matches Input::Begin(names)
                ==> !names.contains(other)),
    ensures
        run(s, inputs).registry.get(other) == s.registry.get(other),
        run(s, inputs).well_formed(),
        run(s, inputs).active matches Some(r) ==> !r.names.contains(other),
        forall|i: int| 0 <= i < inputs.len() ==> !concerns(#[trigger] action_at(s, inputs, i), other),
    decreases inputs.len(),
{
    if inputs.len() > 0 {
        let before = inputs.drop_last();
        assert forall|i: int| 0 <= i < before.len() implies (#[trigger] before[i] matches Input::Begin(
            names,
        ) ==> !names.contains(other)) by {
            assert(before[i] == inputs[i]);
        }
        lemma_unnamed_worker_untouched(s, before, other);
        lemma_step_spares_others(run(s, before), inputs.last(), other);
        assert forall|i: int| 0 <= i < inputs.len() implies !concerns(
            #[trigger] action_at(s, inputs, i),
            other,
        ) by {
            if i < before.len() {
                assert(before.take(i) =~= inputs.take(i));
                assert(action_at(s, before, i) == action_at(s, inputs, i));
            } else {
                assert(inputs.take(i) =~= before);
            }
        }
    }
}

/// A change that breaks off does not keep the workers down. The supervisor
/// goes on to the start phase as it does after a change that went through:
/// the registry is the same, the same worker is started first, and only the
/// note that the change broke off sets the two states apart. Where no
/// worker was named the restart is over at once, and the note is its result.
pub proof fn lemma_raised_mutation_still_starts(s: Supervision)
    requires
        s.active matches Some(r) && r.stage is Mutating,
    ensures
        ({
            let done = step(s, RestartEvent::Mutated);
            let raised = step(s, RestartEvent::MutationRaised);
            let names = s.active->0.names;
            &&& raised.0.registry == done.0.registry
            &&& names.len() > 0 ==> {
                &&& raised.1 == done.1
                &&& raised.1 == RestartActionView::Launch { name: names[0] }
                &&& done.0.active matches Some(d)
                &&& raised.0.active == Some(Restart { raised: true, ..d })
            }
            &&& names.len() == 0 ==> {
                &&& raised.0 == done.0
                &&& done.1 == RestartActionView::Finished(Ok(()))
                &&& raised.1 == RestartActionView::Finished(
                    Err(crate::error::SupervisionErrorView::MutationFailed),
                )
            }
        }),
{
}

/// The first `upto` names are all different.
pub open spec fn no_repeats(names: Seq<Seq<char>>, upto: int) -> bool {
    forall|i: int, j: int|
        0 <= i < j < upto && j < names.len() ==> #[trigger] names[i] != #[trigger] names[j]
}

/// The registry holds the configured workers but for those named at the
/// positions from `lo` up to `hi`.
pub open spec fn holds_all_but(
    registry: Map<Seq<char>, u64>,
    configured: Set<Seq<char>>,
    names: Seq<Seq<char>>,
    lo: int,
    hi: int,
) -> bool {
    forall|n: Seq<char>|
        #[trigger] registry.contains_key(n) <==> configured.contains(n) && !named_in(
            names,
            lo,
            hi,
            n,
        )
}

/// The state is one that restarts of configured workers pass through as long
/// as none of them loses a worker: with no restart under way the registry
/// holds exactly the configured workers; during the stop phase it lacks
/// exactly those stopped so far; during the start phase it lacks exactly
/// those yet to be started.
pub open spec fn on_course(s: Supervision, configured: Set<Seq<char>>) -> bool {
    match s.active {
        None => s.registry.dom() == configured,
        Some(r) => {
            &&& r.well_formed()
            &&& match r.stage {
                Stage::Killing(_) | Stage::Exiting(_) => {
                    &&& no_repeats(r.names, r.cursor + 1)
                    &&& forall|i: int| 0 <= i <= r.cursor ==> configured.contains(#[trigger] r.names[i])
                    &&& holds_all_but(s.registry, configured, r.names, 0, r.cursor + 1)
                },
                Stage::Mutating => {
                    &&& no_repeats(r.names, r.names.len() as int)
                    &&& forall|i: int|
                        0 <= i < r.names.len() ==> configured.contains(#[trigger] r.names[i])
                    &&& holds_all_but(s.registry, configured, r.names, 0, r.names.len() as int)
                },
                Stage::Launching => r.failed is None ==> {
                    &&& no_repeats(r.names, r.names.len() as int)
                    &&& forall|i: int|
                        0 <= i < r.names.len() ==> configured.contains(#[trigger] r.names[i])
                    &&& holds_all_but(
                        s.registry,
                        configured,
                        r.names,
                        r.cursor,
                        r.names.len() as int,
                    )
                },
            }
        },
    }
}

/// A transition that does not lose a worker keeps the state on course.
pub proof fn lemma_step_stays_on_course(s: Supervision, input: Input, configured: Set<Seq<char>>)
    requires
        on_course(s, configured),
        !loses_worker(apply(s, input).1),
    ensures
        on_course(apply(s, input).0, configured),
{
    let after = apply(s, input).0;
    match s.active {
        None => {
            match input {
                Input::Begin(names) => {
                    if names.len() == 0 {
                        assert(holds_all_but(s.registry, configured, names, 0, 0));
                    } else {
                        assert(s.registry.contains_key(names[0]));
                        assert forall|n: Seq<char>| #[trigger]
                            after.registry.contains_key(n) <==> configured.contains(n) && !named_in(
                                names,
                                0,
                                1,
                                n,
                            ) by {
                            assert(s.registry.contains_key(n) <==> configured.contains(n));
                            if n == names[0] {
                                assert(named_in(names, 0, 1, n));
                            }
                        }
                    }
                },
                Input::Event(_) => {},
            }
        },
        Some(r) => {
            let names = r.names;
            let c = r.cursor;
            match (r.stage, input) {
                (Stage::Exiting(_), Input::Event(RestartEvent::Exited)) => {
                    if c + 1 < names.len() {
                        let next = names[c + 1];
                        assert(s.registry.contains_key(next));
                        assert(!named_in(names, 0, c + 1, next));
                        assert forall|i: int, j: int|
                            0 <= i < j < c + 2 && j < names.len() implies #[trigger] names[i]
                            != #[trigger] names[j] by {
                            if j == c + 1 && names[i] == names[j] {
                                assert(named_in(names, 0, c + 1, next));
                            }
                        }
                        assert forall|n: Seq<char>| #[trigger]
                            after.registry.contains_key(n) <==> configured.contains(n) && !named_in(
                                names,
                                0,
                                c + 2,
                                n,
                            ) by {
                            assert(s.registry.contains_key(n) <==> configured.contains(n)
                                && !named_in(names, 0, c + 1, n));
                            if n == next {
                                assert(named_in(names, 0, c + 2, n));
                            }
                            if named_in(names, 0, c + 2, n) && n != next {
                                let i = choose|i: int|
                                    0 <= i < c + 2 && 0 <= i < names.len() && #[trigger] names[i]
                                        == n;
                                assert(named_in(names, 0, c + 1, n));
                            }
                            if named_in(names, 0, c + 1, n) {
                                let i = choose|i: int|
                                    0 <= i < c + 1 && 0 <= i < names.len() && #[trigger] names[i]
                                        == n;
                                assert(named_in(names, 0, c + 2, n));
                            }
                        }
                    }
                },
                (Stage::Mutating, Input::Event(RestartEvent::Mutated))
                | (Stage::Mutating, Input::Event(RestartEvent::MutationRaised)) => {
                    if names.len() == 0 {
                        assert(after.registry.dom() =~= configured);
                    }
                },
                (Stage::Launching, Input::Event(RestartEvent::Launched(handle))) => {
                    if r.failed is None {
                        let this = names[c];
                        assert forall|n: Seq<char>| #[trigger]
                            after.registry.contains_key(n) <==> configured.contains(n) && !named_in(
                                names,
                                c + 1,
                                names.len() as int,
                                n,
                            ) by {
                            assert(s.registry.contains_key(n) <==> configured.contains(n)
                                && !named_in(names, c, names.len() as int, n));
                            if n == this {
                                if named_in(names, c + 1, names.len() as int, n) {
                                    let j = choose|j: int|
                                        c + 1 <= j < names.len() && 0 <= j < names.len()
                                            && #[trigger] names[j] == n;
                                    assert(names[c] != names[j]);
                                }
                            } else {
                                if named_in(names, c, names.len() as int, n) {
                                    let j = choose|j: int|
                                        c <= j < names.len() && 0 <= j < names.len()
                                            && #[trigger] names[j] == n;
                                    assert(named_in(names, c + 1, names.len() as int, n));
                                }
                                if named_in(names, c + 1, names.len() as int, n) {
                                    let j = choose|j: int|
                                        c + 1 <= j < names.len() && 0 <= j < names.len()
                                            && #[trigger] names[j] == n;
                                    assert(named_in(names, c, names.len() as int, n));
                                }
                            }
                        }
                        if c + 1 >= names.len() {
                            assert(after.registry.dom() =~= configured);
                        }
                    }
                },
                _ => {},
            }
        },
    }
}

/// Whatever is asked for and reported, in whatever order: as long as no
/// restart ends with a worker lost, the registry holds exactly the workers
/// it held at the outset at every moment at which no restart is under way.
/// A restart whose change broke off counts among those that lose no worker.
pub proof fn lemma_registry_restored(s: Supervision, inputs: Seq<Input>)
    requires
        s.active is None,
        forall|i: int| 0 <= i < inputs.len() ==> !loses_worker(#[trigger] action_at(s, inputs, i)),
    ensures
        on_course(run(s, inputs), s.registry.dom()),
        run(s, inputs).active is None ==> run(s, inputs).registry.dom() == s.registry.dom(),
    decreases inputs.len(),
{
    if inputs.len() > 0 {
        let before = inputs.drop_last();
        assert forall|i: int| 0 <= i < before.len() implies !loses_worker(
            #[trigger] action_at(s, before, i),
        ) by {
            assert(before.take(i) =~= inputs.take(i));
            assert(action_at(s, before, i) == action_at(s, inputs, i));
        }
        lemma_registry_restored(s, before);
        assert(inputs.take(inputs.len() - 1) =~= before);
        assert(action_at(s, inputs, inputs.len() - 1) == apply(run(s, before), inputs.last()).1);
        lemma_step_stays_on_course(run(s, before), inputs.last(), s.registry.dom());
    }
}

/// Whether the worker `name` is down: the restart under way has taken it
/// out of the registry and has not yet started its replacement.
pub open spec fn is_down(s: Supervision, name: Seq<char>) -> bool {
    s.active matches Some(r) && match r.stage {
        Stage::Killing(_) | Stage::Exiting(_) => named_in(r.names, 0, r.cursor + 1, name),
        Stage::Mutating => named_in(r.names, 0, r.names.len() as int, name),
        Stage::Launching => named_in(r.names, r.cursor, r.names.len() as int, name),
    }
}

/// The state is one in which the restart under way, if any, has dealt with
/// every name once, and no worker that is down has an entry in the registry.
pub open spec fn orderly(s: Supervision) -> bool {
    match s.active {
        None => true,
        Some(r) => {
            &&& r.well_formed()
            &&& no_repeats(
                r.names,
                match r.stage {
                    Stage::Killing(_) | Stage::Exiting(_) => r.cursor + 1,
                    _ => r.names.len() as int,
                },
            )
            &&& forall|n: Seq<char>| is_down(s, n) ==> !(#[trigger] s.registry.contains_key(n))
        },
    }
}

/// Every transition keeps the state orderly.
pub proof fn lemma_step_stays_orderly(s: Supervision, input: Input)
    requires
        orderly(s),
    ensures
        orderly(apply(s, input).0),
{
    let after = apply(s, input).0;
    match s.active {
        None => {
            match input {
                Input::Begin(names) => {
                    if names.len() > 0 && s.registry.contains_key(names[0]) {
                        assert forall|n: Seq<char>| is_down(after, n) implies !(
                        #[trigger] after.registry.contains_key(n)) by {
                            let i = choose|i: int|
                                0 <= i < 1 && 0 <= i < names.len() && #[trigger] names[i] == n;
                        }
                    }
                },
                Input::Event(_) => {},
            }
        },
        Some(r) => {
            let names = r.names;
            let c = r.cursor;
            match (r.stage, input) {
                (Stage::Killing(_), Input::Event(RestartEvent::Killed)) => {
                    assert forall|n: Seq<char>| is_down(after, n) implies !(
                    #[trigger] after.registry.contains_key(n)) by {
                        assert(is_down(s, n));
                    }
                },
                (Stage::Exiting(_), Input::Event(RestartEvent::Exited)) => {
                    if c + 1 < names.len() {
                        if s.registry.contains_key(names[c + 1]) {
                            let next = names[c + 1];
                            assert(!is_down(s, next));
                            assert forall|i: int, j: int|
                                0 <= i < j < c + 2 && j < names.len() implies #[trigger] names[i]
                                != #[trigger] names[j] by {
                                if j == c + 1 && names[i] == names[j] {
                                    assert(named_in(names, 0, c + 1, next));
                                }
                            }
                            assert forall|n: Seq<char>| is_down(after, n) implies !(
                            #[trigger] after.registry.contains_key(n)) by {
                                let i = choose|i: int|
                                    0 <= i < c + 2 && 0 <= i < names.len() && #[trigger] names[i]
                                        == n;
                                if i < c + 1 {
                                    assert(named_in(names, 0, c + 1, n));
                                    assert(is_down(s, n));
                                }
                            }
                        }
                    } else {
                        assert forall|n: Seq<char>| is_down(after, n) implies !(
                        #[trigger] after.registry.contains_key(n)) by {
                            let i = choose|i: int|
                                0 <= i < names.len() && 0 <= i < names.len() && #[trigger] names[i]
                                    == n;
                            assert(named_in(names, 0, c + 1, n));
                            assert(is_down(s, n));
                        }
                    }
                },
                (Stage::Mutating, Input::Event(RestartEvent::Mutated))
                | (Stage::Mutating, Input::Event(RestartEvent::MutationRaised)) => {
                    assert forall|n: Seq<char>| is_down(after, n) implies !(
                    #[trigger] after.registry.contains_key(n)) by {
                        assert(is_down(s, n));
                    }
                },
                (Stage::Launching, Input::Event(RestartEvent::Launched(_)))
                | (Stage::Launching, Input::Event(RestartEvent::LaunchFailed)) => {
                    assert forall|n: Seq<char>| is_down(after, n) implies !(
                    #[trigger] after.registry.contains_key(n)) by {
                        let j = choose|j: int|
                            c + 1 <= j < names.len() && 0 <= j < names.len() && #[trigger] names[j]
                                == n;
                        assert(named_in(names, c, names.len() as int, n));
                        assert(is_down(s, n));
                        assert(names[c] != names[j]);
                    }
                },
                _ => {},
            }
        },
    }
}

/// At most one live process for each name: over any course of requests and
/// reports, a worker that the restart under way has stopped and not yet
/// replaced has no entry in the registry, so that nobody finds a handle to
/// a process that is gone.
pub proof fn lemma_down_workers_are_absent(s: Supervision, inputs: Seq<Input>, name: Seq<char>)
    requires
        s.active is None,
    ensures
        orderly(run(s, inputs)),
        is_down(run(s, inputs), name) ==> !run(s, inputs).registry.contains_key(name),
    decreases inputs.len(),
{
    if inputs.len() > 0 {
        lemma_down_workers_are_absent(s, inputs.drop_last(), name);
        lemma_step_stays_orderly(run(s, inputs.drop_last()), inputs.last());
    }
}

/// The change is applied while the workers are down: at the moment the
/// supervisor asks for the change, none of the workers that the restart
/// names has an entry in the registry.
pub proof fn lemma_change_finds_workers_down(s: Supervision, inputs: Seq<Input>)
    requires
        s.active is None,
        inputs.len() > 0,
        action_at(s, inputs, inputs.len() - 1) == RestartActionView::Mutate,
    ensures
        run(s, inputs).active matches Some(r) && r.stage is Mutating && forall|i: int|
            0 <= i < r.names.len() ==> !run(s, inputs).registry.contains_key(#[trigger] r.names[i]),
{
    let before = inputs.drop_last();
    assert(inputs.take(inputs.len() - 1) =~= before);
    let after = run(s, inputs);
    assert(after.active is Some && after.active->0.stage is Mutating);
    let names = after.active->0.names;
    assert forall|i: int| 0 <= i < names.len() implies !after.registry.contains_key(
        #[trigger] names[i],
    ) by {
        lemma_down_workers_are_absent(s, inputs, names[i]);
        assert(named_in(names, 0, names.len() as int, names[i]));
    }
}

/// How far a restart has come: stopping, changing, starting.
pub open spec fn progress(stage: Stage) -> int {
    match stage {
        Stage::Killing(_) | Stage::Exiting(_) => 0,
        Stage::Mutating => 1,
        Stage::Launching => 2,
    }
}

/// The change is applied at most once in a restart: a restart never falls
/// back from one phase to an earlier one, and the supervisor asks for the
/// change exactly when a restart passes from stopping to changing.
pub proof fn lemma_phases_only_advance(s: Supervision, input: Input)
    requires
        s.well_formed(),
    ensures
        s.active is Some && apply(s, input).0.active is Some ==> progress(s.active->0.stage)
            <= progress(apply(s, input).0.active->0.stage),
        apply(s, input).1 is Mutate <==> {
            &&& apply(s, input).0.active is Some
            &&& apply(s, input).0.active->0.stage is Mutating
            &&& !(s.active is Some && s.active->0.stage is Mutating)
        },
{
}

/// Whether `input` reports that a worker was started with the process
/// `handle` behind it.
pub open spec fn reports_launch(input: Input, handle: u64) -> bool {
    input matches Input::Event(RestartEvent::Launched(h)) && h@ == handle
}

/// Every process in the registry is one that is known to run: it was in the
/// registry at the outset, under the same name, or it is one whose start
/// was reported since.
pub proof fn lemma_handles_come_from_launches(s: Supervision, inputs: Seq<Input>, name: Seq<char>)
    ensures
        run(s, inputs).registry.contains_key(name) ==> {
            ||| s.registry.contains_key(name) && s.registry[name] == run(s, inputs).registry[name]
            ||| exists|i: int|
                0 <= i < inputs.len() && #[trigger] reports_launch(
                    inputs[i],
                    run(s, inputs).registry[name],
                )
        },
    decreases inputs.len(),
{
    if inputs.len() > 0 {
        let before = inputs.drop_last();
        let mid = run(s, before);
        let end = run(s, inputs);
        lemma_handles_come_from_launches(s, before, name);
        if end.registry.contains_key(name) {
            if mid.registry.contains_key(name) && mid.registry[name] == end.registry[name] {
                if !(s.registry.contains_key(name) && s.registry[name] == mid.registry[name]) {
                    let i = choose|i: int|
                        0 <= i < before.len() && #[trigger] reports_launch(
                            before[i],
                            mid.registry[name],
                        );
                    assert(reports_launch(inputs[i], end.registry[name]));
                }
            } else {
                assert(reports_launch(inputs[inputs.len() - 1], end.registry[name]));
            }
        }
    }
}

/// A producer is silent while its worker is down: in an orderly state its
/// process is not the registered one, for none is registered.
pub proof fn lemma_producer_silent_while_worker_down(s: Supervision, producer: Binding)
    requires
        orderly(s),
        is_down(s, producer.kind.source_spec().name_spec()),
    ensures
        !producer.live(s.registry),
{
}

/// A producer takes no notice of the restarts of other workers: over any
/// course of requests that do not name its worker, it is live at the end if
/// and only if it was live at the outset.
pub proof fn lemma_producer_unaffected_by_other_restarts(
    s: Supervision,
    inputs: Seq<Input>,
    producer: Binding,
)
    requires
        s.well_formed(),
        s.active matches Some(r) ==> !r.names.contains(producer.kind.source_spec().name_spec()),
        forall|i: int|
            0 <= i < inputs.len() ==> (#[trigger] inputs[i] matches Input::Begin(names)
                ==> !names.contains(producer.kind.source_spec().name_spec())),
    ensures
        producer.live(run(s, inputs).registry) == producer.live(s.registry),
{
    lemma_unnamed_worker_untouched(s, inputs, producer.kind.source_spec().name_spec());
}

} // verus!
