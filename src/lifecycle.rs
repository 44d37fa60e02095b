//! The run's lifecycle: provisioning, launch, the race between the end of
//! the output and a termination request, and the forced removal that
//! follows either. The caller performs each action against the container
//! runtime and feeds back what happened; every decision is made here.
use vstd::prelude::*;

verus! {

/// A step before the container ran whose failure ends the run.
#[derive(Clone, Copy, Debug, PartialEq, Eq, Structural)]
pub enum Stage {
    Provision,
    Create,
    Start,
}

/// Which side of the race finished the streaming phase.
#[derive(Clone, Copy, Debug, PartialEq, Eq, Structural)]
pub enum Ending {
    /// The container closed its output, typically because its process exited.
    OutputClosed,
    /// A termination signal arrived first.
    Interrupted,
}

/// How a run ended.
#[derive(Clone, Copy, Debug, PartialEq, Eq, Structural)]
pub enum Outcome {
    /// The container ran; either side of the race ended it.
    Completed(Ending),
    /// A step before the container ran failed.
    Aborted(Stage),
}

/// What became of the container at the end of the run.
#[derive(Clone, Copy, Debug, PartialEq, Eq, Structural)]
pub enum Cleanup {
    /// No container was created.
    NotNeeded,
    Removed,
    /// The runtime no longer knew the container: it counts as removed.
    AlreadyGone,
    /// Removal failed; reported, without changing the outcome.
    Failed,
}

/// Why a removal call failed.
#[derive(Clone, Copy, Debug, PartialEq, Eq, Structural)]
pub enum RemovalError {
    NotFound,
    Other,
}

/// Where a run stands. Containers are named by their runtime identifier.
#[derive(Debug)]
pub enum RunState {
    Provisioning,
    Creating,
    Starting(String),
    Streaming(String),
    /// Removal is due; the outcome of the run is already fixed.
    CleaningUp(String, Outcome),
    Done(Outcome, Cleanup),
}

/// What the runtime reported back for the last action.
#[derive(Debug)]
pub enum Event {
    Pulled,
    PullFailed,
    Created(String),
    CreateFailed,
    Started,
    StartFailed,
    OutputClosed,
    Interrupted,
    Removed,
    RemoveFailed(RemovalError),
}

/// What the caller must do next.
#[derive(Debug)]
pub enum Action {
    /// Make sure the image is present locally.
    Pull,
    /// Create the container from the run's configuration.
    Create,
    Start(String),
    /// Forward the container's output while watching for a termination
    /// signal; report whichever comes first and abandon the other.
    Stream(String),
    /// Remove the container by force.
    Remove(String),
    /// Leave with this outcome.
    Exit(Outcome),
}

pub open spec fn succeeded_spec(o: Outcome) -> bool {
    o is Completed
}

impl Outcome {
    /// Whether the run counts as a success: it does exactly when the
    /// container ran, however the streaming phase ended.
    pub fn succeeded(&self) -> (r: bool)
        ensures
            r == succeeded_spec(*self),
    {
        match self {
            Outcome::Completed(_) => true,
            Outcome::Aborted(_) => false,
        }
    }

    /// The process exit status for this outcome: 0 on success, 1 otherwise.
    pub fn exit_code(&self) -> (r: i32)
        ensures
            r == if succeeded_spec(*self) { 0i32 } else { 1i32 },
    {
        if self.succeeded() { 0 } else { 1 }
    }
}

pub open spec fn action_spec(s: RunState) -> Action {
    match s {
        RunState::Provisioning => Action::Pull,
        RunState::Creating => Action::Create,
        RunState::Starting(id) => Action::Start(id),
        RunState::Streaming(id) => Action::Stream(id),
        RunState::CleaningUp(id, _) => Action::Remove(id),
        RunState::Done(o, _) => Action::Exit(o),
    }
}

/// The state after event `e` in state `s`. An event that does not answer
/// the state's action leaves the state as it is.
pub open spec fn next(s: RunState, e: Event) -> RunState {
    match (s, e) {
        (RunState::Provisioning, Event::Pulled) => RunState::Creating,
        (RunState::Provisioning, Event::PullFailed) => RunState::Done(
            Outcome::Aborted(Stage::Provision),
            Cleanup::NotNeeded,
        ),
        (RunState::Creating, Event::Created(id)) => RunState::Starting(id),
        (RunState::Creating, Event::CreateFailed) => RunState::Done(
            Outcome::Aborted(Stage::Create),
            Cleanup::NotNeeded,
        ),
        (RunState::Starting(id), Event::Started) => RunState::Streaming(id),
        (RunState::Starting(id), Event::StartFailed) => RunState::CleaningUp(
            id,
            Outcome::Aborted(Stage::Start),
        ),
        (RunState::Streaming(id), Event::OutputClosed) => RunState::CleaningUp(
            id,
            Outcome::Completed(Ending::OutputClosed),
        ),
        (RunState::Streaming(id), Event::Interrupted) => RunState::CleaningUp(
            id,
            Outcome::Completed(Ending::Interrupted),
        ),
        (RunState::CleaningUp(_, o), Event::Removed) => RunState::Done(o, Cleanup::Removed),
        (RunState::CleaningUp(_, o), Event::RemoveFailed(RemovalError::NotFound)) => RunState::Done(
            o,
            Cleanup::AlreadyGone,
        ),
        (RunState::CleaningUp(_, o), Event::RemoveFailed(RemovalError::Other)) => RunState::Done(
            o,
            Cleanup::Failed,
        ),
        (s, _) => s,
    }
}

impl RunState {
    /// A run begins by provisioning the image.
    pub fn new() -> (r: RunState)
        ensures
            r == RunState::Provisioning,
    {
        RunState::Provisioning
    }

    /// The action this state asks for.
    pub fn action(&self) -> (r: Action)
        ensures
            r == action_spec(*self),
    {
        match self {
            RunState::Provisioning => Action::Pull,
            RunState::Creating => Action::Create,
            RunState::Starting(id) => Action::Start(id.clone()),
            RunState::Streaming(id) => Action::Stream(id.clone()),
            RunState::CleaningUp(id, _) => Action::Remove(id.clone()),
            RunState::Done(o, _) => Action::Exit(*o),
        }
    }

    /// Whether the run is over.
    pub fn is_done(&self) -> (r: bool)
        ensures
            r == (*self is Done),
    {
        match self {
            RunState::Done(_, _) => true,
            _ => false,
        }
    }

    /// Moves the run on by the event the runtime reported.
    pub fn step(self, e: Event) -> (r: RunState)
        ensures
            r == next(self, e),
    {
        match (self, e) {
            (RunState::Provisioning, Event::Pulled) => RunState::Creating,
            (RunState::Provisioning, Event::PullFailed) => RunState::Done(
                Outcome::Aborted(Stage::Provision),
                Cleanup::NotNeeded,
            ),
            (RunState::Creating, Event::Created(id)) => RunState::Starting(id),
            (RunState::Creating, Event::CreateFailed) => RunState::Done(
                Outcome::Aborted(Stage::Create),
                Cleanup::NotNeeded,
            ),
            (RunState::Starting(id), Event::Started) => RunState::Streaming(id),
            (RunState::Starting(id), Event::StartFailed) => RunState::CleaningUp(
                id,
                Outcome::Aborted(Stage::Start),
            ),
            (RunState::Streaming(id), Event::OutputClosed) => RunState::CleaningUp(
                id,
                Outcome::Completed(Ending::OutputClosed),
            ),
            (RunState::Streaming(id), Event::Interrupted) => RunState::CleaningUp(
                id,
                Outcome::Completed(Ending::Interrupted),
            ),
            (RunState::CleaningUp(_, o), Event::Removed) => RunState::Done(o, Cleanup::Removed),
            (RunState::CleaningUp(_, o), Event::RemoveFailed(RemovalError::NotFound)) => RunState::Done(
                o,
                Cleanup::AlreadyGone,
            ),
            (RunState::CleaningUp(_, o), Event::RemoveFailed(RemovalError::Other)) => RunState::Done(
                o,
                Cleanup::Failed,
            ),
            (s, _) => s,
        }
    }
}

/// Whether event `e` is a possible answer to action `a`.
pub open spec fn answers(a: Action, e: Event) -> bool {
    match a {
        Action::Pull => e is Pulled || e is PullFailed,
        Action::Create => e is Created || e is CreateFailed,
        Action::Start(_) => e is Started || e is StartFailed,
        Action::Stream(_) => e is OutputClosed || e is Interrupted,
        Action::Remove(_) => e is Removed || e is RemoveFailed,
        Action::Exit(_) => false,
    }
}

/// The state reached from `s` through the events `evs`.
pub open spec fn after(s: RunState, evs: Seq<Event>) -> RunState
    decreases evs.len(),
{
    if evs.len() == 0 {
        s
    } else {
        next(after(s, evs.drop_last()), evs.last())
    }
}

/// Whether each event of `evs` answers the action that was due when it came:
/// the events a faithful caller can feed back, starting from `s`.
pub open spec fn driven(s: RunState, evs: Seq<Event>) -> bool
    decreases evs.len(),
{
    evs.len() == 0 || (driven(s, evs.drop_last()) && answers(
        action_spec(after(s, evs.drop_last())),
        evs.last(),
    ))
}

/// How many actions satisfying `p` were carried out along `evs` from `s`.
pub open spec fn performed(s: RunState, evs: Seq<Event>, p: spec_fn(Action) -> bool) -> nat
    decreases evs.len(),
{
    if evs.len() == 0 {
        0
    } else {
        performed(s, evs.drop_last(), p) + if p(action_spec(after(s, evs.drop_last()))) {
            1nat
        } else {
            0nat
        }
    }
}

pub open spec fn is_removal(a: Action) -> bool {
    a is Remove
}

pub open spec fn is_pull(a: Action) -> bool {
    a is Pull
}

/// How many containers the runtime reported created along `evs`.
pub open spec fn creations(evs: Seq<Event>) -> nat
    decreases evs.len(),
{
    if evs.len() == 0 {
        0
    } else {
        creations(evs.drop_last()) + if evs.last() is Created {
            1nat
        } else {
            0nat
        }
    }
}

/// 1 where a container exists that is still to be removed.
pub open spec fn owes_removal(s: RunState) -> nat {
    if s is Starting || s is Streaming || s is CleaningUp {
        1
    } else {
        0
    }
}

/// 1 where the run has got past creating its container.
pub open spec fn has_created(s: RunState) -> nat {
    match s {
        RunState::Provisioning | RunState::Creating => 0,
        RunState::Done(_, Cleanup::NotNeeded) => 0,
        _ => 1,
    }
}

/// A run that completed had a container to clean up.
pub open spec fn consistent(s: RunState) -> bool {
    !(s matches RunState::Done(Outcome::Completed(_), Cleanup::NotNeeded))
}

pub open spec fn holds(s: RunState, id: String) -> bool {
    s == RunState::Starting(id) || s == RunState::Streaming(id) || exists|o: Outcome|
        s == RunState::CleaningUp(id, o)
}

proof fn lemma_accounting(s: RunState, evs: Seq<Event>)
    requires
        driven(s, evs),
        !(s is Done) || evs.len() == 0,
    ensures
        performed(s, evs, |a: Action| is_removal(a)) + owes_removal(after(s, evs))
            == owes_removal(s) + creations(evs),
        has_created(s) + creations(evs) == has_created(after(s, evs)),
        consistent(s) ==> consistent(after(s, evs)),
        performed(s, evs, |a: Action| is_pull(a)) + if after(s, evs) is Provisioning {
            1nat
        } else {
            0nat
        } == if s is Provisioning {
            1nat
        } else {
            0nat
        },
    decreases evs.len(),
{
    if evs.len() > 0 {
        lemma_accounting(s, evs.drop_last());
    }
}

proof fn lemma_handle_origin(s: RunState, evs: Seq<Event>, id: String)
    requires
        driven(s, evs),
        has_created(s) == 0,
        holds(after(s, evs), id),
    ensures
        exists|j: int| 0 <= j < evs.len() && evs[j] == Event::Created(id),
    decreases evs.len(),
{
    if evs.len() > 0 {
        let prev = after(s, evs.drop_last());
        if holds(prev, id) {
            lemma_handle_origin(s, evs.drop_last(), id);
            let j = choose|j: int| 0 <= j < evs.drop_last().len() && evs.drop_last()[j] == Event::Created(id);
            assert(evs[j] == Event::Created(id));
        } else {
            assert(evs[evs.len() - 1] == Event::Created(id));
        }
    } else {
        assert(false);
    }
}

/// Every run that reaches its end has made exactly one removal attempt if a
/// container was created, and none otherwise; in particular every
/// successful run has removed its container exactly once.
pub proof fn lemma_removal_exactly_once(evs: Seq<Event>)
    requires
        driven(RunState::Provisioning, evs),
        after(RunState::Provisioning, evs) is Done,
    ensures
        creations(evs) <= 1,
        performed(RunState::Provisioning, evs, |a: Action| is_removal(a)) == creations(evs),
        succeeded_spec(after(RunState::Provisioning, evs)->Done_0) ==> performed(
            RunState::Provisioning,
            evs,
            |a: Action| is_removal(a),
        ) == 1,
{
    lemma_accounting(RunState::Provisioning, evs);
}

/// A removal is only ever asked for on a container that the runtime
/// reported created earlier in the run.
pub proof fn lemma_removal_needs_handle(evs: Seq<Event>, id: String)
    requires
        driven(RunState::Provisioning, evs),
        action_spec(after(RunState::Provisioning, evs)) == Action::Remove(id),
    ensures
        exists|j: int| 0 <= j < evs.len() && evs[j] == Event::Created(id),
{
    let s = after(RunState::Provisioning, evs);
    if let RunState::CleaningUp(i, o) = s {
        assert(holds(s, id));
    }
    lemma_handle_origin(RunState::Provisioning, evs, id);
}

/// The image is pulled at most once per run, and a pull that succeeds, as
/// it does for an image already present, moves the run on to creating the
/// container.
pub proof fn lemma_single_pull(evs: Seq<Event>)
    requires
        driven(RunState::Provisioning, evs),
    ensures
        performed(RunState::Provisioning, evs, |a: Action| is_pull(a)) <= 1,
        next(RunState::Provisioning, Event::Pulled) == RunState::Creating,
{
    lemma_accounting(RunState::Provisioning, evs);
}

/// When the container closes its output, cleanup follows with no signal
/// needed: the very next action is the forced removal of that container,
/// and its answer, whatever it is, ends a successful run.
pub proof fn lemma_output_close_leads_to_removal(id: String, answer: Event)
    requires
        answers(Action::Remove(id), answer),
    ensures
        action_spec(next(RunState::Streaming(id), Event::OutputClosed)) == Action::Remove(id),
        after(RunState::Streaming(id), seq![Event::OutputClosed, answer]) is Done,
        succeeded_spec(after(RunState::Streaming(id), seq![Event::OutputClosed, answer])->Done_0),
{
    reveal_with_fuel(after, 3);
    assert(seq![Event::OutputClosed, answer].drop_last() =~= seq![Event::OutputClosed]);
    assert(seq![Event::OutputClosed].drop_last() =~= Seq::<Event>::empty());
}

/// A termination signal during streaming starts cleanup at once: the next
/// action is the removal, and the run ends on its answer, with no further
/// word from the output stream.
pub proof fn lemma_interrupt_leads_to_removal(id: String, answer: Event)
    requires
        answers(Action::Remove(id), answer),
    ensures
        action_spec(next(RunState::Streaming(id), Event::Interrupted)) == Action::Remove(id),
        after(RunState::Streaming(id), seq![Event::Interrupted, answer]) is Done,
        succeeded_spec(after(RunState::Streaming(id), seq![Event::Interrupted, answer])->Done_0),
{
    reveal_with_fuel(after, 3);
    assert(seq![Event::Interrupted, answer].drop_last() =~= seq![Event::Interrupted]);
    assert(seq![Event::Interrupted].drop_last() =~= Seq::<Event>::empty());
}

/// Removing a container that is already gone ends the run just as a
/// successful removal does: the outcome is the one fixed before cleanup.
pub proof fn lemma_absent_container_is_no_failure(id: String, o: Outcome)
    ensures
        next(RunState::CleaningUp(id, o), Event::RemoveFailed(RemovalError::NotFound))
            == RunState::Done(o, Cleanup::AlreadyGone),
        next(RunState::CleaningUp(id, o), Event::Removed) == RunState::Done(o, Cleanup::Removed),
{
}

} // verus!
