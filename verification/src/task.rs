//! The lifecycle of one stoppable task, as plain data.
//!
//! A [`Task`] records everything the owner and the worker of one handle ever
//! agree on: whether a stop has been requested, and what the worker's run
//! ended in, once it ended. Its methods are the protocol's transitions — the
//! owner requests a stop, the worker observes the flag and eventually
//! finishes or aborts, the owner joins — and the proof functions at the end
//! state the laws the protocol obeys:
//!
//! - a stop request is idempotent, and once made it never resets;
//! - the joined result is exactly the value or failure payload the worker
//!   produced, delivered once, and untouched by stop requests;
//! - joining involves the outcome alone: it neither requests a stop nor
//!   depends on whether one was requested.
//!
//! The shared-memory realization of the stop bit is [`crate::flag`]; running
//! the worker on its own thread and blocking for its termination are the
//! embedding application's part.

use vstd::prelude::*;

verus! {

use vstd::pervasive::unreached;

/// What a worker's run ended in: a value returned normally, or an abnormal
/// termination carrying its payload.
pub enum Outcome<T, P> {
    Finished(T),
    Aborted(P),
}

/// The joint state of one handle and its worker.
///
/// Exactly one outcome is produced per task, and only while none has been
/// produced yet ([`Task::finish`], [`Task::abort`]); it is consumed exactly
/// once, because [`Task::join`] takes the task by value. A task dropped
/// without a join simply never delivers its outcome; nothing else is
/// affected.
pub struct Task<T, P> {
    stop_requested: bool,
    outcome: Option<Outcome<T, P>>,
}

impl<T, P> Task<T, P> {
    /// Whether the owner has requested a stop.
    pub closed spec fn stop_requested(self) -> bool {
        self.stop_requested
    }

    /// What the worker delivered; `None` while it still runs.
    pub closed spec fn outcome(self) -> Option<Outcome<T, P>> {
        self.outcome
    }

    /// Whether the worker has not terminated yet.
    pub open spec fn running(self) -> bool {
        self.outcome() is None
    }

    /// The state of a task at spawn time: no stop requested, worker running.
    pub closed spec fn init() -> Task<T, P> {
        Task { stop_requested: false, outcome: None }
    }

    /// The state after the owner requests a stop: the flag is set and nothing
    /// else moves.
    pub closed spec fn signalled(self) -> Task<T, P> {
        Task { stop_requested: true, ..self }
    }

    /// The state after the worker returns `v`.
    pub closed spec fn finished(self, v: T) -> Task<T, P> {
        Task { outcome: Some(Outcome::Finished(v)), ..self }
    }

    /// The state after the worker terminates abnormally with payload `p`.
    pub closed spec fn aborted(self, p: P) -> Task<T, P> {
        Task { outcome: Some(Outcome::Aborted(p)), ..self }
    }

    /// The task after the owner either requested a stop or left it alone:
    /// the state one worker of a group settles against when stops are
    /// requested on a chosen subset of the group.
    pub open spec fn with_stop(self, requested: bool) -> Task<T, P> {
        if requested {
            self.signalled()
        } else {
            self
        }
    }

    /// What joining the task yields: the worker's value on normal
    /// completion, its payload on abnormal termination, and nothing while it
    /// still runs. A function of the outcome alone.
    pub open spec fn join_view(self) -> Option<Result<T, P>> {
        match self.outcome() {
            Some(Outcome::Finished(v)) => Some(Ok(v)),
            Some(Outcome::Aborted(p)) => Some(Err(p)),
            None => None,
        }
    }

    /// A fresh task: no stop requested, worker running.
    pub fn new() -> (t: Task<T, P>)
        ensures
            t == Task::<T, P>::init(),
            !t.stop_requested(),
            t.running(),
    {
        Task { stop_requested: false, outcome: None }
    }

    /// The owner requests a stop. Returns at once; sets the flag and touches
    /// nothing else, in particular not the outcome. May be called any number
    /// of times, in any state.
    pub fn signal_stop(&mut self)
        ensures
            *final(self) == old(self).signalled(),
            final(self).stop_requested(),
            final(self).outcome() == old(self).outcome(),
    {
        self.stop_requested = true;
    }

    /// The worker's poll of the flag: exactly its current state.
    pub fn observe(&self) -> (b: bool)
        ensures
            b == self.stop_requested(),
    {
        self.stop_requested
    }

    /// The worker returns `v`. Happens at most once, while no outcome exists
    /// yet; the stop flag is left as it was.
    pub fn finish(&mut self, v: T)
        requires
            old(self).running(),
        ensures
            *final(self) == old(self).finished(v),
            final(self).outcome() == Some(Outcome::<T, P>::Finished(v)),
            final(self).stop_requested() == old(self).stop_requested(),
    {
        self.outcome = Some(Outcome::Finished(v));
    }

    /// The worker terminates abnormally with payload `p`. Happens at most
    /// once, while no outcome exists yet; the stop flag is left as it was.
    pub fn abort(&mut self, p: P)
        requires
            old(self).running(),
        ensures
            *final(self) == old(self).aborted(p),
            final(self).outcome() == Some(Outcome::<T, P>::Aborted(p)),
            final(self).stop_requested() == old(self).stop_requested(),
    {
        self.outcome = Some(Outcome::Aborted(p));
    }

    /// Retrieve the result: the worker's value, or its failure payload if it
    /// terminated abnormally. Consumes the task, so a second join of the same
    /// task is impossible. The worker must have terminated — in a running
    /// system this is what blocking on the worker establishes.
    pub fn join(self) -> (r: Result<T, P>)
        requires
            !self.running(),
        ensures
            Some(r) == self.join_view(),
    {
        match self.outcome {
            Some(Outcome::Finished(v)) => Ok(v),
            Some(Outcome::Aborted(p)) => Err(p),
            None => unreached(),
        }
    }
}

/// Law: requesting a stop twice leaves exactly the state one request leaves.
pub proof fn lemma_signal_stop_idempotent<T, P>(t: Task<T, P>)
    ensures
        t.signalled().signalled() == t.signalled(),
{
}

/// Law: once a stop has been requested, no transition resets it.
pub proof fn lemma_stop_never_resets<T, P>(t: Task<T, P>, v: T, p: P)
    requires
        t.stop_requested(),
    ensures
        t.signalled().stop_requested(),
        t.finished(v).stop_requested(),
        t.aborted(p).stop_requested(),
{
}

/// Law: a worker that finishes with `v` joins to exactly `Ok(v)`, whatever
/// came before.
pub proof fn lemma_normal_completion<T, P>(t: Task<T, P>, v: T)
    ensures
        t.finished(v).join_view() == Some(Result::<T, P>::Ok(v)),
{
}

/// Law: a worker that terminates abnormally with payload `p` joins to exactly
/// `Err(p)`: the payload is carried through unmodified, never dropped.
pub proof fn lemma_abort_propagates<T, P>(t: Task<T, P>, p: P)
    ensures
        t.aborted(p).join_view() == Some(Result::<T, P>::Err(p)),
{
}

/// Law: a stop request has no effect on the joined value; finishing after a
/// stop joins exactly as finishing without one.
pub proof fn lemma_stop_no_effect_on_value<T, P>(t: Task<T, P>, v: T, p: P)
    ensures
        t.signalled().finished(v).join_view() == t.finished(v).join_view(),
        t.signalled().aborted(p).join_view() == t.aborted(p).join_view(),
{
}

/// Law: a worker that terminates on its own joins normally, and the join did
/// not itself request a stop — afterwards none is requested, as before.
pub proof fn lemma_join_without_stop<T, P>(t: Task<T, P>, v: T)
    requires
        !t.stop_requested(),
    ensures
        t.finished(v).join_view() == Some(Result::<T, P>::Ok(v)),
        !t.finished(v).stop_requested(),
{
}

/// Law: any number of independent tasks, stops requested on any chosen subset
/// of them, each worker finishing with its own value — every join yields
/// exactly that task's own value, and exactly the chosen subset ends with a
/// stop requested. No task's stop or result influences another's: each
/// clause below speaks of position `i` alone.
pub proof fn lemma_independent_handles<T, P>(
    tasks: Seq<Task<T, P>>,
    stopped: Seq<bool>,
    values: Seq<T>,
)
    requires
        stopped.len() == tasks.len(),
        values.len() == tasks.len(),
        forall|i: int| 0 <= i < tasks.len() ==> !(#[trigger] tasks[i]).stop_requested(),
    ensures
        forall|i: int|
            0 <= i < tasks.len() ==> (#[trigger] tasks[i].with_stop(stopped[i])).finished(
                values[i],
            ).join_view() == Some(Result::<T, P>::Ok(values[i])),
        forall|i: int|
            0 <= i < tasks.len() ==> (#[trigger] tasks[i].with_stop(stopped[i])).finished(
                values[i],
            ).stop_requested() == stopped[i],
{
}

/// Law: joining involves the outcome alone; tasks with equal outcomes join
/// alike, whatever their stop flags say.
pub proof fn lemma_join_from_outcome_alone<T, P>(t1: Task<T, P>, t2: Task<T, P>)
    requires
        t1.outcome() == t2.outcome(),
    ensures
        t1.join_view() == t2.join_view(),
{
}

} // verus!
