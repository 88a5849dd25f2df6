//! The proof lifecycle: setup, then prove, then verify, each entered only by
//! an explicit step. The backend work of each phase is done by the caller,
//! which reports its outcome; this module decides what comes next.
use vstd::prelude::*;

verus! {

/// The phase that the lifecycle is in.
#[derive(Clone, Copy, Debug, PartialEq, Eq, Structural)]
pub enum Phase {
    /// Keys are to be generated from the unassigned circuit.
    Setup,
    /// A proof is to be made with the proving key and the assigned circuit.
    Prove,
    /// The proof may be checked, any number of times, against public inputs.
    Verify,
    /// A phase failed; nothing more is done.
    Aborted,
}

/// The outcome of the backend work of a phase, as the caller reports it.
#[derive(Clone, Copy, Debug, PartialEq, Eq, Structural)]
pub enum Event {
    KeysGenerated,
    SetupFailed,
    ProofGenerated,
    ProveFailed,
    /// The check ran and gave its answer: `false` means the claim is false.
    Checked(bool),
    /// The check could not be performed (a malformed key or proof).
    VerifyFailed,
}

/// A failure of one phase.
#[derive(Clone, Copy, Debug, PartialEq, Eq, Structural)]
pub enum LifecycleError {
    Setup,
    Prove,
    Verify,
    /// An outcome was reported for a phase that the lifecycle is not in.
    OutOfOrder,
}

/// What the caller is to do next.
#[derive(Clone, Copy, Debug, PartialEq, Eq, Structural)]
pub enum Step {
    /// Make a proof with the proving key.
    Prove,
    /// Check the proof against public inputs.
    Verify,
    /// The proof holds for the public inputs it was checked against.
    Accept,
    /// The proof does not hold for the public inputs it was checked against.
    Reject,
    /// Stop the run with this failure.
    Abort(LifecycleError),
}

pub open spec fn transition(phase: Phase, event: Event) -> (Phase, Step) {
    match (phase, event) {
        (Phase::Setup, Event::KeysGenerated) => (Phase::Prove, Step::Prove),
        (Phase::Setup, Event::SetupFailed) => (Phase::Aborted, Step::Abort(LifecycleError::Setup)),
        (Phase::Prove, Event::ProofGenerated) => (Phase::Verify, Step::Verify),
        (Phase::Prove, Event::ProveFailed) => (Phase::Aborted, Step::Abort(LifecycleError::Prove)),
        (Phase::Verify, Event::Checked(true)) => (Phase::Verify, Step::Accept),
        (Phase::Verify, Event::Checked(false)) => (Phase::Verify, Step::Reject),
        (Phase::Verify, Event::VerifyFailed) => (
            Phase::Aborted,
            Step::Abort(LifecycleError::Verify),
        ),
        _ => (Phase::Aborted, Step::Abort(LifecycleError::OutOfOrder)),
    }
}

impl Phase {
    /// The phase that a lifecycle starts in.
    pub fn start() -> (r: Phase)
        ensures
            r == Phase::Setup,
    {
        Phase::Setup
    }

    /// The next phase, and the step the caller is to take, after the outcome
    /// `event` of the current phase's work.
    pub fn advance(self, event: Event) -> (r: (Phase, Step))
        ensures
            r == transition(self, event),
    {
        match (self, event) {
            (Phase::Setup, Event::KeysGenerated) => (Phase::Prove, Step::Prove),
            (Phase::Setup, Event::SetupFailed) => (
                Phase::Aborted,
                Step::Abort(LifecycleError::Setup),
            ),
            (Phase::Prove, Event::ProofGenerated) => (Phase::Verify, Step::Verify),
            (Phase::Prove, Event::ProveFailed) => (
                Phase::Aborted,
                Step::Abort(LifecycleError::Prove),
            ),
            (Phase::Verify, Event::Checked(valid)) => {
                if valid {
                    (Phase::Verify, Step::Accept)
                } else {
                    (Phase::Verify, Step::Reject)
                }
            },
            (Phase::Verify, Event::VerifyFailed) => (
                Phase::Aborted,
                Step::Abort(LifecycleError::Verify),
            ),
            _ => (Phase::Aborted, Step::Abort(LifecycleError::OutOfOrder)),
        }
    }
}

/// A check that ran is never an error: whatever boolean it gave, the
/// lifecycle stays ready to verify and answers `Accept` or `Reject`, so a false
/// claim is told apart from a check that could not be performed.
pub proof fn lemma_rejection_is_not_failure(valid: bool)
    ensures
        transition(Phase::Verify, Event::Checked(valid)).0 == Phase::Verify,
        transition(Phase::Verify, Event::Checked(valid)).1 == (if valid {
            Step::Accept
        } else {
            Step::Reject
        }),
        transition(Phase::Verify, Event::VerifyFailed).1 != transition(
            Phase::Verify,
            Event::Checked(valid),
        ).1,
{
}

/// Once a phase has failed the lifecycle stays aborted, whatever is reported.
pub proof fn lemma_abort_is_final(event: Event)
    ensures
        transition(Phase::Aborted, event) == (
            Phase::Aborted,
            Step::Abort(LifecycleError::OutOfOrder),
        ),
{
}

} // verus!
