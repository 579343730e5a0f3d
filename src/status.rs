//! Status enumerations of the payment intent and attempt, and the lifecycle
//! graph along which they may move.
use vstd::prelude::*;

verus! {

/// Lifecycle status of a payment intent.
#[derive(Clone, Copy, Debug, PartialEq, Eq, Structural)]
pub enum IntentStatus {
    RequiresPaymentMethod,
    RequiresConfirmation,
    Processing,
    RequiresCapture,
    Succeeded,
    Failed,
    Cancelled,
}

/// Lifecycle status of a payment attempt.
#[derive(Clone, Copy, Debug, PartialEq, Eq, Structural)]
pub enum AttemptStatus {
    Started,
    Pending,
    AuthenticationPending,
    Charged,
    Failure,
}

/// Position of an intent status along the lifecycle graph.
pub open spec fn intent_rank(s: IntentStatus) -> nat {
    match s {
        IntentStatus::RequiresPaymentMethod => 0,
        IntentStatus::RequiresConfirmation => 1,
        IntentStatus::Processing => 2,
        IntentStatus::RequiresCapture => 3,
        IntentStatus::Succeeded => 4,
        IntentStatus::Failed => 4,
        IntentStatus::Cancelled => 4,
    }
}

/// Terminal intent statuses: no operation moves an intent out of them.
pub open spec fn intent_is_terminal(s: IntentStatus) -> bool {
    s == IntentStatus::Succeeded || s == IntentStatus::Failed || s == IntentStatus::Cancelled
}

/// One legal edge of the intent lifecycle: from a non-terminal status to a
/// status strictly further along the graph.
pub open spec fn intent_step(from: IntentStatus, to: IntentStatus) -> bool {
    !intent_is_terminal(from) && intent_rank(from) < intent_rank(to)
}

/// Zero or more legal edges of the intent lifecycle.
pub open spec fn intent_reachable(from: IntentStatus, to: IntentStatus) -> bool {
    from == to || intent_step(from, to)
}

/// Position of an attempt status along the lifecycle graph.
pub open spec fn attempt_rank(s: AttemptStatus) -> nat {
    match s {
        AttemptStatus::Started => 0,
        AttemptStatus::Pending => 1,
        AttemptStatus::AuthenticationPending => 2,
        AttemptStatus::Charged => 3,
        AttemptStatus::Failure => 3,
    }
}

/// Terminal attempt statuses.
pub open spec fn attempt_is_terminal(s: AttemptStatus) -> bool {
    s == AttemptStatus::Charged || s == AttemptStatus::Failure
}

/// One legal edge of the attempt lifecycle.
pub open spec fn attempt_step(from: AttemptStatus, to: AttemptStatus) -> bool {
    !attempt_is_terminal(from) && attempt_rank(from) < attempt_rank(to)
}

impl IntentStatus {
    pub fn rank(&self) -> (r: u8)
        ensures
            r as nat == intent_rank(*self),
    {
        match self {
            IntentStatus::RequiresPaymentMethod => 0,
            IntentStatus::RequiresConfirmation => 1,
            IntentStatus::Processing => 2,
            IntentStatus::RequiresCapture => 3,
            IntentStatus::Succeeded => 4,
            IntentStatus::Failed => 4,
            IntentStatus::Cancelled => 4,
        }
    }

    pub fn is_terminal(&self) -> (r: bool)
        ensures
            r == intent_is_terminal(*self),
    {
        match self {
            IntentStatus::Succeeded | IntentStatus::Failed | IntentStatus::Cancelled => true,
            _ => false,
        }
    }

    /// Whether an intent in this status may be moved to `to`.
    pub fn can_transition_to(&self, to: IntentStatus) -> (r: bool)
        ensures
            r == intent_step(*self, to),
    {
        !self.is_terminal() && self.rank() < to.rank()
    }
}

impl AttemptStatus {
    pub fn rank(&self) -> (r: u8)
        ensures
            r as nat == attempt_rank(*self),
    {
        match self {
            AttemptStatus::Started => 0,
            AttemptStatus::Pending => 1,
            AttemptStatus::AuthenticationPending => 2,
            AttemptStatus::Charged => 3,
            AttemptStatus::Failure => 3,
        }
    }

    pub fn is_terminal(&self) -> (r: bool)
        ensures
            r == attempt_is_terminal(*self),
    {
        match self {
            AttemptStatus::Charged | AttemptStatus::Failure => true,
            _ => false,
        }
    }

    /// Whether an attempt in this status may be moved to `to`.
    pub fn can_transition_to(&self, to: AttemptStatus) -> (r: bool)
        ensures
            r == attempt_step(*self, to),
    {
        !self.is_terminal() && self.rank() < to.rank()
    }
}

/// Reachability along the intent lifecycle composes.
pub proof fn lemma_intent_reachable_transitive(a: IntentStatus, b: IntentStatus, c: IntentStatus)
    requires
        intent_reachable(a, b),
        intent_reachable(b, c),
    ensures
        intent_reachable(a, c),
{
}

/// Once an intent is terminal, every status reachable from it is the same status.
pub proof fn lemma_terminal_intent_stays(a: IntentStatus, b: IntentStatus)
    requires
        intent_is_terminal(a),
        intent_reachable(a, b),
    ensures
        b == a,
{
}

} // verus!
