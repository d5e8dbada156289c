//! How a thread takes input.
use crate::error::NonSteerableTurnKind;
use crate::text::{debug_text, plus3, quoted};
use vstd::prelude::*;
use vstd::string::*;

verus! {

/// Why a thread did not take an input.
#[derive(Debug)]
pub enum NotSubmittedReason {
    ServerDraining,
    NoActiveTurn,
    NotIdle,
    ExpectedTurnMismatch { expected: String, actual: String },
    ActiveTurnNotSteerable { turn_kind: NonSteerableTurnKind },
    EmptyInput,
    ActiveTurnOutputSchemaMismatch,
    PendingTriggerTurn,
    PlanMode,
}

/// How a thread took an input that may start a turn.
#[derive(Debug)]
pub enum TurnInputSubmission {
    Started { turn_id: String },
    Steered { turn_id: String },
    NotSubmitted { reason: NotSubmittedReason },
}

/// How a thread took an input for a running turn.
#[derive(Debug)]
pub enum SteerSubmission {
    Steered { turn_id: String },
    NotSubmitted { reason: NotSubmittedReason },
}

pub open spec fn turn_kind_text(kind: NonSteerableTurnKind) -> Seq<char> {
    match kind {
        NonSteerableTurnKind::Review => "Review"@,
        NonSteerableTurnKind::Compact => "Compact"@,
    }
}

/// The name of a reason, with its fields.
pub open spec fn reason_text(reason: NotSubmittedReason) -> Seq<char> {
    match reason {
        NotSubmittedReason::ServerDraining => "ServerDraining"@,
        NotSubmittedReason::NoActiveTurn => "NoActiveTurn"@,
        NotSubmittedReason::NotIdle => "NotIdle"@,
        NotSubmittedReason::ExpectedTurnMismatch { expected, actual } => {
            "ExpectedTurnMismatch { expected: "@ + quoted(expected@) + ", actual: "@ + quoted(
                actual@,
            ) + " }"@
        },
        NotSubmittedReason::ActiveTurnNotSteerable { turn_kind } => {
            "ActiveTurnNotSteerable { turn_kind: "@ + turn_kind_text(turn_kind) + " }"@
        },
        NotSubmittedReason::EmptyInput => "EmptyInput"@,
        NotSubmittedReason::ActiveTurnOutputSchemaMismatch => "ActiveTurnOutputSchemaMismatch"@,
        NotSubmittedReason::PendingTriggerTurn => "PendingTriggerTurn"@,
        NotSubmittedReason::PlanMode => "PlanMode"@,
    }
}

impl NotSubmittedReason {
    pub fn text(&self) -> (res: String)
        ensures
            res@ == reason_text(*self),
    {
        match self {
            NotSubmittedReason::ServerDraining => "ServerDraining".to_owned(),
            NotSubmittedReason::NoActiveTurn => "NoActiveTurn".to_owned(),
            NotSubmittedReason::NotIdle => "NotIdle".to_owned(),
            NotSubmittedReason::ExpectedTurnMismatch { expected, actual } => {
                let mut out = plus3(
                    "ExpectedTurnMismatch { expected: ",
                    debug_text(expected.as_str()).as_str(),
                    ", actual: ",
                );
                out.append(debug_text(actual.as_str()).as_str());
                out.append(" }");
                out
            },
            NotSubmittedReason::ActiveTurnNotSteerable { turn_kind } => {
                let kind = match turn_kind {
                    NonSteerableTurnKind::Review => "Review",
                    NonSteerableTurnKind::Compact => "Compact",
                };
                plus3("ActiveTurnNotSteerable { turn_kind: ", kind, " }")
            },
            NotSubmittedReason::EmptyInput => "EmptyInput".to_owned(),
            NotSubmittedReason::ActiveTurnOutputSchemaMismatch => {
                "ActiveTurnOutputSchemaMismatch".to_owned()
            },
            NotSubmittedReason::PendingTriggerTurn => "PendingTriggerTurn".to_owned(),
            NotSubmittedReason::PlanMode => "PlanMode".to_owned(),
        }
    }
}

/// No two kinds of reasons have the same name, and a mismatch tells both turns, the expected one
/// first.
pub proof fn reason_is_told(reason: NotSubmittedReason, other: NotSubmittedReason)
    requires
        reason_text(reason) == reason_text(other),
    ensures
        reason is ServerDraining <==> other is ServerDraining,
        reason is NoActiveTurn <==> other is NoActiveTurn,
        reason is NotIdle <==> other is NotIdle,
        reason is EmptyInput <==> other is EmptyInput,
        reason is ActiveTurnOutputSchemaMismatch <==> other is ActiveTurnOutputSchemaMismatch,
        reason is PendingTriggerTurn <==> other is PendingTriggerTurn,
        reason is PlanMode <==> other is PlanMode,
        reason matches NotSubmittedReason::ExpectedTurnMismatch { expected, actual }
            ==> reason_text(reason) == "ExpectedTurnMismatch { expected: "@ + quoted(expected@)
            + ", actual: "@ + quoted(actual@) + " }"@,
        reason matches NotSubmittedReason::ActiveTurnNotSteerable { turn_kind } ==> reason_text(
            reason,
        ) == if turn_kind is Review {
            "ActiveTurnNotSteerable { turn_kind: Review }"@
        } else {
            "ActiveTurnNotSteerable { turn_kind: Compact }"@
        },
{
    reveal_strlit("ServerDraining");
    reveal_strlit("NoActiveTurn");
    reveal_strlit("NotIdle");
    reveal_strlit("EmptyInput");
    reveal_strlit("ActiveTurnOutputSchemaMismatch");
    reveal_strlit("PendingTriggerTurn");
    reveal_strlit("PlanMode");
    reveal_strlit("ExpectedTurnMismatch { expected: ");
    reveal_strlit("ActiveTurnNotSteerable { turn_kind: ");
    reveal_strlit("ActiveTurnNotSteerable { turn_kind: Review }");
    reveal_strlit("ActiveTurnNotSteerable { turn_kind: Compact }");
    reveal_strlit("Review");
    reveal_strlit("Compact");
    reveal_strlit(" }");
    assert("ActiveTurnNotSteerable { turn_kind: "@ + "Review"@ + " }"@
        =~= "ActiveTurnNotSteerable { turn_kind: Review }"@);
    assert("ActiveTurnNotSteerable { turn_kind: "@ + "Compact"@ + " }"@
        =~= "ActiveTurnNotSteerable { turn_kind: Compact }"@);
    let a = reason_text(reason);
    let b = reason_text(other);
    assert(a[0] == b[0] && a[1] == b[1] && a[2] == b[2] && a.len() == b.len());
    assert("NotIdle"@[2] == 't' && "NoActiveTurn"@[2] == 'A');
    assert("PendingTriggerTurn"@[1] == 'e' && "PlanMode"@[1] == 'l');
    assert("EmptyInput"@[1] == 'm');
    if reason is ExpectedTurnMismatch {
        assert(a[1] == 'x');
    }
    if other is ExpectedTurnMismatch {
        assert(b[1] == 'x');
    }
    if reason is ActiveTurnNotSteerable {
        assert(a.len() > 36);
    }
    if other is ActiveTurnNotSteerable {
        assert(b.len() > 36);
    }
}

} // verus!
