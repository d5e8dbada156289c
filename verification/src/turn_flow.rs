//! The order in which a request for a turn is checked and submitted.
use vstd::prelude::*;

verus! {

/// A step of a request that starts a turn or steers the one that runs.
#[derive(Clone, Copy, Debug, PartialEq, Eq, Structural)]
pub enum TurnStep {
    /// Rejects images from elsewhere in the input.
    Images,
    LoadThread,
    /// Asks whether the thread takes input of its users.
    DirectInput,
    /// Asks whether the thread's provider may be used.
    Provider,
    /// Checks the input, its length and, for a turn that runs, the turn that is expected.
    Input,
    /// Tells the thread which client it has.
    ClientInfo,
    Environments,
    /// Rejects images from elsewhere in the output of a tool.
    ToolImages,
    Directory,
    Settings,
    Submit,
}

/// What follows a step of a request for a turn.
#[derive(Clone, Copy, Debug, PartialEq, Eq, Structural)]
pub enum AfterTurnStep {
    Step(TurnStep),
    /// The request is answered with the step's error.
    Fail,
    /// The request is answered with the turn.
    Done,
}

/// What follows a step. Steering leaves the thread's settings alone.
pub open spec fn turn_next(steers: bool, step: TurnStep, succeeded: bool) -> AfterTurnStep {
    if !succeeded {
        AfterTurnStep::Fail
    } else {
        match step {
            TurnStep::Images => AfterTurnStep::Step(TurnStep::LoadThread),
            TurnStep::LoadThread => AfterTurnStep::Step(TurnStep::DirectInput),
            TurnStep::DirectInput => AfterTurnStep::Step(TurnStep::Provider),
            TurnStep::Provider => AfterTurnStep::Step(TurnStep::Input),
            TurnStep::Input => AfterTurnStep::Step(
                if steers {
                    TurnStep::Submit
                } else {
                    TurnStep::ClientInfo
                },
            ),
            TurnStep::ClientInfo => AfterTurnStep::Step(TurnStep::Environments),
            TurnStep::Environments => AfterTurnStep::Step(TurnStep::ToolImages),
            TurnStep::ToolImages => AfterTurnStep::Step(TurnStep::Directory),
            TurnStep::Directory => AfterTurnStep::Step(TurnStep::Settings),
            TurnStep::Settings => AfterTurnStep::Step(TurnStep::Submit),
            TurnStep::Submit => AfterTurnStep::Done,
        }
    }
}

/// Tells what follows a step of a request for a turn.
pub fn after_turn_step(steers: bool, step: TurnStep, succeeded: bool) -> (res: AfterTurnStep)
    ensures
        res == turn_next(steers, step, succeeded),
{
    if !succeeded {
        return AfterTurnStep::Fail;
    }
    match step {
        TurnStep::Images => AfterTurnStep::Step(TurnStep::LoadThread),
        TurnStep::LoadThread => AfterTurnStep::Step(TurnStep::DirectInput),
        TurnStep::DirectInput => AfterTurnStep::Step(TurnStep::Provider),
        TurnStep::Provider => AfterTurnStep::Step(TurnStep::Input),
        TurnStep::Input => {
            if steers {
                AfterTurnStep::Step(TurnStep::Submit)
            } else {
                AfterTurnStep::Step(TurnStep::ClientInfo)
            }
        },
        TurnStep::ClientInfo => AfterTurnStep::Step(TurnStep::Environments),
        TurnStep::Environments => AfterTurnStep::Step(TurnStep::ToolImages),
        TurnStep::ToolImages => AfterTurnStep::Step(TurnStep::Directory),
        TurnStep::Directory => AfterTurnStep::Step(TurnStep::Settings),
        TurnStep::Settings => AfterTurnStep::Step(TurnStep::Submit),
        TurnStep::Submit => AfterTurnStep::Done,
    }
}

/// How many steps are left at most.
pub open spec fn turn_rank(step: TurnStep) -> int {
    match step {
        TurnStep::Images => 11,
        TurnStep::LoadThread => 10,
        TurnStep::DirectInput => 9,
        TurnStep::Provider => 8,
        TurnStep::Input => 7,
        TurnStep::ClientInfo => 6,
        TurnStep::Environments => 5,
        TurnStep::ToolImages => 4,
        TurnStep::Directory => 3,
        TurnStep::Settings => 2,
        TurnStep::Submit => 1,
    }
}

/// Whether a request submits its input from a step on, when each step goes so.
pub open spec fn submits_input(
    steers: bool,
    succeeds: spec_fn(TurnStep) -> bool,
    step: TurnStep,
) -> bool
    decreases turn_rank(step),
{
    step is Submit || match turn_next(steers, step, succeeds(step)) {
        AfterTurnStep::Step(next) => turn_rank(next) < turn_rank(step) && submits_input(
            steers,
            succeeds,
            next,
        ),
        _ => false,
    }
}

/// Every request comes to an end, because each step leads only to later ones.
pub proof fn turn_request_moves_on(steers: bool, step: TurnStep, succeeded: bool)
    ensures
        turn_next(steers, step, succeeded) matches AfterTurnStep::Step(next) ==> turn_rank(next)
            < turn_rank(step),
{
}

/// Whether a step is a check of a request.
pub open spec fn is_turn_check(steers: bool, step: TurnStep) -> bool {
    match step {
        TurnStep::Submit => false,
        TurnStep::ClientInfo
        | TurnStep::Environments
        | TurnStep::ToolImages
        | TurnStep::Directory
        | TurnStep::Settings => !steers,
        _ => true,
    }
}

/// An input reaches its thread exactly when every check succeeds.
pub proof fn input_is_submitted_after_every_check(
    steers: bool,
    succeeds: spec_fn(TurnStep) -> bool,
)
    ensures
        submits_input(steers, succeeds, TurnStep::Images) <==> forall|step: TurnStep|
            is_turn_check(steers, step) ==> #[trigger] succeeds(step),
{
    reveal_with_fuel(submits_input, 12);
    if forall|step: TurnStep| is_turn_check(steers, step) ==> #[trigger] succeeds(step) {
        assert(succeeds(TurnStep::Images));
        assert(succeeds(TurnStep::LoadThread));
        assert(succeeds(TurnStep::DirectInput));
        assert(succeeds(TurnStep::Provider));
        assert(succeeds(TurnStep::Input));
        if !steers {
            assert(succeeds(TurnStep::ClientInfo));
            assert(succeeds(TurnStep::Environments));
            assert(succeeds(TurnStep::ToolImages));
            assert(succeeds(TurnStep::Directory));
            assert(succeeds(TurnStep::Settings));
        }
    }
}

/// The steps that a request for a turn takes from a step on, when each goes so.
pub open spec fn turn_steps(
    steers: bool,
    succeeds: spec_fn(TurnStep) -> bool,
    step: TurnStep,
) -> Seq<TurnStep>
    decreases turn_rank(step),
{
    match turn_next(steers, step, succeeds(step)) {
        AfterTurnStep::Step(next) => if turn_rank(next) < turn_rank(step) {
            seq![step] + turn_steps(steers, succeeds, next)
        } else {
            seq![step]
        },
        _ => seq![step],
    }
}

/// A request takes its steps in one order, and stops at the first that does not succeed. A request
/// that steers takes those that concern the input alone.
pub proof fn turn_request_keeps_its_order(succeeds: spec_fn(TurnStep) -> bool)
    ensures
        ({
            let started = turn_steps(false, succeeds, TurnStep::Images);
            let steered = turn_steps(true, succeeds, TurnStep::Images);
            let order = seq![
                TurnStep::Images,
                TurnStep::LoadThread,
                TurnStep::DirectInput,
                TurnStep::Provider,
                TurnStep::Input,
                TurnStep::ClientInfo,
                TurnStep::Environments,
                TurnStep::ToolImages,
                TurnStep::Directory,
                TurnStep::Settings,
                TurnStep::Submit,
            ];
            let short = order.take(5).push(TurnStep::Submit);
            &&& 1 <= started.len() <= 11
            &&& started == order.take(started.len() as int)
            &&& started.len() < 11 ==> !succeeds(started.last())
            &&& 1 <= steered.len() <= 6
            &&& steered == short.take(steered.len() as int)
            &&& steered.len() < 6 ==> !succeeds(steered.last())
            &&& forall|i: int| 0 <= i < started.len() - 1 ==> succeeds(#[trigger] started[i])
            &&& forall|i: int| 0 <= i < steered.len() - 1 ==> succeeds(#[trigger] steered[i])
        }),
{
    reveal_with_fuel(turn_steps, 12);
    let started = turn_steps(false, succeeds, TurnStep::Images);
    let steered = turn_steps(true, succeeds, TurnStep::Images);
    let order = seq![
        TurnStep::Images,
        TurnStep::LoadThread,
        TurnStep::DirectInput,
        TurnStep::Provider,
        TurnStep::Input,
        TurnStep::ClientInfo,
        TurnStep::Environments,
        TurnStep::ToolImages,
        TurnStep::Directory,
        TurnStep::Settings,
        TurnStep::Submit,
    ];
    let short = order.take(5).push(TurnStep::Submit);
    assert(started =~= order.take(started.len() as int));
    assert(steered =~= short.take(steered.len() as int));
}

} // verus!
