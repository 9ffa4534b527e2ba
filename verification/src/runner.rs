//! Replaying a macro, one instruction at a time: each step says which action
//! comes next, and the caller performs it and reports how it went.
use vstd::prelude::*;
use crate::model::{instructions_view, Instruction, InstructionView, Macro, Token, TokenView};

verus! {

/// What the caller performs next while a macro runs.
#[derive(Debug, PartialEq, Eq)]
pub enum RunAction {
    /// Sleeps for the given number of milliseconds.
    Sleep(u64),
    /// Runs the script at the given path with bash and waits for it.
    RunScript(String),
    /// Sends the input event.
    Send(Token),
    /// Leaves out an event that is not carried out, with a warning.
    Skip,
    /// The run is over.
    Stop,
}

/// What an action holds, with its texts as characters.
pub enum RunActionView {
    Sleep(u64),
    RunScript(Seq<char>),
    Send(TokenView),
    Skip,
    Stop,
}

impl View for RunAction {
    type V = RunActionView;

    open spec fn view(&self) -> RunActionView {
        match self {
            RunAction::Sleep(duration) => RunActionView::Sleep(*duration),
            RunAction::RunScript(path) => RunActionView::RunScript(path@),
            RunAction::Send(token) => RunActionView::Send(token@),
            RunAction::Skip => RunActionView::Skip,
            RunAction::Stop => RunActionView::Stop,
        }
    }
}

/// How the previous action went.
#[derive(Clone, Copy, Debug, PartialEq, Eq, Structural)]
pub enum StepOutcome {
    /// The action was carried out (or there was none yet).
    Performed,
    /// The input device could not be locked, which ends the run.
    LockFailed,
}

/// The action that carries out an instruction.
pub open spec fn action_of(instruction: InstructionView) -> RunActionView {
    match instruction {
        InstructionView::Wait(duration) => RunActionView::Sleep(duration),
        InstructionView::Script(path) => RunActionView::RunScript(path),
        InstructionView::Token(token) => match token {
            TokenView::Location(_, _) => RunActionView::Skip,
            TokenView::MainDisplay(_, _) => RunActionView::Skip,
            _ => RunActionView::Send(token),
        },
    }
}

/// One step of a run: the instructions still to do afterwards, and the action to take.
pub open spec fn run_step(remaining: Seq<InstructionView>, previous: StepOutcome) -> (
    Seq<InstructionView>,
    RunActionView,
) {
    if previous == StepOutcome::LockFailed {
        (Seq::empty(), RunActionView::Stop)
    } else if remaining.len() == 0 {
        (remaining, RunActionView::Stop)
    } else {
        (remaining.drop_first(), action_of(remaining[0]))
    }
}

/// The actions of `n` steps in a row, each after a carried-out action.
pub open spec fn actions_when_performed(remaining: Seq<InstructionView>, n: nat) -> Seq<RunActionView>
    decreases n,
{
    if n == 0 {
        Seq::empty()
    } else {
        let (rest, action) = run_step(remaining, StepOutcome::Performed);
        seq![action] + actions_when_performed(rest, (n - 1) as nat)
    }
}

/// A macro being replayed: the instructions not yet carried out.
pub struct MacroRun {
    remaining: Vec<Instruction>,
}

impl View for MacroRun {
    type V = Seq<InstructionView>;

    closed spec fn view(&self) -> Seq<InstructionView> {
        instructions_view(self.remaining@)
    }
}

impl MacroRun {
    /// Starts a run of the macro's instructions.
    pub fn new(mac: Macro) -> (run: MacroRun)
        ensures
            run@ == mac@.code,
    {
        MacroRun { remaining: mac.code }
    }

    /// Decides the next action, given how the previous one went.
    pub fn step(&mut self, previous: StepOutcome) -> (action: RunAction)
        ensures
            (final(self)@, action@) == run_step(old(self)@, previous),
    {
        if previous == StepOutcome::LockFailed {
            self.remaining = Vec::new();
            proof {
                assert(instructions_view(self.remaining@) =~= Seq::empty());
            }
            return RunAction::Stop;
        }
        if self.remaining.len() == 0 {
            return RunAction::Stop;
        }
        let ghost before = self.remaining@;
        let instruction = self.remaining.remove(0);
        proof {
            assert(instructions_view(self.remaining@) =~= instructions_view(before).drop_first());
        }
        match instruction {
            Instruction::Wait(duration) => RunAction::Sleep(duration),
            Instruction::Script(path) => RunAction::RunScript(path),
            Instruction::Token(token) => match token {
                Token::Location(_, _) => RunAction::Skip,
                Token::MainDisplay(_, _) => RunAction::Skip,
                _ => RunAction::Send(token),
            },
        }
    }
}

/// When every action is carried out, a run takes one action per instruction,
/// in the order of the instructions, and then stops.
pub proof fn lemma_run_follows_instructions(code: Seq<InstructionView>)
    ensures
        actions_when_performed(code, code.len()) == code.map_values(
            |instruction: InstructionView| action_of(instruction),
        ),
        run_step(run_step_n(code, code.len()), StepOutcome::Performed).1 == RunActionView::Stop,
    decreases code.len(),
{
    if code.len() > 0 {
        lemma_run_follows_instructions(code.drop_first());
        assert(code.map_values(|instruction: InstructionView| action_of(instruction)) =~= seq![
            action_of(code[0]),
        ] + code.drop_first().map_values(|instruction: InstructionView| action_of(instruction)));
    }
}

/// The instructions left after `n` steps, each after a carried-out action.
pub open spec fn run_step_n(remaining: Seq<InstructionView>, n: nat) -> Seq<InstructionView>
    decreases n,
{
    if n == 0 {
        remaining
    } else {
        run_step_n(run_step(remaining, StepOutcome::Performed).0, (n - 1) as nat)
    }
}

/// Once locking the input device has failed, the run stops, and every later
/// step stops too.
pub proof fn lemma_lock_failure_ends_run(remaining: Seq<InstructionView>, later: StepOutcome)
    ensures
        run_step(remaining, StepOutcome::LockFailed).1 == RunActionView::Stop,
        run_step(run_step(remaining, StepOutcome::LockFailed).0, later).1 == RunActionView::Stop,
{
}

/// A step after a carried-out action takes the first remaining instruction and
/// leaves the rest: a wait sleeps for its duration, a script is run, every
/// text, key, raw key, button, pointer-move and scroll event is sent as it is,
/// and only position and display checks are left out.
pub proof fn lemma_step_carries_out_first(remaining: Seq<InstructionView>)
    requires
        remaining.len() > 0,
    ensures
        run_step(remaining, StepOutcome::Performed).0 == remaining.drop_first(),
        remaining[0] matches InstructionView::Wait(d) ==> run_step(remaining, StepOutcome::Performed).1
            == RunActionView::Sleep(d),
        remaining[0] matches InstructionView::Script(p) ==> run_step(
            remaining,
            StepOutcome::Performed,
        ).1 == RunActionView::RunScript(p),
        remaining[0] matches InstructionView::Token(t) ==> (run_step(
            remaining,
            StepOutcome::Performed,
        ).1 == if t is Location || t is MainDisplay {
            RunActionView::Skip
        } else {
            RunActionView::Send(t)
        }),
{
}

/// Once no instruction is left, every step stops and leaves nothing to do.
pub proof fn lemma_step_stops_when_done(outcome: StepOutcome)
    ensures
        run_step(Seq::empty(), outcome) == (Seq::<InstructionView>::empty(), RunActionView::Stop),
{
}

} // verus!
