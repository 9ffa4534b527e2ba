use macros::input::{Direction, Key};
use macros::model::{Instruction, Macro, Token};
use macros::runner::{MacroRun, RunAction, StepOutcome};

fn sample() -> Macro {
    Macro::new(
        "m".to_string(),
        String::new(),
        vec![
            Instruction::Wait(5),
            Instruction::Token(Token::Key(Key::Unicode('a'), Direction::Click)),
            Instruction::Script("/bin/true".to_string()),
            Instruction::Token(Token::Location(1, 2)),
            Instruction::Token(Token::Text("x".to_string())),
        ],
    )
}

#[test]
fn run_takes_each_instruction_in_order_then_stops() {
    let mut run = MacroRun::new(sample());
    assert_eq!(run.step(StepOutcome::Performed), RunAction::Sleep(5));
    assert_eq!(
        run.step(StepOutcome::Performed),
        RunAction::Send(Token::Key(Key::Unicode('a'), Direction::Click))
    );
    assert_eq!(run.step(StepOutcome::Performed), RunAction::RunScript("/bin/true".to_string()));
    assert_eq!(run.step(StepOutcome::Performed), RunAction::Skip);
    assert_eq!(run.step(StepOutcome::Performed), RunAction::Send(Token::Text("x".to_string())));
    assert_eq!(run.step(StepOutcome::Performed), RunAction::Stop);
    assert_eq!(run.step(StepOutcome::Performed), RunAction::Stop);
}

#[test]
fn lock_failure_ends_the_run() {
    let mut run = MacroRun::new(sample());
    assert_eq!(run.step(StepOutcome::Performed), RunAction::Sleep(5));
    assert_eq!(run.step(StepOutcome::LockFailed), RunAction::Stop);
    assert_eq!(run.step(StepOutcome::Performed), RunAction::Stop);
}

#[test]
fn empty_macro_stops_at_once() {
    let mut run = MacroRun::new(Macro::new(String::new(), String::new(), vec![]));
    assert_eq!(run.step(StepOutcome::Performed), RunAction::Stop);
}
