//! The shared flag that keeps a looping macro running: setting it, reading it,
//! and the messages reported when the flag cannot be reached.
use std::sync::{Arc, Mutex};
use vstd::prelude::*;

verus! {

#[verifier::external_type_specification]
#[verifier::external_body]
#[verifier::reject_recursive_types(T)]
pub struct ExMutex<T: ?Sized>(Mutex<T>);

/// The message reported when the loop flag cannot be set.
pub open spec fn set_failure_message(detail: Seq<char>) -> Seq<char> {
    "Failed to set loop state: "@ + detail
}

/// Locks the flag with `Mutex::lock` and, when the lock is granted, stores
/// `state` through the guard. The result is `Err` with the text of the
/// `PoisonError` when the mutex is poisoned. Whether the lock is granted
/// depends on the other threads, so nothing is stated of the result.
#[verifier::external_body]
fn store_flag(loop_flag: &Arc<Mutex<bool>>, state: bool) -> (outcome: Result<(), String>) {
    match loop_flag.lock() {
        Ok(mut flag) => {
            *flag = state;
            Ok(())
        },
        Err(err) => Err(err.to_string()),
    }
}

/// Locks the flag with `Mutex::lock` and reads the value it holds, or gives
/// `None` when the mutex is poisoned. What the flag holds depends on the other
/// threads, so nothing is stated of the result.
#[verifier::external_body]
fn read_flag(loop_flag: &Arc<Mutex<bool>>) -> (value: Option<bool>) {
    match loop_flag.lock() {
        Ok(flag) => Some(*flag),
        Err(_) => None,
    }
}

/// What setting the flag reports, given the outcome of storing into it.
pub fn set_outcome(outcome: Result<(), String>) -> (result: Result<(), String>)
    ensures
        match outcome {
            Ok(()) => result is Ok,
            Err(detail) => result matches Err(message) && message@ == set_failure_message(detail@),
        },
{
    match outcome {
        Ok(()) => Ok(()),
        Err(detail) => {
            let mut message = "Failed to set loop state: ".to_owned();
            message.append(detail.as_str());
            Err(message)
        },
    }
}

/// Whether the loop should keep running, given what reading the flag gave:
/// only a flag that could be read and holds `true` keeps it running.
pub fn flag_or_stop(value: Option<bool>) -> (running: bool)
    ensures
        running == (value == Some(true)),
{
    match value {
        Some(flag) => flag,
        None => false,
    }
}

/// Sets the loop flag to `state`. On failure the message starts with
/// `Failed to set loop state: ` followed by the reason.
pub fn set_loop_state(loop_flag: &Arc<Mutex<bool>>, state: bool) -> (result: Result<(), String>)
    ensures
        result matches Err(message) ==> exists|detail: Seq<char>|
            message@ == set_failure_message(detail),
{
    set_outcome(store_flag(loop_flag, state))
}

/// Reads the loop flag; a flag that cannot be read counts as `false`.
pub fn get_loop_state(loop_flag: &Arc<Mutex<bool>>) -> (running: bool) {
    flag_or_stop(read_flag(loop_flag))
}

/// Clears the loop flag, which stops a running loop after its current pass.
pub fn stop_loop(loop_flag: &Arc<Mutex<bool>>) -> (result: Result<(), String>)
    ensures
        result matches Err(message) ==> exists|detail: Seq<char>|
            message@ == set_failure_message(detail),
{
    set_loop_state(loop_flag, false)
}

/// Sets the loop flag, which lets a loop keep running.
pub fn start_loop(loop_flag: &Arc<Mutex<bool>>) -> (result: Result<(), String>)
    ensures
        result matches Err(message) ==> exists|detail: Seq<char>|
            message@ == set_failure_message(detail),
{
    set_loop_state(loop_flag, true)
}

} // verus!
