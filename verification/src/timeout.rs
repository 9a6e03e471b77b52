//! What becomes of an outside command that ran under a time limit.
use vstd::prelude::*;

use crate::error::{Error, ErrorView, fails_with};

verus! {

/// The time limit, in seconds, of every command sent to the Bluetooth backend.
pub const COMMAND_TIMEOUT_SECS: u64 = 5;

/// The outcome of something that ran under a time limit.
#[derive(Debug, PartialEq, Eq)]
pub enum Timed<T> {
    /// It finished in time, with this value.
    Finished(T),
    /// The time was up first.
    Elapsed,
}

/// `result` is what the command named `cmd` comes to when it ended with `outcome`: its own
/// value, its own error, or a timeout that names it.
pub open spec fn is_command_result<T>(
    outcome: Timed<Result<T, String>>,
    cmd: Seq<char>,
    result: Result<T, Error>,
) -> bool {
    match outcome {
        Timed::Finished(Ok(value)) => result == Ok::<T, Error>(value),
        Timed::Finished(Err(message)) => fails_with(result, ErrorView::Btleplug(message@)),
        Timed::Elapsed => fails_with(result, ErrorView::Timeout(cmd)),
    }
}

/// The result of the command named `cmd`, which ran under a time limit of the caller's choice.
pub fn run_with_given_timeout<T>(outcome: Timed<Result<T, Error>>, cmd: &str) -> (result: Result<
    T,
    Error,
>)
    ensures
        match outcome {
            Timed::Finished(r) => result == r,
            Timed::Elapsed => fails_with(result, ErrorView::Timeout(cmd@)),
        },
{
    match outcome {
        Timed::Finished(r) => r,
        Timed::Elapsed => Err(Error::Timeout(cmd.to_owned())),
    }
}

/// The result of the backend command named `cmd`, which ran under [`COMMAND_TIMEOUT_SECS`].
pub fn run_with_timeout<T>(outcome: Timed<Result<T, String>>, cmd: &str) -> (result: Result<
    T,
    Error,
>)
    ensures
        is_command_result(outcome, cmd@, result),
{
    let mapped: Timed<Result<T, Error>> = match outcome {
        Timed::Finished(Ok(value)) => Timed::Finished(Ok(value)),
        Timed::Finished(Err(message)) => Timed::Finished(Err(Error::Btleplug(message))),
        Timed::Elapsed => Timed::Elapsed,
    };
    run_with_given_timeout(mapped, cmd)
}

/// A command comes to its own value, to its own error, or to a timeout that names it: nothing that
/// it returned is changed.
pub proof fn law_command_keeps_its_outcome<T>(
    outcome: Timed<Result<T, String>>,
    cmd: &str,
    result: Result<T, Error>,
)
    requires
        call_ensures(run_with_timeout::<T>, (outcome, cmd), result),
    ensures
        result matches Ok(value) ==> outcome == Timed::Finished(Ok::<T, String>(value)),
        result matches Err(Error::Btleplug(text)) ==> (outcome matches Timed::Finished(Err(message))
            && message@ == text@),
        result matches Err(Error::Timeout(text)) ==> outcome is Elapsed && text@ == cmd@,
        result matches Err(error) ==> error is Btleplug || error is Timeout,
        is_command_result(outcome, cmd@, result),
{
}

/// What the result of a command is said to be is its own value, its own error, or a timeout that names
/// it.
pub proof fn law_command_result_is_the_outcome<T>(
    outcome: Timed<Result<T, String>>,
    cmd: Seq<char>,
    result: Result<T, Error>,
)
    requires
        is_command_result(outcome, cmd, result),
    ensures
        outcome matches Timed::Finished(Ok(value)) ==> result == Ok::<T, Error>(value),
        outcome matches Timed::Finished(Err(message)) ==> (result matches Err(Error::Btleplug(text))
            && text@ == message@),
        outcome is Elapsed ==> (result matches Err(Error::Timeout(text)) && text@ == cmd),
{
}

/// A result that came in time is kept, whatever it is, and the time is up only for what did not
/// finish.
pub proof fn law_result_in_time_is_kept<T>(
    outcome: Timed<Result<T, Error>>,
    cmd: &str,
    result: Result<T, Error>,
)
    requires
        call_ensures(run_with_given_timeout::<T>, (outcome, cmd), result),
    ensures
        outcome matches Timed::Finished(r) ==> result == r,
        outcome is Elapsed ==> (result matches Err(Error::Timeout(text)) && text@ == cmd@),
{
}

} // verus!
