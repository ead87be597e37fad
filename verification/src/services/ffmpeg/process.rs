//! The operating-system side of a task: what the process handle is asked, and
//! the types that carry its answers.
use vstd::prelude::*;
use tokio::process::Child;
use crate::services::ffmpeg::executor::texts;
use crate::services::ffmpeg::task::ProcessExit;

verus! {

/// Handle of a child process, as `tokio` hands it out. Its state is that of
/// the process and is not modelled.
#[verifier::external_type_specification]
#[verifier::external_body]
pub struct ExChild(Child);

/// Calls `tokio::process::Child::try_wait`, which asks without blocking
/// whether the process has exited. `Ok(None)` means that it has not. For an
/// exit, the report holds what `ExitStatus::success` and `ExitStatus::code`
/// return; the contract claims only what std documents of the two: success
/// is a zero exit code.
#[verifier::external_body]
pub(crate) fn try_wait(child: &mut Child) -> (polled: Result<
    Option<ProcessExit>,
    std::io::Error,
>)
    ensures
        polled matches Ok(Some(exit)) ==> exit.consistent(),
{
    match child.try_wait() {
        Ok(Some(status)) => Ok(
            Some(ProcessExit { success: status.success(), code: status.code() }),
        ),
        Ok(None) => Ok(None),
        Err(error) => Err(error),
    }
}

/// Calls `tokio::process::Child::start_kill`, which asks the operating system
/// to end the process and does not wait for it to happen. Nothing is claimed
/// of the outcome.
#[verifier::external_body]
pub(crate) fn start_kill(child: &mut Child) -> (killed: Result<(), std::io::Error>) {
    child.start_kill()
}

/// The text of a `tokio::process::Command` made for an executable and its
/// arguments, when it is formatted with `{:?}`: the `Debug` that `tokio`
/// derives for its command, which holds the `Debug` of the command of std
/// with the executable and each argument in quotes.
pub uninterp spec fn command_text(executable: Seq<char>, arguments: Seq<Seq<char>>) -> Seq<char>;

/// Makes a `tokio::process::Command` with `Command::new` and `Command::args`
/// and formats it with `{:?}`. The command is not started. The text depends on
/// the executable and the arguments alone.
#[verifier::external_body]
pub(crate) fn render_command(executable: &str, arguments: &Vec<String>) -> (text: String)
    ensures
        text@ == command_text(executable@, texts(arguments@)),
{
    let mut command = tokio::process::Command::new(executable);
    command.args(arguments);
    format!("{:?}", command)
}

} // verus!
