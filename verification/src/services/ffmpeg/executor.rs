//! The executor: from a transcoding request to the invocation of the
//! transcoding executable.
//!
//! The invocation is
//! `<executable> -y -i <src> -c:a <codec> [-b:a <bitrate>k] <target>`:
//! flags first, the target last, the bitrate only for a format that has one.
use vstd::prelude::*;
use vstd::string::StringExecFns;
use tokio::process::Child;
use crate::services::ffmpeg::error::{FFmpegError, FFmpegResult};
use crate::services::ffmpeg::format::Format;
use crate::services::ffmpeg::process::{command_text, render_command};
use crate::services::ffmpeg::task::{FFmpegStatus, FFmpegTask, FFmpegTaskParameters};

verus! {

/// The character of one decimal digit.
pub open spec fn digit_char(digit: nat) -> char {
    if digit == 0 {
        '0'
    } else if digit == 1 {
        '1'
    } else if digit == 2 {
        '2'
    } else if digit == 3 {
        '3'
    } else if digit == 4 {
        '4'
    } else if digit == 5 {
        '5'
    } else if digit == 6 {
        '6'
    } else if digit == 7 {
        '7'
    } else if digit == 8 {
        '8'
    } else {
        '9'
    }
}

/// A number in decimal notation, without sign or leading zeros.
pub open spec fn decimal_text(number: nat) -> Seq<char>
    decreases number,
{
    if number < 10 {
        seq![digit_char(number)]
    } else {
        decimal_text(number / 10).push(digit_char(number % 10))
    }
}

/// A bitrate as the executable takes it: the number of kilobits per second,
/// followed by `k`.
pub open spec fn bitrate_text(bitrate: nat) -> Seq<char> {
    decimal_text(bitrate).push('k')
}

/// The argument list of a request.
pub open spec fn argument_list(param: FFmpegTaskParameters) -> Seq<Seq<char>> {
    let head = seq!["-y"@, "-i"@, param.src@, "-c:a"@, param.format.codec()];
    let rate = match param.format.bitrate() {
        Some(bitrate) => seq!["-b:a"@, bitrate_text(bitrate as nat)],
        None => Seq::<Seq<char>>::empty(),
    };
    head + rate + seq![param.target@]
}

/// The argument list is `-y -i <src> -c:a <codec>`, then `-b:a <bitrate>k`
/// exactly if the format has a bitrate, then the target, in this order and
/// with nothing else.
pub proof fn law_argument_list_shape(param: FFmpegTaskParameters)
    ensures
        argument_list(param).len() == (if param.format.bitrate() is Some {
            8int
        } else {
            6int
        }),
        argument_list(param)[0] == "-y"@,
        argument_list(param)[1] == "-i"@,
        argument_list(param)[2] == param.src@,
        argument_list(param)[3] == "-c:a"@,
        argument_list(param)[4] == param.format.codec(),
        argument_list(param).last() == param.target@,
        param.format.bitrate() matches Some(bitrate) ==> argument_list(param)[5] == "-b:a"@
            && argument_list(param)[6] == decimal_text(bitrate as nat).push('k'),
        param.format.bitrate() is Some <==> param.format != Format::Flac,
{
}

/// The text of every string of a list.
pub open spec fn texts(list: Seq<String>) -> Seq<Seq<char>> {
    list.map_values(|text: String| text@)
}

fn digit_str(digit: usize) -> (text: &'static str)
    requires
        digit < 10,
    ensures
        text@ == seq![digit_char(digit as nat)],
{
    proof {
        reveal_strlit("0");
        reveal_strlit("1");
        reveal_strlit("2");
        reveal_strlit("3");
        reveal_strlit("4");
        reveal_strlit("5");
        reveal_strlit("6");
        reveal_strlit("7");
        reveal_strlit("8");
        reveal_strlit("9");
    }
    let text = if digit == 0 {
        "0"
    } else if digit == 1 {
        "1"
    } else if digit == 2 {
        "2"
    } else if digit == 3 {
        "3"
    } else if digit == 4 {
        "4"
    } else if digit == 5 {
        "5"
    } else if digit == 6 {
        "6"
    } else if digit == 7 {
        "7"
    } else if digit == 8 {
        "8"
    } else {
        "9"
    };
    assert(text@ =~= seq![digit_char(digit as nat)]);
    text
}

/// Writes a number in decimal notation.
pub fn render_decimal(number: usize) -> (text: String)
    ensures
        text@ == decimal_text(number as nat),
    decreases number,
{
    if number < 10 {
        digit_str(number).to_owned()
    } else {
        let mut text = render_decimal(number / 10);
        text.append(digit_str(number % 10));
        text
    }
}

/// Writes a bitrate as the executable takes it.
pub fn render_bitrate(bitrate: usize) -> (text: String)
    ensures
        text@ == bitrate_text(bitrate as nat),
{
    let mut text = render_decimal(bitrate);
    proof {
        reveal_strlit("k");
    }
    text.append("k");
    text
}

/// Builds the argument list of a request.
pub fn render_arguments(param: &FFmpegTaskParameters) -> (arguments: Vec<String>)
    ensures
        texts(arguments@) == argument_list(*param),
        arguments@.len() == argument_list(*param).len(),
        forall|index: int|
            0 <= index < arguments@.len() ==> (#[trigger] arguments@[index])@ == argument_list(
                *param,
            )[index],
{
    let mut arguments: Vec<String> = Vec::new();
    arguments.push("-y".to_owned());
    arguments.push("-i".to_owned());
    arguments.push(param.src.to_owned());
    arguments.push("-c:a".to_owned());
    arguments.push(param.format.get_codec().to_owned());
    if let Some(bitrate) = param.format.get_bitrate() {
        arguments.push("-b:a".to_owned());
        arguments.push(render_bitrate(bitrate));
    }
    arguments.push(param.target.to_owned());
    assert(texts(arguments@) =~= argument_list(*param));
    arguments
}

/// A transcoding invocation that is ready to be started: the executable, its
/// arguments in order, the same as one line of text for diagnostics, and the
/// output file that the request declared.
#[derive(Debug)]
pub struct FFmpegLaunch {
    /// Name or path of the executable.
    pub executable: String,
    /// Arguments, in the order in which the executable takes them.
    pub arguments: Vec<String>,
    /// The whole invocation as text.
    pub command_line: String,
    /// Output file of the request.
    pub target: String,
}

impl FFmpegLaunch {
    /// Whether this is the invocation of `executable` for `param`.
    pub open spec fn is_for(self, executable: Seq<char>, param: FFmpegTaskParameters) -> bool {
        &&& self.executable@ == executable
        &&& texts(self.arguments@) == argument_list(param)
        &&& self.command_line@ == command_text(executable, argument_list(param))
        &&& self.target@ == param.target@
    }

    /// Turns the outcome of starting the process into a task. A started
    /// process becomes a running task that owns its handle. A failure becomes
    /// [`FFmpegError::SpawnFFmpegFailed`], with the error of the operating
    /// system and the command line.
    pub fn into_task(
        self,
        spawned: Result<Child, std::io::Error>,
    ) -> (launched: FFmpegResult<FFmpegTask>)
        ensures
            launched == launch_outcome(self, spawned),
    {
        match spawned {
            Ok(child) => Ok(FFmpegTask { status: FFmpegStatus::Running, child, target: self.target }),
            Err(error) => Err(FFmpegError::SpawnFFmpegFailed(error, self.command_line)),
        }
    }
}

/// What becomes of an invocation once the operating system has answered.
pub open spec fn launch_outcome(
    launch: FFmpegLaunch,
    spawned: Result<Child, std::io::Error>,
) -> FFmpegResult<FFmpegTask> {
    match spawned {
        Ok(child) => Ok(FFmpegTask { status: FFmpegStatus::Running, child, target: launch.target }),
        Err(error) => Err(FFmpegError::SpawnFFmpegFailed(error, launch.command_line)),
    }
}

/// Something that takes the parameters of a job and hands back what its
/// caller tracks the job by.
pub trait Executor {
    /// Parameters of one job.
    type TaskParameter;

    /// What the caller gets for a job.
    type Task;

    /// Handles one job.
    fn executor(&self, param: &Self::TaskParameter) -> Self::Task;
}

/// Executor for the transcoding executable.
#[derive(Clone, Copy, Debug)]
pub struct FFmpegExecutor<'a> {
    /// Name or path of the transcoding executable.
    pub executable: &'a str,
}

impl<'a> Executor for FFmpegExecutor<'a> {
    type TaskParameter = FFmpegTaskParameters<'a>;

    type Task = FFmpegLaunch;

    /// Prepares the invocation for a request. Starting it is left to the
    /// caller, who hands the outcome to [`FFmpegLaunch::into_task`].
    fn executor(&self, param: &FFmpegTaskParameters<'a>) -> (launch: FFmpegLaunch)
        ensures
            launch.is_for(self.executable@, *param),
    {
        let arguments = render_arguments(param);
        let command_line = render_command(self.executable, &arguments);
        FFmpegLaunch {
            executable: self.executable.to_owned(),
            arguments,
            command_line,
            target: param.target.to_owned(),
        }
    }
}

} // verus!
