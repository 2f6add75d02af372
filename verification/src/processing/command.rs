//! The command backend: a program that reads the prompt on its standard
//! input and writes the response to its standard output.

use crate::error::{DiscliError, ErrorView};
use crate::text::views;
use vstd::prelude::*;
use vstd::string::StringExecFns;

verus! {

/// What `String::from_utf8_lossy` makes of a sequence of bytes.
pub uninterp spec fn utf8_lossy(bytes: Seq<u8>) -> Seq<char>;

/// `String::from_utf8_lossy` decodes bytes as UTF-8 and puts U+FFFD in the
/// place of what is not. Valid UTF-8 is decoded as it stands.
#[verifier::external_body]
pub(crate) fn decode_lossy(bytes: &Vec<u8>) -> (out: String)
    ensures
        out@ == utf8_lossy(bytes@),
        vstd::utf8::valid_utf8(bytes@) ==> out@ == vstd::utf8::decode_utf8(bytes@),
{
    String::from_utf8_lossy(bytes).into_owned()
}

/// A command to run for one prompt.
#[derive(Debug)]
pub struct CommandRequest {
    /// The program.
    pub program: String,
    /// Its arguments.
    pub args: Vec<String>,
    /// What to write to its standard input.
    pub stdin: String,
    /// Bound on the run, in seconds.
    pub timeout_secs: u64,
}

/// Mathematical image of a [`CommandRequest`].
pub struct CommandRequestView {
    pub program: Seq<char>,
    pub args: Seq<Seq<char>>,
    pub stdin: Seq<char>,
    pub timeout_secs: u64,
}

impl View for CommandRequest {
    type V = CommandRequestView;

    open spec fn view(&self) -> CommandRequestView {
        CommandRequestView {
            program: self.program@,
            args: views(self.args@),
            stdin: self.stdin@,
            timeout_secs: self.timeout_secs,
        }
    }
}

/// How a run of a command ended.
#[derive(Debug)]
pub enum CommandOutcome {
    /// Starting the program, writing the prompt or waiting failed.
    IoFailed(String),
    /// The bound passed; the program was terminated.
    TimedOut,
    /// The program exited.
    Exited { success: bool, stdout: Vec<u8>, stderr: Vec<u8> },
}

/// The request for a command line and a prompt, or the configuration error
/// for an empty command line.
pub open spec fn command_request(cmd: Seq<Seq<char>>, prompt: Seq<char>, timeout_secs: u64) -> Result<
    CommandRequestView,
    ErrorView,
> {
    if cmd.len() == 0 {
        Err(ErrorView::Config("Empty command"@))
    } else {
        Ok(
            CommandRequestView {
                program: cmd[0],
                args: cmd.subrange(1, cmd.len() as int),
                stdin: prompt,
                timeout_secs,
            },
        )
    }
}

/// What a run's end means: the response, or the error.
pub open spec fn command_result(outcome: CommandOutcome) -> Result<Seq<char>, ErrorView> {
    match outcome {
        CommandOutcome::IoFailed(reason) => Err(ErrorView::Io(reason@)),
        CommandOutcome::TimedOut => Err(ErrorView::Timeout("Command timed out"@)),
        CommandOutcome::Exited { success, stdout, stderr } => if success {
            Ok(utf8_lossy(stdout@))
        } else {
            Err(ErrorView::Process("Command failed: "@ + utf8_lossy(stderr@)))
        },
    }
}

/// The views of a prepared request.
pub open spec fn prepared_view(out: Result<CommandRequest, DiscliError>) -> Result<
    CommandRequestView,
    ErrorView,
> {
    match out {
        Ok(request) => Ok(request@),
        Err(e) => Err(e@),
    }
}

/// The views of a response or error.
pub open spec fn response_view(out: Result<String, DiscliError>) -> Result<Seq<char>, ErrorView> {
    match out {
        Ok(text) => Ok(text@),
        Err(e) => Err(e@),
    }
}

/// Runs prompts through a command, one run per prompt.
#[derive(Debug)]
pub struct CommandProcessor {
    timeout_secs: u64,
}

impl CommandProcessor {
    /// The bound on one run, in seconds.
    pub closed spec fn timeout(&self) -> u64 {
        self.timeout_secs
    }

    /// A processor whose runs are bounded by `timeout_secs`.
    pub fn new(timeout_secs: u64) -> (out: Self)
        ensures
            out.timeout() == timeout_secs,
    {
        CommandProcessor { timeout_secs }
    }

    /// The command to run for `prompt`: the first word of `cmd` is the
    /// program, the others its arguments.
    pub fn prepare(&self, cmd: &[String], prompt: &str) -> (out: Result<
        CommandRequest,
        DiscliError,
    >)
        ensures
            prepared_view(out) == command_request(views(cmd@), prompt@, self.timeout()),
    {
        if cmd.len() == 0 {
            return Err(DiscliError::Config(String::from_str("Empty command")));
        }
        let mut args: Vec<String> = Vec::new();
        let mut i: usize = 1;
        while i < cmd.len()
            invariant
                1 <= i <= cmd.len(),
                args@.len() == i - 1,
                forall|k: int| 0 <= k < args@.len() ==> args@[k]@ == cmd@[k + 1]@,
            decreases cmd.len() - i,
        {
            args.push(cmd[i].clone());
            i += 1;
        }
        assert(views(args@) =~= views(cmd@).subrange(1, cmd@.len() as int));
        Ok(
            CommandRequest {
                program: cmd[0].clone(),
                args,
                stdin: String::from_str(prompt),
                timeout_secs: self.timeout_secs,
            },
        )
    }

    /// The response that a run gave, or why there is none: a run that
    /// timed out, exited with a failure or could not be made.
    pub fn conclude(&self, outcome: CommandOutcome) -> (out: Result<String, DiscliError>)
        ensures
            response_view(out) == command_result(outcome),
    {
        match outcome {
            CommandOutcome::IoFailed(reason) => Err(DiscliError::Io(reason)),
            CommandOutcome::TimedOut => Err(
                DiscliError::Timeout(String::from_str("Command timed out")),
            ),
            CommandOutcome::Exited { success, stdout, stderr } => {
                if success {
                    Ok(decode_lossy(&stdout))
                } else {
                    let text = decode_lossy(&stderr);
                    Err(
                        DiscliError::Process(
                            String::from_str("Command failed: ").concat(text.as_str()),
                        ),
                    )
                }
            },
        }
    }
}

} // verus!
