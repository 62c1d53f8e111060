//! Commands: what their output means, and the order in which one is run.

use crate::sequence::Sequence;
use crate::text;
use vstd::prelude::*;
use vstd::string::*;

verus! {

/// A command to run. The passphrase, where there is one, goes to its standard
/// input and is no part of the command.
pub struct CommandLine {
    pub program: String,
    pub args: Vec<String>,
    pub passphrase_on_stdin: bool,
}

/// The texts of a command.
#[verifier::ext_equal]
pub struct CommandLineView {
    pub program: Seq<char>,
    pub args: Seq<Seq<char>>,
    pub passphrase_on_stdin: bool,
}

impl View for CommandLine {
    type V = CommandLineView;

    open spec fn view(&self) -> CommandLineView {
        CommandLineView {
            program: self.program@,
            args: text::texts(self.args@),
            passphrase_on_stdin: self.passphrase_on_stdin,
        }
    }
}

/// What a command that has ended leaves behind.
pub struct CommandOutput {
    pub success: bool,
    pub stdout: Vec<u8>,
    pub stderr: Vec<u8>,
}

/// Why a command did not do its work.
pub enum CommandError {
    /// No such command is installed, and why the search for it failed.
    NotFound { command: String, cause: String },
    /// The command takes no input, and there is some.
    NoStdin,
    /// The command could not be started, written to or waited for.
    Io { cause: String },
    /// The command ended without success.
    Failed { message: String },
}

/// The list of arguments as Rust's pretty debug format shows it.
pub uninterp spec fn pretty_list(args: Seq<Seq<char>>) -> Seq<char>;

/// The `{:#?}` format of std: the list of arguments as it shows it. How it
/// escapes and lays out the arguments is not stated, only that it depends on
/// nothing but their texts.
#[verifier::external_body]
fn format_pretty(args: &Vec<String>) -> (r: String)
    ensures
        r@ == pretty_list(text::texts(args@)),
{
    format!("{args:#?}")
}

/// What is reported of a command that ended without success.
pub open spec fn failure_message(
    command: Seq<char>,
    args: Seq<char>,
    stdout: Seq<char>,
    stderr: Seq<char>,
) -> Seq<char> {
    "Failed to run command "@ + command + " with args: "@ + args + "\nstdout: "@ + stdout
        + "\nstderr: "@ + stderr
}

/// Whether `r` is what a command that wrote the texts `stdout` and `stderr` comes
/// to: the two texts with a tab after every line feed, or the error that shows
/// them together with the command.
pub open spec fn is_command_result(
    command: Seq<char>,
    args: Seq<char>,
    success: bool,
    stdout: Seq<char>,
    stderr: Seq<char>,
    r: Result<(String, String), CommandError>,
) -> bool {
    match r {
        Ok((out, err)) => {
            &&& success
            &&& out@ == text::indented(stdout)
            &&& err@ == text::indented(stderr)
        },
        Err(CommandError::Failed { message }) => {
            &&& !success
            &&& message@ == failure_message(
                command,
                args,
                text::indented(stdout),
                text::indented(stderr),
            )
        },
        Err(_) => false,
    }
}

/// What a command comes to, given how its arguments are shown, how it ended and
/// the texts that it wrote.
pub fn command_result(
    command: &str,
    args: &str,
    success: bool,
    stdout: &str,
    stderr: &str,
) -> (r: Result<(String, String), CommandError>)
    ensures
        is_command_result(command@, args@, success, stdout@, stderr@, r),
{
    let stdout = text::indent_lines(stdout);
    let stderr = text::indent_lines(stderr);
    if !success {
        let mut message = text::joined("Failed to run command ", command);
        message.append(" with args: ");
        message.append(args);
        message.append("\nstdout: ");
        message.append(stdout.as_str());
        message.append("\nstderr: ");
        message.append(stderr.as_str());
        return Err(CommandError::Failed { message });
    }
    Ok((stdout, stderr))
}

/// Reads what a command left behind: its standard output and standard error, each
/// with its continuation lines indented, or the error that shows them.
pub fn run_command(command: &str, args: &Vec<String>, output: &CommandOutput) -> (r: Result<
    (String, String),
    CommandError,
>)
    ensures
        is_command_result(
            command@,
            pretty_list(text::texts(args@)),
            output.success,
            text::utf8_lossy(output.stdout@),
            text::utf8_lossy(output.stderr@),
            r,
        ),
{
    let shown = format_pretty(args);
    let stdout = text::text_of_bytes(output.stdout.as_slice());
    let stderr = text::text_of_bytes(output.stderr.as_slice());
    command_result(command, shown.as_str(), output.success, stdout.as_str(), stderr.as_str())
}

/// One step of running a command.
#[derive(Clone, Copy, PartialEq, Eq, Debug, Structural)]
pub enum CommandStep {
    /// Find the command.
    Locate,
    /// Let the child keep one open file.
    InheritFile,
    /// Start the child with its three standard streams piped.
    Spawn,
    /// Take the child's standard input.
    TakeStdin,
    /// Write the input and flush it.
    WriteInputs,
    /// Wait for the child and collect what it wrote.
    Wait,
}

/// The steps of running a command.
pub open spec fn command_steps(has_inputs: bool, inherits_file: bool) -> Seq<CommandStep> {
    seq![CommandStep::Locate] + (if inherits_file {
        seq![CommandStep::InheritFile]
    } else {
        Seq::empty()
    }) + seq![CommandStep::Spawn] + (if has_inputs {
        seq![CommandStep::TakeStdin, CommandStep::WriteInputs]
    } else {
        Seq::empty()
    }) + seq![CommandStep::Wait]
}

/// The steps of running a command: without input the child's standard input is
/// left alone.
pub fn run_command_steps(has_inputs: bool, inherits_file: bool) -> (r: Sequence<CommandStep>)
    ensures
        r@ == crate::sequence::SequenceView::start(command_steps(has_inputs, inherits_file)),
{
    let mut steps: Vec<CommandStep> = Vec::new();
    steps.push(CommandStep::Locate);
    if inherits_file {
        steps.push(CommandStep::InheritFile);
    }
    steps.push(CommandStep::Spawn);
    if has_inputs {
        steps.push(CommandStep::TakeStdin);
        steps.push(CommandStep::WriteInputs);
    }
    steps.push(CommandStep::Wait);
    assert(steps@ =~= command_steps(has_inputs, inherits_file));
    Sequence::new(steps)
}

/// The error of a step that failed with `cause`.
pub fn command_step_error(step: CommandStep, command: &str, cause: String) -> (r: CommandError)
    ensures
        match step {
            CommandStep::Locate => r matches CommandError::NotFound { command: c, cause: why } && c@
                == command@ && why == cause,
            CommandStep::TakeStdin => r is NoStdin,
            _ => r == (CommandError::Io { cause }),
        },
{
    match step {
        CommandStep::Locate => CommandError::NotFound { command: command.to_owned(), cause },
        CommandStep::TakeStdin => CommandError::NoStdin,
        _ => CommandError::Io { cause },
    }
}

/// The text of an error.
pub open spec fn command_error_text(e: CommandError) -> Seq<char> {
    match e {
        CommandError::NotFound { command, .. } => "command `"@ + command@ + "` not found"@,
        CommandError::NoStdin =>
            "Failed to get stdin from the command thus failed to write inputs to the command"@,
        CommandError::Io { cause } => cause@,
        CommandError::Failed { message } => message@,
    }
}

/// The text of an error and those of its causes, the outermost first.
pub open spec fn command_error_chain(e: CommandError) -> Seq<Seq<char>> {
    match e {
        CommandError::NotFound { cause, .. } => seq![command_error_text(e), cause@],
        _ => seq![command_error_text(e)],
    }
}

impl CommandError {
    /// The text of the error and those of its causes, the outermost first.
    pub fn chain(&self) -> (r: Vec<String>)
        ensures
            text::texts(r@) == command_error_chain(*self),
    {
        let message = self.message();
        let mut r = text::one_text(message.as_str());
        if let CommandError::NotFound { cause, .. } = self {
            text::add_text(&mut r, cause.as_str());
            assert(text::texts(r@) =~= command_error_chain(*self));
        }
        r
    }

    /// The text of the error.
    pub fn message(&self) -> (r: String)
        ensures
            r@ == command_error_text(*self),
    {
        match self {
            CommandError::NotFound { command, .. } => {
                let mut r = text::joined("command `", command.as_str());
                r.append("` not found");
                r
            },
            CommandError::NoStdin =>
                "Failed to get stdin from the command thus failed to write inputs to the command".to_owned(),
            CommandError::Io { cause } => cause.clone(),
            CommandError::Failed { message } => message.clone(),
        }
    }
}

/// What is said of a command depends on nothing but the command, its arguments and
/// what it wrote: a passphrase, which goes to its standard input, is never shown.
pub proof fn law_result_tells_only_command_and_output(
    command: Seq<char>,
    args: Seq<char>,
    success: bool,
    stdout: Seq<char>,
    stderr: Seq<char>,
    a: Result<(String, String), CommandError>,
    b: Result<(String, String), CommandError>,
)
    requires
        is_command_result(command, args, success, stdout, stderr, a),
        is_command_result(command, args, success, stdout, stderr, b),
    ensures
        match (a, b) {
            (Ok(x), Ok(y)) => x.0@ == y.0@ && x.1@ == y.1@,
            (Err(x), Err(y)) => command_error_text(x) == command_error_text(y),
            _ => false,
        },
{
}

/// The flags with which a file stays open in a child: `flags` without the bit that
/// closes it when another program is executed. There are none where reading the
/// flags failed, which minus one tells.
pub fn inheritable_fd_flags(flags: i32) -> (r: Option<i32>)
    ensures
        match r {
            Some(kept) => {
                &&& flags != -1
                &&& kept & 1 == 0
                &&& kept | 1 == flags | 1
            },
            None => flags == -1,
        },
{
    if flags == -1 {
        return None;
    }
    let kept = flags & !1i32;
    assert(kept & 1 == 0 && kept | 1 == flags | 1) by (bit_vector)
        requires
            kept == flags & !1i32,
    ;
    Some(kept)
}

/// A loop device that a temporary file backs.
pub struct TempFileLoopDevice {
    loop_path: String,
}

impl TempFileLoopDevice {
    /// The path of the device.
    pub closed spec fn view(&self) -> Seq<char> {
        self.loop_path@
    }

    /// The arguments with which `losetup` attaches the file at `path` to the first
    /// free device and shows its path.
    pub fn attach_args(path: &str) -> (r: Vec<String>)
        ensures
            text::texts(r@) == seq!["--find"@, "--show"@, path@],
    {
        let mut r: Vec<String> = Vec::new();
        r.push("--find".to_owned());
        r.push("--show".to_owned());
        r.push(path.to_owned());
        assert(text::texts(r@) =~= seq!["--find"@, "--show"@, path@]);
        r
    }

    /// The device whose path `losetup` wrote.
    pub fn new(stdout: &str) -> (r: Self)
        ensures
            text::is_trimmed(stdout@, r@),
    {
        TempFileLoopDevice { loop_path: text::trim(stdout) }
    }

    pub fn dev_path(&self) -> (r: &str)
        ensures
            r@ == self@,
    {
        self.loop_path.as_str()
    }

    /// The arguments with which `losetup` detaches the device.
    pub fn detach_args(&self) -> (r: Vec<String>)
        ensures
            text::texts(r@) == seq!["-d"@, self@],
    {
        let mut r: Vec<String> = Vec::new();
        r.push("-d".to_owned());
        r.push(self.loop_path.clone());
        assert(text::texts(r@) =~= seq!["-d"@, self@]);
        r
    }
}

/// The device path that `losetup` writes on a line of its own is found again
/// in its output as it is read.
pub proof fn law_loop_path_survives_reading(path: Seq<char>, found: Seq<char>)
    requires
        path.len() > 0,
        forall|i: int| 0 <= i < path.len() ==> !text::is_white_space(path[i]),
        text::is_trimmed(text::indented(path.push('\n')), found),
    ensures
        found == path,
{
    let line = path.push('\n');
    lemma_indented_without_line_feed(path);
    assert(line.drop_last() =~= path);
    let read = text::indented(line);
    assert(read =~= path + seq!['\n', '\t']);
    assert(text::is_trim_range(read, 0, path.len() as int));
    assert(read.subrange(0, path.len() as int) =~= path);
    text::lemma_trimmed_unique(read, found, path);
}

proof fn lemma_indented_without_line_feed(s: Seq<char>)
    requires
        forall|i: int| 0 <= i < s.len() ==> s[i] != '\n',
    ensures
        text::indented(s) == s,
    decreases s.len(),
{
    if s.len() > 0 {
        lemma_indented_without_line_feed(s.drop_last());
        assert(s.drop_last().push(s.last()) =~= s);
    }
}

} // verus!
