//! External commands the tool asks its host to run, and their outcomes.
use vstd::prelude::*;

verus! {

/// A program to run with its arguments, its output captured.
pub struct Command {
    pub program: String,
    pub args: Vec<String>,
}

/// The mathematical content of a [`Command`].
pub struct CommandView {
    pub program: Seq<char>,
    pub args: Seq<Seq<char>>,
}

impl View for Command {
    type V = CommandView;

    open spec fn view(&self) -> CommandView {
        CommandView { program: self.program@, args: self.args.deep_view() }
    }
}

/// The `docker` command with the arguments `args`.
pub open spec fn docker(args: Seq<Seq<char>>) -> CommandView {
    CommandView { program: "docker"@, args }
}

/// The outcome of running a command.
pub enum Outcome {
    /// The command ran; `success` is whether it exited with status zero.
    Ran { success: bool, stdout: String, stderr: String },
    /// The command could not be started; `error` describes why.
    NotRun { error: String },
}

/// The mathematical content of an [`Outcome`].
pub enum OutcomeView {
    Ran { success: bool, stdout: Seq<char>, stderr: Seq<char> },
    NotRun { error: Seq<char> },
}

impl View for Outcome {
    type V = OutcomeView;

    open spec fn view(&self) -> OutcomeView {
        match self {
            Outcome::Ran { success, stdout, stderr } => OutcomeView::Ran {
                success: *success,
                stdout: stdout@,
                stderr: stderr@,
            },
            Outcome::NotRun { error } => OutcomeView::NotRun { error: error@ },
        }
    }
}

/// Whether a command ran and printed something on standard output, as the
/// existence checks judge it (a command that could not start counts as
/// having printed nothing).
pub open spec fn printed_something(o: OutcomeView) -> bool {
    match o {
        OutcomeView::Ran { stdout, .. } => stdout.len() > 0,
        OutcomeView::NotRun { .. } => false,
    }
}

impl Outcome {
    /// Whether the command ran and printed something on standard output.
    pub fn printed_something(&self) -> (r: bool)
        ensures
            r == printed_something(self@),
    {
        match self {
            Outcome::Ran { stdout, .. } => !stdout.as_str().is_empty(),
            Outcome::NotRun { .. } => false,
        }
    }
}

/// Appends the argument `a`.
pub fn arg(args: &mut Vec<String>, a: &str)
    ensures
        final(args).deep_view() == old(args).deep_view().push(a@),
{
    args.push(String::from_str(a));
    assert(args.deep_view() =~= old(args).deep_view().push(a@));
}

/// Appends the argument `a`.
pub fn arg_owned(args: &mut Vec<String>, a: String)
    ensures
        final(args).deep_view() == old(args).deep_view().push(a@),
{
    args.push(a);
    assert(args.deep_view() =~= old(args).deep_view().push(a@));
}

/// The command `docker` with `args`.
pub fn docker_with(args: Vec<String>) -> (c: Command)
    ensures
        c@ == docker(args.deep_view()),
{
    Command { program: String::from_str("docker"), args }
}

} // verus!
