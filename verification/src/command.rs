//! Commands that the host runs on the library's behalf, what came of them,
//! and what the library asks the host to do next.
use vstd::prelude::*;

verus! {

/// The operating system that the host runs on, as far as the library's
/// choices depend on it.
#[derive(Clone, Copy, PartialEq, Eq, Structural)]
pub enum TargetOs {
    Windows,
    Linux,
    /// macOS and the other systems.
    Other,
}

/// A program and its arguments.
pub struct CommandLine {
    pub program: String,
    pub args: Vec<String>,
}

/// A command line as text.
#[verifier::ext_equal]
pub ghost struct CommandLineView {
    pub program: Seq<char>,
    pub args: Seq<Seq<char>>,
}

/// The texts of a sequence of strings.
pub open spec fn string_views(v: Seq<String>) -> Seq<Seq<char>> {
    v.map_values(|s: String| s@)
}

impl View for CommandLine {
    type V = CommandLineView;

    open spec fn view(&self) -> CommandLineView {
        CommandLineView { program: self.program@, args: string_views(self.args@) }
    }
}

/// The command line `program` with the arguments `args`.
pub open spec fn command_view(program: Seq<char>, args: Seq<Seq<char>>) -> CommandLineView {
    CommandLineView { program, args }
}

/// Builds a command line.
pub fn command_line(program: &str, args: Vec<String>) -> (r: CommandLine)
    ensures
        r@ == command_view(program@, string_views(args@)),
{
    CommandLine { program: String::from_str(program), args }
}

/// The list of the two texts `a` and `b`.
pub fn args2(a: String, b: String) -> (r: Vec<String>)
    ensures
        string_views(r@) == seq![a@, b@],
{
    let r = vec![a, b];
    assert(string_views(r@) =~= seq![a@, b@]);
    r
}

/// The list of the three texts `a`, `b` and `c`.
pub fn args3(a: String, b: String, c: String) -> (r: Vec<String>)
    ensures
        string_views(r@) == seq![a@, b@, c@],
{
    let r = vec![a, b, c];
    assert(string_views(r@) =~= seq![a@, b@, c@]);
    r
}

/// The list of the four texts `a` to `d`.
pub fn args4(a: String, b: String, c: String, d: String) -> (r: Vec<String>)
    ensures
        string_views(r@) == seq![a@, b@, c@, d@],
{
    let r = vec![a, b, c, d];
    assert(string_views(r@) =~= seq![a@, b@, c@, d@]);
    r
}

/// What came of running a command.
pub enum CommandOutcome {
    /// The command ran: whether it exited with success, and what it
    /// printed on its standard output.
    Finished { success: bool, stdout: Vec<u8> },
    /// The command could not be started; the message of the error.
    NotStarted { error: String },
}

/// What came of a command, as plain values.
#[verifier::ext_equal]
pub ghost enum OutcomeView {
    Finished { success: bool, stdout: Seq<u8> },
    NotStarted { error: Seq<char> },
}

impl View for CommandOutcome {
    type V = OutcomeView;

    open spec fn view(&self) -> OutcomeView {
        match self {
            CommandOutcome::Finished { success, stdout } => OutcomeView::Finished {
                success: *success,
                stdout: stdout@,
            },
            CommandOutcome::NotStarted { error } => OutcomeView::NotStarted { error: error@ },
        }
    }
}

/// What the host is to do next on behalf of a procedure that alternates
/// commands and decisions.
pub enum Action {
    /// Wait `wait_ms` milliseconds, run `command`, and report what came of it.
    Run { wait_ms: u64, command: CommandLine },
    /// Wait `wait_ms` milliseconds, send `event` (its name and its payload)
    /// to the user interface where there is one, and end with `result`.
    Finish { wait_ms: u64, event: Option<(String, String)>, result: Result<String, String> },
    /// The procedure fails outright: the output it was given is one that it
    /// cannot cut where it expects to (a line that is too short).
    Abort,
}

/// An action as plain values.
#[verifier::ext_equal]
pub ghost enum ActionView {
    Run { wait_ms: u64, command: CommandLineView },
    Finish {
        wait_ms: u64,
        event: Option<(Seq<char>, Seq<char>)>,
        result: Result<Seq<char>, Seq<char>>,
    },
    Abort,
}

/// The texts of an optional event.
pub open spec fn event_view(e: Option<(String, String)>) -> Option<(Seq<char>, Seq<char>)> {
    match e {
        Some((n, p)) => Some((n@, p@)),
        None => None,
    }
}

/// The texts of a result.
pub open spec fn result_view(r: Result<String, String>) -> Result<Seq<char>, Seq<char>> {
    match r {
        Ok(m) => Ok(m@),
        Err(m) => Err(m@),
    }
}

impl View for Action {
    type V = ActionView;

    open spec fn view(&self) -> ActionView {
        match self {
            Action::Run { wait_ms, command } => ActionView::Run {
                wait_ms: *wait_ms,
                command: command@,
            },
            Action::Finish { wait_ms, event, result } => ActionView::Finish {
                wait_ms: *wait_ms,
                event: event_view(*event),
                result: result_view(*result),
            },
            Action::Abort => ActionView::Abort,
        }
    }
}

/// The message of a procedure that failed outright (its work stopped
/// before it could give a result), with what stopped it.
pub fn task_error(detail: &str) -> (r: String)
    ensures
        r@ == "Ошибка запуска задачи: "@ + detail@,
{
    crate::text::concat2("Ошибка запуска задачи: ", detail)
}

} // verus!
