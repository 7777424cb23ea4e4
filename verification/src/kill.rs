//! Closing ports: the cascades of commands by which the process that owns a
//! port is stopped. Each cascade is a state machine: the host runs the
//! command that the machine names, hands back what came of it, and gets the
//! next action.
use vstd::prelude::*;
use crate::command::{
    args2, args3, args4, command_line, command_view, Action, ActionView, CommandLineView,
    CommandOutcome, OutcomeView,
};
use crate::command::TargetOs;
use crate::text::{
    concat2, concat3, concat4, contains, contains_str, eq_str, first_index, from_chars,
    lines, lowercase, slice_chars, split_lines, to_chars, to_lowercase, to_uppercase, trim,
    trim_chars, uppercase, utf8_lossy, utf8_lossy_decoding,
};

verus! {

// ---------------------------------------------------------------------------
// Closing a process
// ---------------------------------------------------------------------------

/// The ways of stopping a process, from the mildest to the most forceful.
#[derive(Clone, Copy, PartialEq, Eq, Structural)]
pub enum KillLevel {
    /// `taskkill /PID` (`kill`).
    Standard,
    /// `taskkill /F /PID` (`kill -9`).
    Forced,
    /// `taskkill /F /PID .. /T`, the process with its children.
    Tree,
    /// `Stop-Process` from an elevated PowerShell (Windows only).
    Elevated,
    /// The `Terminate` method of the process's WMI object (Windows only).
    Wmi,
}

/// Where the cascade that closes a process stands.
#[derive(Clone, Copy, PartialEq, Eq, Structural)]
pub enum CloseStage {
    /// The process list is read for the process's name.
    LookupName,
    /// The command of a level is running.
    Attempt(KillLevel),
    /// The children of the process are being signalled (not on Windows),
    /// before the tree level.
    SignalChildren,
    /// The process list is being read to see whether a level worked.
    Verify(KillLevel),
    /// The cascade has ended.
    Done,
}

/// The cascade that closes the process that owns a port.
pub struct ClosePort {
    pub pid: String,
    pub is_windows: bool,
    pub stage: CloseStage,
}

/// The cascade's state as plain values.
#[verifier::ext_equal]
pub ghost struct ClosePortView {
    pub pid: Seq<char>,
    pub is_windows: bool,
    pub stage: CloseStage,
}

impl View for ClosePort {
    type V = ClosePortView;

    open spec fn view(&self) -> ClosePortView {
        ClosePortView { pid: self.pid@, is_windows: self.is_windows, stage: self.stage }
    }
}

/// The system processes (the idle process and the kernel), which are never
/// closed.
pub open spec fn is_protected_pid(pid: Seq<char>) -> bool {
    pid == "0"@ || pid == "4"@
}

/// The command of a level.
pub open spec fn kill_command(pid: Seq<char>, is_windows: bool, l: KillLevel) -> CommandLineView {
    match l {
        KillLevel::Standard => if is_windows {
            command_view("taskkill"@, seq!["/PID"@, pid])
        } else {
            command_view("kill"@, seq![pid])
        },
        KillLevel::Forced => if is_windows {
            command_view("taskkill"@, seq!["/F"@, "/PID"@, pid])
        } else {
            command_view("kill"@, seq!["-9"@, pid])
        },
        KillLevel::Tree => if is_windows {
            command_view("taskkill"@, seq!["/F"@, "/PID"@, pid, "/T"@])
        } else {
            command_view("kill"@, seq!["-9"@, pid])
        },
        KillLevel::Elevated => command_view(
            "powershell"@,
            seq![
                "-Command"@,
                "Start-Process powershell -Verb RunAs -WindowStyle Hidden -ArgumentList '-Command \"Stop-Process -Id "@
                    + pid + " -Force -ErrorAction SilentlyContinue\"'"@,
            ],
        ),
        KillLevel::Wmi => command_view(
            "powershell"@,
            seq![
                "-Command"@,
                "(Get-WmiObject Win32_Process -Filter \"ProcessId = "@ + pid + "\").Terminate()"@,
            ],
        ),
    }
}

/// The command that signals the children of a process (`pkill -TERM -P`).
pub open spec fn signal_children_command(pid: Seq<char>) -> CommandLineView {
    command_view("pkill"@, seq!["-TERM"@, "-P"@, pid])
}

/// The command that lists the process, to see whether it still runs.
pub open spec fn process_check_command(pid: Seq<char>) -> CommandLineView {
    command_view("tasklist"@, seq!["/FI"@, "PID eq "@ + pid, "/NH"@])
}

/// How long the process is given to end before the check: half a second
/// after `taskkill` or `kill`, a second after PowerShell.
pub open spec fn verify_wait(l: KillLevel) -> u64 {
    match l {
        KillLevel::Elevated | KillLevel::Wmi => 1000,
        _ => 500,
    }
}

/// Whether the command of a level did its part: it exited with success,
/// or, for the PowerShell levels, it could be started at all.
pub open spec fn attempt_worked(l: KillLevel, o: OutcomeView) -> bool {
    match o {
        OutcomeView::Finished { success, .. } => success || l == KillLevel::Elevated || l
            == KillLevel::Wmi,
        OutcomeView::NotStarted { .. } => false,
    }
}

/// The stage after a level that failed: the next level, the signal to the
/// children before the tree level where that is not Windows, or none after
/// the last level of the platform.
pub open spec fn next_stage(l: KillLevel, is_windows: bool) -> Option<CloseStage> {
    match l {
        KillLevel::Standard => Some(CloseStage::Attempt(KillLevel::Forced)),
        KillLevel::Forced => if is_windows {
            Some(CloseStage::Attempt(KillLevel::Tree))
        } else {
            Some(CloseStage::SignalChildren)
        },
        KillLevel::Tree => if is_windows {
            Some(CloseStage::Attempt(KillLevel::Elevated))
        } else {
            None
        },
        KillLevel::Elevated => Some(CloseStage::Attempt(KillLevel::Wmi)),
        KillLevel::Wmi => None,
    }
}

/// The message when the check shows that a level closed the process.
pub open spec fn confirmed_message(pid: Seq<char>, l: KillLevel) -> Seq<char> {
    "Процесс "@ + pid + match l {
        KillLevel::Standard => " успешно закрыт"@,
        KillLevel::Forced => " принудительно закрыт"@,
        KillLevel::Tree => " принудительно закрыт вместе с дочерними"@,
        KillLevel::Elevated => " завершен через PowerShell с повышенными привилегиями"@,
        KillLevel::Wmi => " завершен через WMI"@,
    }
}

/// The message when a level worked but the check could not be run.
pub open spec fn assumed_message(pid: Seq<char>, l: KillLevel) -> Seq<char> {
    "Процесс "@ + pid + match l {
        KillLevel::Standard => " предположительно закрыт"@,
        KillLevel::Forced => " предположительно принудительно закрыт"@,
        KillLevel::Tree => " предположительно принудительно закрыт вместе с дочерними"@,
        KillLevel::Elevated => " предположительно завершен через PowerShell с повышенными привилегиями"@,
        KillLevel::Wmi => " предположительно завершен через WMI"@,
    }
}

/// The message when every level has failed.
pub open spec fn give_up_message(pid: Seq<char>) -> Seq<char> {
    "Не удалось закрыть процесс "@ + pid + " даже используя все доступные методы"@
}

/// The message when a system process was asked to be closed.
pub open spec fn protected_message() -> Seq<char> {
    "Невозможно закрыть системный процесс"@
}

/// Whether the process list names the process.
pub open spec fn still_listed(listing: Seq<char>, pid: Seq<char>) -> bool {
    contains(listing, pid)
}

/// The state `s` at another stage.
pub open spec fn at_stage(s: ClosePortView, stage: CloseStage) -> ClosePortView {
    ClosePortView { stage, ..s }
}

/// The end of the cascade with the event sent to the user interface and a
/// result.
pub open spec fn finish_view(event: Seq<char>, pid: Seq<char>, result: Result<Seq<char>, Seq<char>>) -> ActionView {
    ActionView::Finish { wait_ms: 0, event: Some((event, pid)), result }
}

/// What follows a level that failed.
pub open spec fn close_port_advance(s: ClosePortView, l: KillLevel) -> (ClosePortView, ActionView) {
    match next_stage(l, s.is_windows) {
        Some(CloseStage::Attempt(m)) => (
            at_stage(s, CloseStage::Attempt(m)),
            ActionView::Run { wait_ms: 0, command: kill_command(s.pid, s.is_windows, m) },
        ),
        Some(_) => (
            at_stage(s, CloseStage::SignalChildren),
            ActionView::Run { wait_ms: 0, command: signal_children_command(s.pid) },
        ),
        None => (
            at_stage(s, CloseStage::Done),
            finish_view("port-close-error"@, s.pid, Err(give_up_message(s.pid))),
        ),
    }
}

/// The first step of the cascade for the process `pid`.
pub open spec fn close_port_begin(pid: Seq<char>, is_windows: bool) -> (ClosePortView, ActionView) {
    let s = ClosePortView { pid, is_windows, stage: CloseStage::Done };
    if is_protected_pid(pid) {
        (s, ActionView::Finish { wait_ms: 0, event: None, result: Err(protected_message()) })
    } else {
        (
            at_stage(s, CloseStage::LookupName),
            ActionView::Run { wait_ms: 0, command: name_lookup_command(pid, is_windows) },
        )
    }
}

/// The step of the cascade from the state `s` on the outcome `o` of the
/// command it ran.
pub open spec fn close_port_next(s: ClosePortView, o: OutcomeView) -> (ClosePortView, ActionView) {
    match s.stage {
        CloseStage::LookupName => match looked_up_name(s.is_windows, o) {
            Some(_) => (
                at_stage(s, CloseStage::Attempt(KillLevel::Standard)),
                ActionView::Run {
                    wait_ms: 0,
                    command: kill_command(s.pid, s.is_windows, KillLevel::Standard),
                },
            ),
            None => (at_stage(s, CloseStage::Done), ActionView::Abort),
        },
        CloseStage::Attempt(l) => if attempt_worked(l, o) {
            (
                at_stage(s, CloseStage::Verify(l)),
                ActionView::Run { wait_ms: verify_wait(l), command: process_check_command(s.pid) },
            )
        } else {
            close_port_advance(s, l)
        },
        CloseStage::SignalChildren => (
            at_stage(s, CloseStage::Attempt(KillLevel::Tree)),
            ActionView::Run {
                wait_ms: 0,
                command: kill_command(s.pid, s.is_windows, KillLevel::Tree),
            },
        ),
        CloseStage::Verify(l) => match o {
            OutcomeView::Finished { stdout, .. } => if !still_listed(
                utf8_lossy_decoding(stdout),
                s.pid,
            ) {
                (
                    at_stage(s, CloseStage::Done),
                    finish_view("port-closed"@, s.pid, Ok(confirmed_message(s.pid, l))),
                )
            } else {
                close_port_advance(s, l)
            },
            OutcomeView::NotStarted { .. } => (
                at_stage(s, CloseStage::Done),
                finish_view("port-closed"@, s.pid, Ok(assumed_message(s.pid, l))),
            ),
        },
        CloseStage::Done => (s, ActionView::Abort),
    }
}

/// The order of the stages: every step of the cascade moves to a later one.
pub open spec fn stage_order(st: CloseStage) -> int {
    match st {
        CloseStage::LookupName => 0,
        CloseStage::Attempt(l) => 4 * level_order(l),
        CloseStage::SignalChildren => 11,
        CloseStage::Verify(l) => 4 * level_order(l) + 2,
        CloseStage::Done => 100,
    }
}

/// The levels in the order in which they are tried.
pub open spec fn level_order(l: KillLevel) -> int {
    match l {
        KillLevel::Standard => 1,
        KillLevel::Forced => 2,
        KillLevel::Tree => 3,
        KillLevel::Elevated => 4,
        KillLevel::Wmi => 5,
    }
}

/// The cascade ends: from any stage but the last, each step moves to a
/// later stage, and there are finitely many.
pub proof fn lemma_close_port_progress(s: ClosePortView, o: OutcomeView)
    requires
        s.stage != CloseStage::Done,
    ensures
        stage_order(close_port_next(s, o).0.stage) > stage_order(s.stage),
        stage_order(close_port_next(s, o).0.stage) <= 100,
        close_port_next(s, o).0.stage == CloseStage::Done <==> !(close_port_next(s, o).1 is Run),
        close_port_next(s, o).0.pid == s.pid,
{
}

/// A level whose command exits with success is not passed over: the
/// cascade next reads the process list (half a second later after
/// `taskkill` or `kill`, a second later after PowerShell) to see whether
/// that same level closed the process; it does not go on to a harsher
/// level first.
pub proof fn lemma_successful_level_is_checked(s: ClosePortView, l: KillLevel, stdout: Seq<u8>)
    requires
        s.stage == CloseStage::Attempt(l),
    ensures
        close_port_next(s, OutcomeView::Finished { success: true, stdout }).0 == (ClosePortView {
            stage: CloseStage::Verify(l),
            ..s
        }),
        close_port_next(s, OutcomeView::Finished { success: true, stdout }).1 == (ActionView::Run {
            wait_ms: if l == KillLevel::Elevated || l == KillLevel::Wmi {
                1000
            } else {
                500
            },
            command: command_view("tasklist"@, seq!["/FI"@, "PID eq "@ + s.pid, "/NH"@]),
        }),
{
}

/// A level that did not do its part (its command could not be started,
/// or `taskkill`/`kill` exited with failure) never ends the cascade in
/// success: the cascade goes on to a harsher level (through the signal to
/// the children before the tree level where that is not Windows), or,
/// after the last level, gives up with an error.
pub proof fn lemma_failed_level_escalates(s: ClosePortView, l: KillLevel, o: OutcomeView)
    requires
        s.stage == CloseStage::Attempt(l),
        o is NotStarted || (o matches OutcomeView::Finished { success: false, .. } && l
            != KillLevel::Elevated && l != KillLevel::Wmi),
    ensures
        !(close_port_next(s, o).1 matches ActionView::Finish { result: Ok(_), .. }),
        close_port_next(s, o).0.stage matches CloseStage::Attempt(m) ==> level_order(m) > level_order(l),
        close_port_next(s, o).0.stage is SignalChildren ==> l == KillLevel::Forced && !s.is_windows,
        !(close_port_next(s, o).0.stage is Verify),
{
}

/// The check after a level decides the report: a process list that no
/// longer names the process ends the cascade with that level's success
/// and the `port-closed` event for the process; a list that still names it
/// never ends in success.
pub proof fn lemma_checked_level_reports(s: ClosePortView, l: KillLevel, success: bool, stdout: Seq<u8>)
    requires
        s.stage == CloseStage::Verify(l),
    ensures
        !contains(utf8_lossy_decoding(stdout), s.pid) ==> close_port_next(
            s,
            OutcomeView::Finished { success, stdout },
        ).1 == (ActionView::Finish {
            wait_ms: 0,
            event: Some(("port-closed"@, s.pid)),
            result: Ok(confirmed_message(s.pid, l)),
        }),
        contains(utf8_lossy_decoding(stdout), s.pid) ==> !(close_port_next(
            s,
            OutcomeView::Finished { success, stdout },
        ).1 matches ActionView::Finish { result: Ok(_), .. }),
{
}

/// A command line from its parts.
fn kill_command_exec(pid: &str, is_windows: bool, l: KillLevel) -> (r: crate::command::CommandLine)
    ensures
        r@ == kill_command(pid@, is_windows, l),
{
    let p = String::from_str(pid);
    match l {
        KillLevel::Standard => if is_windows {
            command_line("taskkill", args2(String::from_str("/PID"), p))
        } else {
            command_line("kill", vec_of_one(p))
        },
        KillLevel::Forced => if is_windows {
            command_line("taskkill", args3(String::from_str("/F"), String::from_str("/PID"), p))
        } else {
            command_line("kill", args2(String::from_str("-9"), p))
        },
        KillLevel::Tree => if is_windows {
            command_line(
                "taskkill",
                args4(String::from_str("/F"), String::from_str("/PID"), p, String::from_str("/T")),
            )
        } else {
            command_line("kill", args2(String::from_str("-9"), p))
        },
        KillLevel::Elevated => command_line(
            "powershell",
            args2(
                String::from_str("-Command"),
                concat3(
                    "Start-Process powershell -Verb RunAs -WindowStyle Hidden -ArgumentList '-Command \"Stop-Process -Id ",
                    pid,
                    " -Force -ErrorAction SilentlyContinue\"'",
                ),
            ),
        ),
        KillLevel::Wmi => command_line(
            "powershell",
            args2(
                String::from_str("-Command"),
                concat3("(Get-WmiObject Win32_Process -Filter \"ProcessId = ", pid, "\").Terminate()"),
            ),
        ),
    }
}

/// The list of the one text `a`.
fn vec_of_one(a: String) -> (r: Vec<String>)
    ensures
        crate::command::string_views(r@) == seq![a@],
{
    let r = vec![a];
    assert(crate::command::string_views(r@) =~= seq![a@]);
    r
}

/// The command that lists the process `pid`.
pub fn process_check_command_exec(pid: &str) -> (r: crate::command::CommandLine)
    ensures
        r@ == process_check_command(pid@),
{
    command_line(
        "tasklist",
        args3(String::from_str("/FI"), concat2("PID eq ", pid), String::from_str("/NH")),
    )
}

/// Whether the process list `listing` names the process `pid`.
pub fn process_still_listed(listing: &str, pid: &str) -> (r: bool)
    ensures
        r == still_listed(listing@, pid@),
{
    let l = to_chars(listing);
    contains_str(&l, pid)
}

/// The message of a level that closed the process.
fn confirmed_message_exec(pid: &str, l: KillLevel) -> (r: String)
    ensures
        r@ == confirmed_message(pid@, l),
{
    let tail = match l {
        KillLevel::Standard => " успешно закрыт",
        KillLevel::Forced => " принудительно закрыт",
        KillLevel::Tree => " принудительно закрыт вместе с дочерними",
        KillLevel::Elevated => " завершен через PowerShell с повышенными привилегиями",
        KillLevel::Wmi => " завершен через WMI",
    };
    concat3("Процесс ", pid, tail)
}

/// The message of a level that worked when the check could not run.
fn assumed_message_exec(pid: &str, l: KillLevel) -> (r: String)
    ensures
        r@ == assumed_message(pid@, l),
{
    let tail = match l {
        KillLevel::Standard => " предположительно закрыт",
        KillLevel::Forced => " предположительно принудительно закрыт",
        KillLevel::Tree => " предположительно принудительно закрыт вместе с дочерними",
        KillLevel::Elevated => " предположительно завершен через PowerShell с повышенными привилегиями",
        KillLevel::Wmi => " предположительно завершен через WMI",
    };
    concat3("Процесс ", pid, tail)
}

impl ClosePort {
    /// Starts closing the process `pid`: a system process is refused;
    /// for any other the process list is read for its name first.
    pub fn begin(pid: &str, is_windows: bool) -> (r: (ClosePort, Action))
        ensures
            (r.0@, r.1@) == close_port_begin(pid@, is_windows),
    {
        let protected = {
            let c = to_chars(pid);
            crate::text::eq_str(&c, "0") || crate::text::eq_str(&c, "4")
        };
        if protected {
            (
                ClosePort { pid: String::from_str(pid), is_windows, stage: CloseStage::Done },
                Action::Finish {
                    wait_ms: 0,
                    event: None,
                    result: Err(String::from_str("Невозможно закрыть системный процесс")),
                },
            )
        } else {
            let cmd = name_lookup_command_exec(pid, is_windows);
            (
                ClosePort { pid: String::from_str(pid), is_windows, stage: CloseStage::LookupName },
                Action::Run { wait_ms: 0, command: cmd },
            )
        }
    }

    /// What follows a level that failed.
    fn advance(&mut self, l: KillLevel) -> (a: Action)
        ensures
            (final(self)@, a@) == close_port_advance(old(self)@, l),
    {
        match l {
            KillLevel::Standard => {
                self.stage = CloseStage::Attempt(KillLevel::Forced);
                Action::Run {
                    wait_ms: 0,
                    command: kill_command_exec(self.pid.as_str(), self.is_windows, KillLevel::Forced),
                }
            },
            KillLevel::Forced => if self.is_windows {
                self.stage = CloseStage::Attempt(KillLevel::Tree);
                Action::Run {
                    wait_ms: 0,
                    command: kill_command_exec(self.pid.as_str(), self.is_windows, KillLevel::Tree),
                }
            } else {
                self.stage = CloseStage::SignalChildren;
                let p = String::from_str(self.pid.as_str());
                Action::Run {
                    wait_ms: 0,
                    command: command_line(
                        "pkill",
                        args3(String::from_str("-TERM"), String::from_str("-P"), p),
                    ),
                }
            },
            KillLevel::Elevated => {
                self.stage = CloseStage::Attempt(KillLevel::Wmi);
                Action::Run {
                    wait_ms: 0,
                    command: kill_command_exec(self.pid.as_str(), self.is_windows, KillLevel::Wmi),
                }
            },
            KillLevel::Tree => if self.is_windows {
                self.stage = CloseStage::Attempt(KillLevel::Elevated);
                Action::Run {
                    wait_ms: 0,
                    command: kill_command_exec(
                        self.pid.as_str(),
                        self.is_windows,
                        KillLevel::Elevated,
                    ),
                }
            } else {
                self.give_up()
            },
            KillLevel::Wmi => self.give_up(),
        }
    }

    /// The end of the cascade when every level has failed.
    fn give_up(&mut self) -> (a: Action)
        ensures
            final(self)@ == at_stage(old(self)@, CloseStage::Done),
            a@ == finish_view("port-close-error"@, old(self)@.pid, Err(give_up_message(old(self)@.pid))),
    {
        self.stage = CloseStage::Done;
        Action::Finish {
            wait_ms: 0,
            event: Some((String::from_str("port-close-error"), String::from_str(self.pid.as_str()))),
            result: Err(concat3(
                "Не удалось закрыть процесс ",
                self.pid.as_str(),
                " даже используя все доступные методы",
            )),
        }
    }

    /// The next step of the cascade, given what came of the command it ran.
    pub fn step(&mut self, outcome: CommandOutcome) -> (a: Action)
        requires
            old(self).stage != CloseStage::Done,
        ensures
            (final(self)@, a@) == close_port_next(old(self)@, outcome@),
    {
        match self.stage {
            CloseStage::LookupName => match looked_up_name_exec(self.is_windows, &outcome) {
                Some(_) => {
                    self.stage = CloseStage::Attempt(KillLevel::Standard);
                    Action::Run {
                        wait_ms: 0,
                        command: kill_command_exec(
                            self.pid.as_str(),
                            self.is_windows,
                            KillLevel::Standard,
                        ),
                    }
                },
                None => {
                    self.stage = CloseStage::Done;
                    Action::Abort
                },
            },
            CloseStage::Attempt(l) => {
                let worked = match &outcome {
                    CommandOutcome::Finished { success, .. } => *success || l == KillLevel::Elevated
                        || l == KillLevel::Wmi,
                    CommandOutcome::NotStarted { .. } => false,
                };
                if worked {
                    self.stage = CloseStage::Verify(l);
                    let wait: u64 = match l {
                        KillLevel::Elevated | KillLevel::Wmi => 1000,
                        _ => 500,
                    };
                    Action::Run { wait_ms: wait, command: process_check_command_exec(self.pid.as_str()) }
                } else {
                    self.advance(l)
                }
            },
            CloseStage::SignalChildren => {
                self.stage = CloseStage::Attempt(KillLevel::Tree);
                Action::Run {
                    wait_ms: 0,
                    command: kill_command_exec(self.pid.as_str(), self.is_windows, KillLevel::Tree),
                }
            },
            CloseStage::Verify(l) => match outcome {
                CommandOutcome::Finished { stdout, .. } => {
                    let listing = utf8_lossy(&stdout);
                    if !process_still_listed(listing.as_str(), self.pid.as_str()) {
                        self.stage = CloseStage::Done;
                        Action::Finish {
                            wait_ms: 0,
                            event: Some(
                                (String::from_str("port-closed"), String::from_str(self.pid.as_str())),
                            ),
                            result: Ok(confirmed_message_exec(self.pid.as_str(), l)),
                        }
                    } else {
                        self.advance(l)
                    }
                },
                CommandOutcome::NotStarted { .. } => {
                    self.stage = CloseStage::Done;
                    Action::Finish {
                        wait_ms: 0,
                        event: Some(
                            (String::from_str("port-closed"), String::from_str(self.pid.as_str())),
                        ),
                        result: Ok(assumed_message_exec(self.pid.as_str(), l)),
                    }
                },
            },
            CloseStage::Done => Action::Abort,
        }
    }
}


// ---------------------------------------------------------------------------
// The name of a process in the output of `tasklist /FO CSV`
// ---------------------------------------------------------------------------

/// What the first field of a CSV line of `tasklist` gives.
pub enum FieldCut {
    /// The line has no comma.
    Missing,
    /// The first field without its quotes.
    Cut(String),
    /// The line has a comma, but too early, or next to a character of more
    /// than one byte, for the quotes to be cut off.
    Malformed,
}

/// A field cut as plain values.
pub ghost enum FieldCutView {
    Missing,
    Cut(Seq<char>),
    Malformed,
}

impl View for FieldCut {
    type V = FieldCutView;

    open spec fn view(&self) -> FieldCutView {
        match self {
            FieldCut::Missing => FieldCutView::Missing,
            FieldCut::Cut(n) => FieldCutView::Cut(n@),
            FieldCut::Malformed => FieldCutView::Malformed,
        }
    }
}

/// Whether `c` is encoded in one byte.
pub open spec fn is_ascii_char(c: char) -> bool {
    (c as u32) < 128
}

/// The first field of a CSV line, the first and the last character before
/// the first comma taken off (the quotes). The cut is made on bytes, so it is
/// defined only where the comma is at least the third character and both
/// characters taken off are single bytes.
pub open spec fn first_field(line: Seq<char>) -> FieldCutView {
    let i = first_index(line, ',');
    if i < 0 {
        FieldCutView::Missing
    } else if i >= 2 && is_ascii_char(line[0]) && is_ascii_char(line[i - 1]) {
        FieldCutView::Cut(line.subrange(1, i - 1))
    } else {
        FieldCutView::Malformed
    }
}

/// Cuts the first field out of a CSV line.
pub fn first_csv_field(line: &[char]) -> (r: FieldCut)
    ensures
        r@ == first_field(line@),
{
    match crate::text::find_char(line, ',') {
        None => FieldCut::Missing,
        Some(i) => {
            if i >= 2 && (line[0] as u32) < 128 && (line[i - 1] as u32) < 128 {
                FieldCut::Cut(from_chars(&slice_chars(line, 1, i - 1)))
            } else {
                FieldCut::Malformed
            }
        },
    }
}

/// The image name in a listing of `tasklist /FO CSV`, read from the line
/// after the header: `Missing` where there is no such line or it has no
/// comma.
pub open spec fn listed_name(listing: Seq<char>) -> FieldCutView {
    let ls = lines(listing);
    if ls.len() >= 2 {
        first_field(ls[1])
    } else {
        FieldCutView::Missing
    }
}

/// Reads the image name from the line after the header of a listing.
pub fn listed_image_name(listing: &str) -> (r: FieldCut)
    ensures
        r@ == listed_name(listing@),
{
    let c = to_chars(listing);
    let ls = split_lines(&c);
    if ls.len() >= 2 {
        assert(crate::text::views(ls@)[1] == ls@[1]@);
        first_csv_field(&ls[1])
    } else {
        FieldCut::Missing
    }
}

/// The name of software that needs the heavier means (game clients and
/// their launchers), in a lowercased process name.
pub open spec fn names_special_software(lowered: Seq<char>) -> bool {
    contains(lowered, "steam"@) || contains(lowered, "game"@) || contains(lowered, "epic"@)
        || contains(lowered, "battle.net"@)
}

/// Whether a lowercased process name names a game client or launcher.
pub fn mentions_special_software(lowered: &str) -> (r: bool)
    ensures
        r == names_special_software(lowered@),
{
    let c = to_chars(lowered);
    contains_str(&c, "steam") || contains_str(&c, "game") || contains_str(&c, "epic")
        || contains_str(&c, "battle.net")
}

/// Whether a process is a game client or launcher (Steam, a game, Epic,
/// Battle.net), whatever the case of its name.
pub fn is_special_process(name: &str) -> (r: bool)
    ensures
        r == names_special_software(lowercase(name@)),
{
    let lowered = to_lowercase(name);
    mentions_special_software(lowered.as_str())
}

// ---------------------------------------------------------------------------
// Closing one port
// ---------------------------------------------------------------------------

/// Where the closing of one port stands.
#[derive(Clone, Copy, PartialEq, Eq, Structural)]
pub enum PortStage {
    /// The process list is read for the owner's name.
    LookupName,
    /// `netsh` deletes the TCP connection (Windows).
    Netsh,
    /// `ss -K` destroys the TCP sockets of the port (elsewhere).
    SocketKill,
    /// `taskkill /F` closes the owner of a port that is not TCP (Windows).
    UdpKill,
    /// `kill -9` closes the owner of a port that is not TCP (elsewhere).
    KillNine,
    /// The procedure has ended.
    Done,
}

/// The closing of one port of a process. A TCP port is closed on its own,
/// its process left running; a port of another protocol cannot be, and
/// its owner is stopped.
pub struct ClosePortOfProcess {
    pub pid: String,
    pub port: String,
    pub protocol: String,
    pub local_addr: String,
    pub is_windows: bool,
    /// The owner's name, once read ("Unknown" until then).
    pub name: String,
    pub stage: PortStage,
}

/// The state of the closing of one port as plain values.
#[verifier::ext_equal]
pub ghost struct ClosePortOfProcessView {
    pub pid: Seq<char>,
    pub port: Seq<char>,
    pub protocol: Seq<char>,
    pub local_addr: Seq<char>,
    pub is_windows: bool,
    pub name: Seq<char>,
    pub stage: PortStage,
}

impl View for ClosePortOfProcess {
    type V = ClosePortOfProcessView;

    open spec fn view(&self) -> ClosePortOfProcessView {
        ClosePortOfProcessView {
            pid: self.pid@,
            port: self.port@,
            protocol: self.protocol@,
            local_addr: self.local_addr@,
            is_windows: self.is_windows,
            name: self.name@,
            stage: self.stage,
        }
    }
}

/// The command that reads the owner's name: `tasklist` as CSV on Windows,
/// `ps` elsewhere.
pub open spec fn name_lookup_command(pid: Seq<char>, is_windows: bool) -> CommandLineView {
    if is_windows {
        command_view("tasklist"@, seq!["/FI"@, "PID eq "@ + pid, "/FO"@, "CSV"@])
    } else {
        command_view("ps"@, seq!["-p"@, pid, "-o"@, "comm="@])
    }
}

/// The owner's name from what the lookup printed; `None` where the listing
/// cannot be cut.
pub open spec fn looked_up_name(is_windows: bool, o: OutcomeView) -> Option<Seq<char>> {
    match o {
        OutcomeView::Finished { stdout, .. } => if is_windows {
            match listed_name(utf8_lossy_decoding(stdout)) {
                FieldCutView::Cut(n) => Some(n),
                FieldCutView::Missing => Some("Unknown"@),
                FieldCutView::Malformed => None,
            }
        } else {
            Some(trim(utf8_lossy_decoding(stdout)))
        },
        OutcomeView::NotStarted { .. } => Some("Unknown"@),
    }
}

/// `netsh` deleting the connection from the local address.
pub open spec fn netsh_command(s: ClosePortOfProcessView) -> CommandLineView {
    command_view(
        "cmd"@,
        seq![
            "/c"@,
            "netsh interface ipv4 delete tcpconnection "@ + s.local_addr + " 0.0.0.0:0 "@
                + lowercase(s.protocol) + " "@ + s.pid,
        ],
    )
}

/// `ss -K` destroying the TCP sockets whose local port is `port`.
pub open spec fn socket_kill_command(port: Seq<char>) -> CommandLineView {
    command_view("ss"@, seq!["-K"@, "sport"@, "="@, ":"@ + port])
}

/// `taskkill /PID .. /F`, for a port that is not TCP.
pub open spec fn udp_kill_command(pid: Seq<char>) -> CommandLineView {
    command_view("taskkill"@, seq!["/PID"@, pid, "/F"@])
}

/// `kill -9`.
pub open spec fn kill_nine_command(pid: Seq<char>) -> CommandLineView {
    command_view("kill"@, seq!["-9"@, pid])
}

/// The state `s` at another stage.
pub open spec fn port_at(s: ClosePortOfProcessView, stage: PortStage) -> ClosePortOfProcessView {
    ClosePortOfProcessView { stage, ..s }
}

/// Running a command at a stage.
pub open spec fn port_run(s: ClosePortOfProcessView, stage: PortStage, wait_ms: u64, c: CommandLineView) -> (
    ClosePortOfProcessView,
    ActionView,
) {
    (port_at(s, stage), ActionView::Run { wait_ms, command: c })
}

/// The end with the event that reports the result for `pid:port`.
pub open spec fn port_end(s: ClosePortOfProcessView, wait_ms: u64, result: Result<Seq<char>, Seq<char>>) -> (
    ClosePortOfProcessView,
    ActionView,
) {
    (
        port_at(s, PortStage::Done),
        ActionView::Finish {
            wait_ms,
            event: Some(
                (
                    if result is Ok {
                        "port-closed"@
                    } else {
                        "port-close-error"@
                    },
                    s.pid + ":"@ + s.port,
                ),
            ),
            result,
        },
    )
}

/// The one means once the name is known: for TCP, the connection is
/// deleted (`netsh` on Windows, `ss -K` elsewhere) and the process keeps
/// running; for another protocol the owner is stopped (`taskkill /F` on
/// Windows, `kill -9` elsewhere).
pub open spec fn port_after_name(s: ClosePortOfProcessView) -> (ClosePortOfProcessView, ActionView) {
    if uppercase(s.protocol) == "TCP"@ {
        if s.is_windows {
            port_run(s, PortStage::Netsh, 0, netsh_command(s))
        } else {
            port_run(s, PortStage::SocketKill, 0, socket_kill_command(s.port))
        }
    } else if s.is_windows {
        port_run(s, PortStage::UdpKill, 0, udp_kill_command(s.pid))
    } else {
        port_run(s, PortStage::KillNine, 0, kill_nine_command(s.pid))
    }
}

/// "Процесс <name> <middle> <port>".
pub open spec fn freed_message(s: ClosePortOfProcessView, middle: Seq<char>) -> Seq<char> {
    "Процесс "@ + s.name + middle + s.port
}

/// The result of closing a TCP connection: success when the command ran
/// and succeeded; otherwise the failure, or the error of starting `tool`.
pub open spec fn connection_result(s: ClosePortOfProcessView, tool: Seq<char>, o: OutcomeView) -> Result<
    Seq<char>,
    Seq<char>,
> {
    match o {
        OutcomeView::Finished { success: true, .. } => Ok(
            "Успешно закрыт порт "@ + s.port + " для процесса "@ + s.name,
        ),
        OutcomeView::Finished { success: false, .. } => Err(
            "Не удалось закрыть порт "@ + s.port + " для процесса "@ + s.name
                + " без завершения процесса"@,
        ),
        OutcomeView::NotStarted { error } => Err("Ошибка при запуске "@ + tool + ": "@ + error),
    }
}

/// The first step of closing the port `port` of process `pid`.
pub open spec fn close_specific_port_begin(
    pid: Seq<char>,
    port: Seq<char>,
    protocol: Seq<char>,
    local_addr: Seq<char>,
    is_windows: bool,
) -> (ClosePortOfProcessView, ActionView) {
    (
        ClosePortOfProcessView {
            pid,
            port,
            protocol,
            local_addr,
            is_windows,
            name: "Unknown"@,
            stage: PortStage::LookupName,
        },
        ActionView::Run { wait_ms: 0, command: name_lookup_command(pid, is_windows) },
    )
}

/// The step of closing a port from the state `s` on the outcome `o` of the
/// command it ran.
pub open spec fn close_specific_port_next(s: ClosePortOfProcessView, o: OutcomeView) -> (
    ClosePortOfProcessView,
    ActionView,
) {
    match s.stage {
        PortStage::LookupName => match looked_up_name(s.is_windows, o) {
            Some(n) => port_after_name(ClosePortOfProcessView { name: n, ..s }),
            None => (port_at(s, PortStage::Done), ActionView::Abort),
        },
        PortStage::Netsh => port_end(s, 0, connection_result(s, "netsh"@, o)),
        PortStage::SocketKill => port_end(s, 0, connection_result(s, "ss"@, o)),
        PortStage::UdpKill => match o {
            OutcomeView::Finished { success: true, .. } => port_end(
                s,
                0,
                Ok(freed_message(s, " принудительно закрыт для освобождения UDP порта "@)),
            ),
            OutcomeView::Finished { success: false, .. } => port_end(
                s,
                0,
                Err("Не удалось закрыть UDP порт "@ + s.port + " для процесса "@ + s.name),
            ),
            OutcomeView::NotStarted { error } => port_end(
                s,
                0,
                Err("Ошибка при запуске taskkill: "@ + error),
            ),
        },
        PortStage::KillNine => match o {
            OutcomeView::Finished { success: true, .. } => port_end(
                s,
                0,
                Ok(freed_message(s, " принудительно закрыт для освобождения порта "@)),
            ),
            OutcomeView::Finished { success: false, .. } => port_end(
                s,
                0,
                Err("Не удалось закрыть порт "@ + s.port + " для процесса "@ + s.name),
            ),
            OutcomeView::NotStarted { error } => port_end(
                s,
                0,
                Err("Ошибка при запуске kill: "@ + error),
            ),
        },
        PortStage::Done => (s, ActionView::Abort),
    }
}


/// The command that reads the owner's name.
fn name_lookup_command_exec(pid: &str, is_windows: bool) -> (r: crate::command::CommandLine)
    ensures
        r@ == name_lookup_command(pid@, is_windows),
{
    if is_windows {
        command_line(
            "tasklist",
            args4(
                String::from_str("/FI"),
                concat2("PID eq ", pid),
                String::from_str("/FO"),
                String::from_str("CSV"),
            ),
        )
    } else {
        command_line(
            "ps",
            args4(
                String::from_str("-p"),
                String::from_str(pid),
                String::from_str("-o"),
                String::from_str("comm="),
            ),
        )
    }
}

/// The owner's name from what the lookup printed.
fn looked_up_name_exec(is_windows: bool, o: &CommandOutcome) -> (r: Option<String>)
    ensures
        match r {
            Some(n) => looked_up_name(is_windows, o@) == Some(n@),
            None => looked_up_name(is_windows, o@) is None,
        },
{
    match o {
        CommandOutcome::Finished { stdout, .. } => {
            let text = utf8_lossy(stdout);
            if is_windows {
                match listed_image_name(text.as_str()) {
                    FieldCut::Cut(n) => Some(n),
                    FieldCut::Missing => Some(String::from_str("Unknown")),
                    FieldCut::Malformed => None,
                }
            } else {
                let c = to_chars(text.as_str());
                Some(from_chars(&trim_chars(&c)))
            }
        },
        CommandOutcome::NotStarted { .. } => Some(String::from_str("Unknown")),
    }
}

impl ClosePortOfProcess {
    /// Starts closing the port `port` of process `pid`: the owner's name
    /// is read first.
    pub fn begin(pid: &str, port: &str, protocol: &str, local_addr: &str, is_windows: bool) -> (r: (
        ClosePortOfProcess,
        Action,
    ))
        ensures
            (r.0@, r.1@) == close_specific_port_begin(pid@, port@, protocol@, local_addr@, is_windows),
    {
        let cmd = name_lookup_command_exec(pid, is_windows);
        (
            ClosePortOfProcess {
                pid: String::from_str(pid),
                port: String::from_str(port),
                protocol: String::from_str(protocol),
                local_addr: String::from_str(local_addr),
                is_windows,
                name: String::from_str("Unknown"),
                stage: PortStage::LookupName,
            },
            Action::Run { wait_ms: 0, command: cmd },
        )
    }

    fn run(&mut self, stage: PortStage, wait_ms: u64, command: crate::command::CommandLine) -> (a: Action)
        ensures
            (final(self)@, a@) == port_run(old(self)@, stage, wait_ms, command@),
    {
        self.stage = stage;
        Action::Run { wait_ms, command }
    }

    fn end(&mut self, wait_ms: u64, result: Result<String, String>) -> (a: Action)
        ensures
            (final(self)@, a@) == port_end(old(self)@, wait_ms, crate::command::result_view(result)),
    {
        self.stage = PortStage::Done;
        let name = if result.is_ok() {
            String::from_str("port-closed")
        } else {
            String::from_str("port-close-error")
        };
        let payload = concat3(self.pid.as_str(), ":", self.port.as_str());
        Action::Finish { wait_ms, event: Some((name, payload)), result }
    }

    fn after_name(&mut self) -> (a: Action)
        ensures
            (final(self)@, a@) == port_after_name(old(self)@),
    {
        let upper = to_uppercase(self.protocol.as_str());
        let uc = to_chars(upper.as_str());
        if eq_str(&uc, "TCP") {
            if self.is_windows {
                let c = self.netsh_command_exec();
                self.run(PortStage::Netsh, 0, c)
            } else {
                let c = command_line(
                    "ss",
                    args4(
                        String::from_str("-K"),
                        String::from_str("sport"),
                        String::from_str("="),
                        concat2(":", self.port.as_str()),
                    ),
                );
                self.run(PortStage::SocketKill, 0, c)
            }
        } else if self.is_windows {
            let c = command_line(
                "taskkill",
                args3(String::from_str("/PID"), String::from_str(self.pid.as_str()), String::from_str("/F")),
            );
            self.run(PortStage::UdpKill, 0, c)
        } else {
            let c = command_line(
                "kill",
                args2(String::from_str("-9"), String::from_str(self.pid.as_str())),
            );
            self.run(PortStage::KillNine, 0, c)
        }
    }

    fn netsh_command_exec(&self) -> (r: crate::command::CommandLine)
        ensures
            r@ == netsh_command(self@),
    {
        let proto = to_lowercase(self.protocol.as_str());
        let head = concat4(
            "netsh interface ipv4 delete tcpconnection ",
            self.local_addr.as_str(),
            " 0.0.0.0:0 ",
            proto.as_str(),
        );
        command_line(
            "cmd",
            args2(String::from_str("/c"), concat3(head.as_str(), " ", self.pid.as_str())),
        )
    }

    /// "Процесс <name> <middle> <port>".
    fn freed_message_exec(&self, middle: &str) -> (r: String)
        ensures
            r@ == freed_message(self@, middle@),
    {
        concat4("Процесс ", self.name.as_str(), middle, self.port.as_str())
    }

    fn connection_result_exec(&self, tool: &str, o: &CommandOutcome) -> (r: Result<String, String>)
        ensures
            crate::command::result_view(r) == connection_result(self@, tool@, o@),
    {
        match o {
            CommandOutcome::Finished { success: true, .. } => Ok(
                concat4("Успешно закрыт порт ", self.port.as_str(), " для процесса ", self.name.as_str()),
            ),
            CommandOutcome::Finished { success: false, .. } => {
                let head = concat4(
                    "Не удалось закрыть порт ",
                    self.port.as_str(),
                    " для процесса ",
                    self.name.as_str(),
                );
                Err(concat2(head.as_str(), " без завершения процесса"))
            },
            CommandOutcome::NotStarted { error } => Err(
                concat4("Ошибка при запуске ", tool, ": ", error.as_str()),
            ),
        }
    }

    /// The next step of closing the port, given what came of the command
    /// it ran.
    pub fn step(&mut self, outcome: CommandOutcome) -> (a: Action)
        requires
            old(self).stage != PortStage::Done,
        ensures
            (final(self)@, a@) == close_specific_port_next(old(self)@, outcome@),
    {
        match self.stage {
            PortStage::LookupName => match looked_up_name_exec(self.is_windows, &outcome) {
                Some(n) => {
                    self.name = n;
                    self.after_name()
                },
                None => {
                    self.stage = PortStage::Done;
                    Action::Abort
                },
            },
            PortStage::Netsh => {
                let r = self.connection_result_exec("netsh", &outcome);
                self.end(0, r)
            },
            PortStage::SocketKill => {
                let r = self.connection_result_exec("ss", &outcome);
                self.end(0, r)
            },
            PortStage::UdpKill => match outcome {
                CommandOutcome::Finished { success: true, .. } => {
                    let m = self.freed_message_exec(
                        " принудительно закрыт для освобождения UDP порта ",
                    );
                    self.end(0, Ok(m))
                },
                CommandOutcome::Finished { success: false, .. } => {
                    let m = concat4(
                        "Не удалось закрыть UDP порт ",
                        self.port.as_str(),
                        " для процесса ",
                        self.name.as_str(),
                    );
                    self.end(0, Err(m))
                },
                CommandOutcome::NotStarted { error } => {
                    let m = concat2("Ошибка при запуске taskkill: ", error.as_str());
                    self.end(0, Err(m))
                },
            },
            PortStage::KillNine => match outcome {
                CommandOutcome::Finished { success: true, .. } => {
                    let m = self.freed_message_exec(" принудительно закрыт для освобождения порта ");
                    self.end(0, Ok(m))
                },
                CommandOutcome::Finished { success: false, .. } => {
                    let m = concat4(
                        "Не удалось закрыть порт ",
                        self.port.as_str(),
                        " для процесса ",
                        self.name.as_str(),
                    );
                    self.end(0, Err(m))
                },
                CommandOutcome::NotStarted { error } => {
                    let m = concat2("Ошибка при запуске kill: ", error.as_str());
                    self.end(0, Err(m))
                },
            },
            PortStage::Done => Action::Abort,
        }
    }
}


/// The order of the stages of closing a port: every step moves to a later one.
pub open spec fn port_stage_order(st: PortStage) -> int {
    match st {
        PortStage::LookupName => 0,
        PortStage::Netsh | PortStage::SocketKill | PortStage::UdpKill | PortStage::KillNine => 1,
        PortStage::Done => 10,
    }
}

/// Closing one port reports success exactly when its command (`netsh`,
/// `ss -K`, `taskkill /F` or `kill -9`) exited with success: then the
/// `port-closed` event and an `Ok` result, otherwise the
/// `port-close-error` event and an `Err`; the event names `pid:port`, and
/// the procedure is over.
pub proof fn lemma_port_close_follows_command(s: ClosePortOfProcessView, o: OutcomeView)
    requires
        s.stage == PortStage::Netsh || s.stage == PortStage::SocketKill || s.stage
            == PortStage::UdpKill || s.stage == PortStage::KillNine,
    ensures
        close_specific_port_next(s, o).0.stage == PortStage::Done,
        close_specific_port_next(s, o).1 matches ActionView::Finish { event: Some((ev, key)), result, .. }
            && key == s.pid + ":"@ + s.port
            && (result is Ok <==> o matches OutcomeView::Finished { success: true, .. })
            && (ev == "port-closed"@ <==> result is Ok)
            && (ev == "port-closed"@ || ev == "port-close-error"@),
{
    reveal_strlit("port-closed");
    reveal_strlit("port-close-error");
    assert("port-closed"@ != "port-close-error"@) by {
        assert("port-closed"@.len() != "port-close-error"@.len());
    }
}

/// Closing a port ends: each step moves to a later stage; it keeps the
/// port it works on; an end that reports to the user interface names
/// `pid:port`, with "port-closed" exactly when the result is a success.
/// A TCP port is closed without stopping its process: no command that
/// stops a process is ever run for it.
pub proof fn lemma_close_specific_port_progress(s: ClosePortOfProcessView, o: OutcomeView)
    requires
        s.stage != PortStage::Done,
    ensures
        port_stage_order(close_specific_port_next(s, o).0.stage) > port_stage_order(s.stage),
        close_specific_port_next(s, o).0.pid == s.pid,
        close_specific_port_next(s, o).0.port == s.port,
        close_specific_port_next(s, o).0.protocol == s.protocol,
        close_specific_port_next(s, o).0.stage == PortStage::Done <==> !(close_specific_port_next(
            s,
            o,
        ).1 is Run),
        close_specific_port_next(s, o).1 matches ActionView::Finish { event: Some((name, payload)), result, .. }
            ==> payload == s.pid + ":"@ + s.port && (name == "port-closed"@ <==> result is Ok),
        uppercase(s.protocol) == "TCP"@ && (s.stage == PortStage::LookupName || s.stage
            == PortStage::Netsh || s.stage == PortStage::SocketKill) ==> (close_specific_port_next(
            s,
            o,
        ).1 matches ActionView::Run { command, .. } ==> (command == netsh_command(
            close_specific_port_next(s, o).0,
        ) || command == socket_kill_command(s.port))),
{
    reveal_strlit("port-closed");
    reveal_strlit("port-close-error");
    assert("port-closed"@.len() != "port-close-error"@.len());
}

// ---------------------------------------------------------------------------
// Forced and emergency termination
// ---------------------------------------------------------------------------

/// The script that a termination writes before it runs it.
#[derive(Clone, Copy, PartialEq, Eq, Structural)]
pub enum ScriptKind {
    PowerShell,
    Batch,
}

/// Where a forced termination stands.
#[derive(Clone, Copy, PartialEq, Eq, Structural)]
pub enum TerminateStage {
    /// The process list is read for the process's name (emergency only).
    LookupName,
    /// The process is terminated through the Win32 API.
    Api,
    /// The PowerShell script is written.
    WritePowerShell,
    /// The batch file is written.
    WriteBatch,
    /// The batch file runs.
    RunBatch,
    Done,
}

/// The order of the stages of a forced termination.
pub open spec fn terminate_rank(stage: TerminateStage) -> int {
    match stage {
        TerminateStage::LookupName => 0,
        TerminateStage::Api => 1,
        TerminateStage::WritePowerShell => 2,
        TerminateStage::WriteBatch => 3,
        TerminateStage::RunBatch => 4,
        TerminateStage::Done => 5,
    }
}

/// What the host is to do next for a forced termination.
pub enum TerminateAction {
    /// Run a command and report what came of it.
    Run(crate::command::CommandLine),
    /// Open the process with the right to terminate it and terminate it;
    /// report whether that worked.
    TerminateProcess(u32),
    /// Write the script of this kind for the process; report the failure.
    WriteScript(ScriptKind),
    /// Run the batch file through `cmd /c` and report what came of it.
    RunBatch,
    /// Remove the scripts where `remove_scripts`, and end with `result`.
    Finish { remove_scripts: bool, result: Result<String, String> },
    /// The procedure fails outright on a listing that it cannot cut.
    Abort,
}

/// What came of the host's part.
pub enum TerminateEvent {
    Ran(CommandOutcome),
    Terminated(bool),
    Wrote(Result<(), String>),
}

/// A forced termination: `force_kill_process`, or with `emergency` the
/// heavier `emergency_kill_process`, whose script tries more means.
pub struct ForcedTermination {
    pub pid: String,
    pub pid_number: u32,
    pub emergency: bool,
    pub stage: TerminateStage,
}

/// The message on a host that is not Windows.
pub open spec fn windows_only_message() -> Seq<char> {
    "Эта функция поддерживается только в Windows"@
}

/// The checks before a forced termination: Windows only, and a process
/// identifier that reads as a `u32`.
pub open spec fn terminate_precheck(pid: Seq<char>, is_windows: bool) -> Result<u32, Seq<char>> {
    if !is_windows {
        Err(windows_only_message())
    } else {
        match crate::text::parse_u32_spec(pid) {
            Some(n) => Ok(n),
            None => Err("Неверный PID: "@ + pid),
        }
    }
}

/// The result of a forced termination once its batch file ran (or not).
pub open spec fn batch_result(pid: Seq<char>, emergency: bool, o: OutcomeView) -> Result<Seq<char>, Seq<char>> {
    match o {
        OutcomeView::Finished { success: true, .. } => if emergency {
            Ok("Процесс "@ + pid + " успешно завершен"@)
        } else {
            Ok("Процесс с PID "@ + pid + " успешно завершен"@)
        },
        OutcomeView::Finished { success: false, .. } => if emergency {
            Err("Не удалось завершить процесс "@ + pid + ". Экстренный метод не сработал."@)
        } else {
            Err("Не удалось завершить процесс "@ + pid + ". Возможно, требуются права администратора."@)
        },
        OutcomeView::NotStarted { error } => if emergency {
            Err("Ошибка при запуске экстренного метода: "@ + error)
        } else {
            Err("Ошибка при запуске скрипта: "@ + error)
        },
    }
}

/// A forced termination succeeds exactly when its batch file ran and
/// exited with success, in the plain mode as in the emergency one.
pub proof fn lemma_batch_success_decides(pid: Seq<char>, emergency: bool, o: OutcomeView)
    ensures
        batch_result(pid, emergency, o) is Ok <==> o matches OutcomeView::Finished { success: true, .. },
{
}

/// The message when a script could not be written.
pub open spec fn write_failure(kind: ScriptKind, emergency: bool, error: Seq<char>) -> Seq<char> {
    match kind {
        ScriptKind::PowerShell => "Не удалось создать PowerShell скрипт: "@ + error,
        ScriptKind::Batch => if emergency {
            "Не удалось создать батник: "@ + error
        } else {
            "Не удалось создать Batch скрипт: "@ + error
        },
    }
}

/// The message when the Win32 API terminated the process.
pub open spec fn api_message(pid: Seq<char>) -> Seq<char> {
    "Процесс с PID "@ + pid + " принудительно завершен через WinAPI"@
}

impl ForcedTermination {
    /// Starts a forced termination of process `pid`; `Err` where the host
    /// is not Windows or the identifier is not a number.
    pub fn begin(pid: &str, is_windows: bool, emergency: bool) -> (r: Result<(ForcedTermination, TerminateAction), String>)
        ensures
            match terminate_precheck(pid@, is_windows) {
                Err(m) => r matches Err(e) && e@ == m,
                Ok(n) => {
                    &&& r matches Ok((t, a))
                    &&& t.pid@ == pid@
                    &&& t.pid_number == n
                    &&& t.emergency == emergency
                    &&& emergency ==> t.stage == TerminateStage::LookupName
                    &&& emergency ==> (a matches TerminateAction::Run(c) && c@ == name_lookup_command(pid@, true))
                    &&& !emergency ==> t.stage == TerminateStage::Api
                    &&& !emergency ==> a == TerminateAction::TerminateProcess(n)
                },
            },
    {
        if !is_windows {
            return Err(String::from_str("Эта функция поддерживается только в Windows"));
        }
        let c = to_chars(pid);
        match crate::text::parse_u32(&c) {
            None => Err(concat2("Неверный PID: ", pid)),
            Some(n) => {
                if emergency {
                    let cmd = name_lookup_command_exec(pid, true);
                    Ok(
                        (
                            ForcedTermination {
                                pid: String::from_str(pid),
                                pid_number: n,
                                emergency,
                                stage: TerminateStage::LookupName,
                            },
                            TerminateAction::Run(cmd),
                        ),
                    )
                } else {
                    Ok(
                        (
                            ForcedTermination {
                                pid: String::from_str(pid),
                                pid_number: n,
                                emergency,
                                stage: TerminateStage::Api,
                            },
                            TerminateAction::TerminateProcess(n),
                        ),
                    )
                }
            },
        }
    }

    /// The next step, given what came of the host's part.
    pub fn step(&mut self, event: TerminateEvent) -> (a: TerminateAction)
        requires
            old(self).stage != TerminateStage::Done,
        ensures
            final(self).pid@ == old(self).pid@,
            final(self).pid_number == old(self).pid_number,
            final(self).emergency == old(self).emergency,
            terminate_rank(final(self).stage) > terminate_rank(old(self).stage)
                || (final(self).stage == old(self).stage && a is Abort),
            match (old(self).stage, event) {
                (TerminateStage::LookupName, TerminateEvent::Ran(o)) => match looked_up_name(true, o@) {
                    Some(_) => final(self).stage == TerminateStage::Api && a
                        == TerminateAction::TerminateProcess(old(self).pid_number),
                    None => final(self).stage == TerminateStage::Done && a is Abort,
                },
                (TerminateStage::Api, TerminateEvent::Terminated(true)) => {
                    &&& final(self).stage == TerminateStage::Done
                    &&& a matches TerminateAction::Finish { remove_scripts: false, result: Ok(m) }
                    &&& m@ == api_message(old(self).pid@)
                },
                (TerminateStage::Api, TerminateEvent::Terminated(false)) => {
                    &&& final(self).stage == TerminateStage::WritePowerShell
                    &&& a == TerminateAction::WriteScript(ScriptKind::PowerShell)
                },
                (TerminateStage::WritePowerShell, TerminateEvent::Wrote(Ok(()))) => {
                    &&& final(self).stage == TerminateStage::WriteBatch
                    &&& a == TerminateAction::WriteScript(ScriptKind::Batch)
                },
                (TerminateStage::WriteBatch, TerminateEvent::Wrote(Ok(()))) => {
                    &&& final(self).stage == TerminateStage::RunBatch
                    &&& a is RunBatch
                },
                (TerminateStage::WritePowerShell, TerminateEvent::Wrote(Err(e))) => {
                    &&& final(self).stage == TerminateStage::Done
                    &&& a matches TerminateAction::Finish { remove_scripts: false, result: Err(m) }
                    &&& m@ == write_failure(ScriptKind::PowerShell, old(self).emergency, e@)
                },
                (TerminateStage::WriteBatch, TerminateEvent::Wrote(Err(e))) => {
                    &&& final(self).stage == TerminateStage::Done
                    &&& a matches TerminateAction::Finish { remove_scripts: false, result: Err(m) }
                    &&& m@ == write_failure(ScriptKind::Batch, old(self).emergency, e@)
                },
                (TerminateStage::RunBatch, TerminateEvent::Ran(o)) => {
                    &&& final(self).stage == TerminateStage::Done
                    &&& a matches TerminateAction::Finish { remove_scripts: true, result }
                    &&& crate::command::result_view(result) == batch_result(old(self).pid@, old(self).emergency, o@)
                },
                _ => final(self).stage == old(self).stage && a is Abort,
            },
    {
        match (self.stage, event) {
            (TerminateStage::LookupName, TerminateEvent::Ran(o)) => {
                match looked_up_name_exec(true, &o) {
                    Some(_) => {
                        self.stage = TerminateStage::Api;
                        TerminateAction::TerminateProcess(self.pid_number)
                    },
                    None => {
                        self.stage = TerminateStage::Done;
                        TerminateAction::Abort
                    },
                }
            },
            (TerminateStage::Api, TerminateEvent::Terminated(worked)) => {
                if worked {
                    self.stage = TerminateStage::Done;
                    TerminateAction::Finish {
                        remove_scripts: false,
                        result: Ok(
                            concat3(
                                "Процесс с PID ",
                                self.pid.as_str(),
                                " принудительно завершен через WinAPI",
                            ),
                        ),
                    }
                } else {
                    self.stage = TerminateStage::WritePowerShell;
                    TerminateAction::WriteScript(ScriptKind::PowerShell)
                }
            },
            (TerminateStage::WritePowerShell, TerminateEvent::Wrote(w)) => match w {
                Ok(()) => {
                    self.stage = TerminateStage::WriteBatch;
                    TerminateAction::WriteScript(ScriptKind::Batch)
                },
                Err(e) => {
                    self.stage = TerminateStage::Done;
                    TerminateAction::Finish {
                        remove_scripts: false,
                        result: Err(concat2("Не удалось создать PowerShell скрипт: ", e.as_str())),
                    }
                },
            },
            (TerminateStage::WriteBatch, TerminateEvent::Wrote(w)) => match w {
                Ok(()) => {
                    self.stage = TerminateStage::RunBatch;
                    TerminateAction::RunBatch
                },
                Err(e) => {
                    self.stage = TerminateStage::Done;
                    let m = if self.emergency {
                        concat2("Не удалось создать батник: ", e.as_str())
                    } else {
                        concat2("Не удалось создать Batch скрипт: ", e.as_str())
                    };
                    TerminateAction::Finish { remove_scripts: false, result: Err(m) }
                },
            },
            (TerminateStage::RunBatch, TerminateEvent::Ran(o)) => {
                self.stage = TerminateStage::Done;
                let pid = self.pid.as_str();
                let result = match o {
                    CommandOutcome::Finished { success: true, .. } => if self.emergency {
                        Ok(concat3("Процесс ", pid, " успешно завершен"))
                    } else {
                        Ok(concat3("Процесс с PID ", pid, " успешно завершен"))
                    },
                    CommandOutcome::Finished { success: false, .. } => if self.emergency {
                        Err(concat3("Не удалось завершить процесс ", pid, ". Экстренный метод не сработал."))
                    } else {
                        Err(
                            concat3(
                                "Не удалось завершить процесс ",
                                pid,
                                ". Возможно, требуются права администратора.",
                            ),
                        )
                    },
                    CommandOutcome::NotStarted { error } => if self.emergency {
                        Err(concat2("Ошибка при запуске экстренного метода: ", error.as_str()))
                    } else {
                        Err(concat2("Ошибка при запуске скрипта: ", error.as_str()))
                    },
                };
                TerminateAction::Finish { remove_scripts: true, result }
            },
            _ => TerminateAction::Abort,
        }
    }
}

// ---------------------------------------------------------------------------
// Whether a port can be closed on its own
// ---------------------------------------------------------------------------

/// Whether a port can be closed without ending its process: a TCP port on
/// Windows (through `netsh`), or on Linux where `fuser` is installed.
pub open spec fn individually_closable(protocol: Seq<char>, os: TargetOs, fuser_found: bool) -> bool {
    uppercase(protocol) == "TCP"@ && (os == TargetOs::Windows || (os == TargetOs::Linux
        && fuser_found))
}

/// Whether the port of `protocol` can be closed on its own; `fuser_found`
/// asks the host whether `fuser` is installed, and is asked only for TCP on
/// Linux.
pub fn can_close_port_individually<F: Fn() -> bool>(protocol: &str, os: TargetOs, fuser_found: &F) -> (r: Result<bool, String>)
    requires
        os == TargetOs::Linux ==> call_requires(*fuser_found, ()),
    ensures
        r is Ok,
        !(uppercase(protocol@) == "TCP"@ && os == TargetOs::Linux) ==> r == Ok::<bool, String>(
            individually_closable(protocol@, os, false),
        ),
        uppercase(protocol@) == "TCP"@ && os == TargetOs::Linux ==> exists|f: bool|
            call_ensures(*fuser_found, (), f) && r == Ok::<bool, String>(f),
{
    let upper = to_uppercase(protocol);
    let uc = to_chars(upper.as_str());
    let tcp = eq_str(&uc, "TCP");
    if os == TargetOs::Windows && tcp {
        return Ok(true);
    }
    if os == TargetOs::Linux && tcp {
        let found = fuser_found();
        return Ok(found);
    }
    Ok(false)
}

} // verus!
