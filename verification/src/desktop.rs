//! The small commands of the desktop shell: the greeting, and showing the
//! executable of a process in the file manager.
use vstd::prelude::*;
use crate::command::{args2, command_line, command_view, CommandLine, CommandLineView, TargetOs};
use crate::machine::trim_start_matches;
use crate::text::{
    concat2, concat3, decimal, from_chars, lines, split_lines, starts_with, starts_with_str,
    to_chars, trim, trim_chars, views,
};

verus! {

/// The greeting for `name`.
pub fn greet(name: &str) -> (r: String)
    ensures
        r@ == "Hello, "@ + name@ + "! You've been greeted from Rust!"@,
{
    concat3("Hello, ", name, "! You've been greeted from Rust!")
}

/// The message for the system processes, whose path is not shown.
pub open spec fn system_path_message() -> Seq<char> {
    "Системный процесс: путь недоступен"@
}

/// Whether the path of process `pid` may be shown: not for the idle and
/// the kernel process.
pub fn open_process_path_check(pid: u32) -> (r: Result<(), String>)
    ensures
        (pid == 0 || pid == 4) ==> (r matches Err(e) && e@ == system_path_message()),
        !(pid == 0 || pid == 4) ==> r is Ok,
{
    if pid == 0 || pid == 4 {
        Err(String::from_str("Системный процесс: путь недоступен"))
    } else {
        Ok(())
    }
}

/// The executable's path in the output of `wmic process where
/// ProcessId=.. get ExecutablePath /value`: the first line that starts with
/// `ExecutablePath=`, without that prefix (all its repetitions).
pub open spec fn wmic_path_from(ls: Seq<Seq<char>>, i: int) -> Option<Seq<char>>
    decreases ls.len() - i,
{
    if i < 0 || i >= ls.len() {
        None
    } else if starts_with(ls[i], "ExecutablePath="@) {
        Some(trim_start_matches(ls[i], "ExecutablePath="@))
    } else {
        wmic_path_from(ls, i + 1)
    }
}

/// Reads the executable's path from `wmic`'s output.
pub fn executable_path_in_listing(listing: &str) -> (r: Option<String>)
    ensures
        match r {
            Some(p) => wmic_path_from(lines(listing@), 0) == Some(p@),
            None => wmic_path_from(lines(listing@), 0) is None,
        },
{
    let c = to_chars(listing);
    let ls = split_lines(&c);
    let ghost lv = views(ls@);
    let mut i: usize = 0;
    while i < ls.len()
        invariant
            lv == views(ls@),
            lv == lines(listing@),
            wmic_path_from(lv, i as int) == wmic_path_from(lv, 0),
        decreases ls.len() - i,
    {
        assert(lv[i as int] == ls@[i as int]@);
        if starts_with_str(&ls[i], "ExecutablePath=") {
            let p = crate::machine::trim_start_matching(&ls[i], "ExecutablePath=");
            return Some(from_chars(&p));
        }
        i = i + 1;
    }
    None
}

/// The message when no `ExecutablePath=` line was found.
pub fn path_not_found_message() -> (r: String)
    ensures
        r@ == "Не удалось найти путь к процессу"@,
{
    String::from_str("Не удалось найти путь к процессу")
}

/// The path that `ps -p .. -o comm=` printed on macOS: the trimmed output,
/// or the failure when the command failed or printed nothing.
pub open spec fn ps_path(success: bool, output: Seq<char>) -> Result<Seq<char>, Seq<char>> {
    if !success {
        Err("Не удалось выполнить команду ps"@)
    } else if trim(output).len() == 0 {
        Err("Процесс не найден"@)
    } else {
        Ok(trim(output))
    }
}

/// Reads the path from what `ps` printed.
pub fn path_from_ps(success: bool, output: &str) -> (r: Result<String, String>)
    ensures
        match r {
            Ok(p) => ps_path(success, output@) == Ok::<Seq<char>, Seq<char>>(p@),
            Err(e) => ps_path(success, output@) == Err::<Seq<char>, Seq<char>>(e@),
        },
{
    if !success {
        return Err(String::from_str("Не удалось выполнить команду ps"));
    }
    let t = trim_chars(&to_chars(output));
    if t.len() == 0 {
        Err(String::from_str("Процесс не найден"))
    } else {
        Ok(from_chars(&t))
    }
}

/// The message when the link `/proc/<pid>/exe` could not be read.
pub fn unreadable_link_message(pid: u32, error: &str) -> (r: String)
    ensures
        r@ == "Не удалось прочитать симлинк /proc/"@ + decimal(pid as nat) + "/exe: "@ + error@,
{
    let mut v = to_chars("Не удалось прочитать симлинк /proc/");
    let d = crate::text::decimal_chars(pid as u64);
    crate::text::push_all(&mut v, &d);
    crate::text::push_str(&mut v, "/exe: ");
    crate::text::push_str(&mut v, error);
    from_chars(&v)
}

/// The command that shows the executable at `path` (in the directory
/// `dir`): Explorer selects it on Windows, Finder reveals it on macOS, the
/// desktop's opener opens the directory elsewhere.
pub open spec fn reveal_command(os: TargetOs, is_macos: bool, path: Seq<char>, dir: Seq<char>) -> CommandLineView {
    if os == TargetOs::Windows {
        command_view("explorer"@, seq!["/select,"@, path])
    } else if is_macos {
        command_view("open"@, seq!["-R"@, path])
    } else {
        command_view("xdg-open"@, seq![dir])
    }
}

/// The command that shows the executable.
pub fn reveal_command_line(os: TargetOs, is_macos: bool, path: &str, dir: &str) -> (r: CommandLine)
    ensures
        r@ == reveal_command(os, is_macos, path@, dir@),
{
    if os == TargetOs::Windows {
        command_line("explorer", args2(String::from_str("/select,"), String::from_str(path)))
    } else if is_macos {
        command_line("open", args2(String::from_str("-R"), String::from_str(path)))
    } else {
        let a = vec![String::from_str(dir)];
        assert(crate::command::string_views(a@) =~= seq![dir@]);
        command_line("xdg-open", a)
    }
}

/// The result of showing the executable: the directory that was opened,
/// or why it could not be.
pub fn reveal_result(dir: &str, started: Result<(), String>) -> (r: Result<String, String>)
    ensures
        started is Ok ==> (r matches Ok(m) && m@ == "Открыт путь: "@ + dir@),
        started matches Err(e) ==> (r matches Err(m) && m@ == "Ошибка при открытии пути: "@ + e@),
{
    match started {
        Ok(()) => Ok(concat2("Открыт путь: ", dir)),
        Err(e) => Err(concat2("Ошибка при открытии пути: ", e.as_str())),
    }
}

/// The message when the path of the process could not be found.
pub fn path_lookup_failed(error: &str) -> (r: String)
    ensures
        r@ == "Не удалось получить путь к процессу: "@ + error@,
{
    concat2("Не удалось получить путь к процессу: ", error)
}

/// The message when the path has no directory.
pub fn no_directory_message() -> (r: String)
    ensures
        r@ == "Не удалось определить директорию процесса"@,
{
    String::from_str("Не удалось определить директорию процесса")
}

} // verus!
