//! Scripts that the user runs or saves: which interpreter runs a language,
//! the name and the bytes of the script's file, the command line, and the
//! report of a run.
use vstd::prelude::*;
use crate::command::string_views;
use crate::text::{
    concat2, concat3, concat4, concat5, decimal, ends_with, ends_with_str, from_chars, push_all,
    push_str, slice_chars, to_chars,
};

verus! {

// ---------------------------------------------------------------------------
// Identifiers
// ---------------------------------------------------------------------------

/// A lowercase hexadecimal digit.
pub open spec fn is_lower_hex(c: char) -> bool {
    ('0' <= c && c <= '9') || ('a' <= c && c <= 'f')
}

/// The hyphenated lowercase form of a random (version 4) UUID: 36
/// characters, hyphens at 8, 13, 18 and 23, hexadecimal digits elsewhere,
/// the version digit 4 at 14 and the variant digit (8, 9, a or b) at 19.
pub open spec fn is_v4_uuid_text(s: Seq<char>) -> bool {
    &&& s.len() == 36
    &&& forall|i: int|
        0 <= i < 36 ==> (if i == 8 || i == 13 || i == 18 || i == 23 {
            #[trigger] s[i] == '-'
        } else {
            is_lower_hex(s[i])
        })
    &&& s[14] == '4'
    &&& s[19] == '8' || s[19] == '9' || s[19] == 'a' || s[19] == 'b'
}

/// A new random identifier (`uuid::Uuid::new_v4`, written out): which one
/// is left to chance; its form is stated.
#[verifier::external_body]
fn new_script_id() -> (r: String)
    ensures
        is_v4_uuid_text(r@),
{
    uuid::Uuid::new_v4().to_string()
}

// ---------------------------------------------------------------------------
// Running a script
// ---------------------------------------------------------------------------

/// Where a shell script would run on this host.
#[derive(Clone, Copy, PartialEq, Eq, Structural)]
pub enum ShellHost {
    /// A Unix host, which has `bash`.
    Unix,
    /// A Windows host, where `wsl --version` and `bash --version` did or
    /// did not succeed.
    Windows { has_wsl: bool, has_bash: bool },
}

/// How a script is run: the name of its file, the interpreter and the
/// arguments before the file.
pub struct ScriptPlan {
    pub filename: String,
    pub program: String,
    pub args: Vec<String>,
}

/// What running a script comes to.
pub enum ScriptLaunch {
    /// Write the script to `filename` and run it with `program`.
    Run(ScriptPlan),
    /// No shell on Windows: run this PowerShell script instead.
    AsPowerShell(String),
}

/// The warning put before a shell script that PowerShell runs.
pub open spec fn no_bash_preamble() -> Seq<char> {
    "Write-Host \"Внимание: Bash не обнаружен на вашей системе. Попытка выполнить скрипт через PowerShell.\"\nWrite-Host \"Некоторые bash-команды могут не работать.\"\nWrite-Host \"\"\n"@
}

/// The interpreter and the arguments before the file for a language and
/// a host, and the extension of the file; `None` for a shell script on a
/// Windows host without a shell, or a language that is not supported.
pub open spec fn interpreter(language: Seq<char>, host: ShellHost) -> Option<(Seq<char>, Seq<char>, Seq<Seq<char>>)> {
    if language == "python"@ {
        Some((".py"@, "python"@, seq![]))
    } else if language == "powershell"@ {
        Some((".ps1"@, "powershell"@, seq!["-ExecutionPolicy"@, "Bypass"@]))
    } else if language == "shell"@ {
        match host {
            ShellHost::Unix => Some((".sh"@, "bash"@, seq![])),
            ShellHost::Windows { has_wsl, has_bash } => if has_wsl {
                Some((".sh"@, "wsl"@, seq!["bash"@]))
            } else if has_bash {
                Some((".sh"@, "bash"@, seq![]))
            } else {
                None
            },
        }
    } else {
        None
    }
}

/// A script is handed to PowerShell only where it is a shell script on a
/// Windows host with neither WSL nor bash: every other supported script
/// has an interpreter. On Windows a shell script runs through `wsl bash`
/// where WSL is there, else through `bash` where that is there.
pub proof fn lemma_powershell_only_without_shell(language: Seq<char>, host: ShellHost)
    ensures
        supported_language(language) ==> (interpreter(language, host) is None <==> (language
            == "shell"@ && host == ShellHost::Windows { has_wsl: false, has_bash: false })),
        !supported_language(language) ==> interpreter(language, host) is None,
        language == "shell"@ && host == (ShellHost::Windows { has_wsl: false, has_bash: true })
            ==> interpreter(language, host) == Some((".sh"@, "bash"@, Seq::<Seq<char>>::empty())),
        language == "shell"@ && (host matches ShellHost::Windows { has_wsl: true, .. })
            ==> interpreter(language, host) == Some((".sh"@, "wsl"@, seq!["bash"@])),
{
    reveal_strlit("python");
    reveal_strlit("powershell");
    reveal_strlit("shell");
    assert("python"@ != "shell"@) by {
        assert("python"@.len() != "shell"@.len());
    }
    assert("powershell"@ != "shell"@) by {
        assert("powershell"@.len() != "shell"@.len());
    }
}

/// Whether a language is one of those that can be run.
pub open spec fn supported_language(language: Seq<char>) -> bool {
    language == "python"@ || language == "powershell"@ || language == "shell"@
}

/// Decides how to run `script`, written in `language`, on `host`: the
/// file is named after a new random identifier; a shell script on Windows
/// without a shell is handed to PowerShell with a warning before it; a
/// language that is not supported is refused.
pub fn plan_script(script: &str, language: &str, host: ShellHost) -> (r: Result<ScriptLaunch, String>)
    ensures
        !supported_language(language@) ==> (r matches Err(e) && e@ == "Неподдерживаемый язык: "@
            + language@),
        supported_language(language@) && interpreter(language@, host) is None ==> (r matches Ok(
            ScriptLaunch::AsPowerShell(s),
        ) && s@ == no_bash_preamble() + script@),
        interpreter(language@, host) matches Some((ext, program, args)) ==> {
            &&& r matches Ok(ScriptLaunch::Run(p))
            &&& p.program@ == program
            &&& string_views(p.args@) == args
            &&& p.filename@.len() == 7 + 36 + ext.len()
            &&& p.filename@.subrange(0, 7) == "script_"@
            &&& is_v4_uuid_text(p.filename@.subrange(7, 43))
            &&& p.filename@.subrange(43, p.filename@.len() as int) == ext
        },
{
    let lc = to_chars(language);
    let (ext, program, args): (&str, &str, Vec<String>) = if crate::text::eq_str(&lc, "python") {
        let a: Vec<String> = Vec::new();
        assert(string_views(a@) =~= seq![]);
        (".py", "python", a)
    } else if crate::text::eq_str(&lc, "powershell") {
        (".ps1", "powershell", crate::command::args2(
            String::from_str("-ExecutionPolicy"),
            String::from_str("Bypass"),
        ))
    } else if crate::text::eq_str(&lc, "shell") {
        match host {
            ShellHost::Unix => {
                let a: Vec<String> = Vec::new();
                assert(string_views(a@) =~= seq![]);
                (".sh", "bash", a)
            },
            ShellHost::Windows { has_wsl, has_bash } => if has_wsl {
                let a = vec![String::from_str("bash")];
                assert(string_views(a@) =~= seq!["bash"@]);
                (".sh", "wsl", a)
            } else if has_bash {
                let a: Vec<String> = Vec::new();
                assert(string_views(a@) =~= seq![]);
                (".sh", "bash", a)
            } else {
                let s = concat2(
                    "Write-Host \"Внимание: Bash не обнаружен на вашей системе. Попытка выполнить скрипт через PowerShell.\"\nWrite-Host \"Некоторые bash-команды могут не работать.\"\nWrite-Host \"\"\n",
                    script,
                );
                return Ok(ScriptLaunch::AsPowerShell(s));
            },
        }
    } else {
        return Err(concat2("Неподдерживаемый язык: ", language));
    };
    let id = new_script_id();
    let filename = concat3("script_", id.as_str(), ext);
    proof {
        reveal_strlit("script_");
        assert(filename@.subrange(0, 7) =~= "script_"@);
        assert(filename@.subrange(7, 43) =~= id@);
        assert(filename@.subrange(43, filename@.len() as int) =~= ext@);
    }
    Ok(ScriptLaunch::Run(ScriptPlan { filename, program: String::from_str(program), args }))
}

/// The bytes of the script's file: UTF-8, after a byte order mark for
/// PowerShell, which would not read Cyrillic otherwise.
pub open spec fn script_file_bytes(language: Seq<char>, script: Seq<char>) -> Seq<u8> {
    if language == "powershell"@ {
        seq![0xEFu8, 0xBBu8, 0xBFu8] + vstd::utf8::encode_utf8(script)
    } else {
        vstd::utf8::encode_utf8(script)
    }
}

/// The bytes of the file of `script`.
pub fn script_file_contents(language: &str, script: &str) -> (r: Vec<u8>)
    ensures
        r@ == script_file_bytes(language@, script@),
{
    let lc = to_chars(language);
    let mut r: Vec<u8> = Vec::new();
    if crate::text::eq_str(&lc, "powershell") {
        r.push(0xEF);
        r.push(0xBB);
        r.push(0xBF);
    }
    let ghost start = r@;
    let b = script.as_bytes();
    let mut i: usize = 0;
    while i < b.len()
        invariant
            i <= b@.len(),
            r@ == start + b@.take(i as int),
        decreases b.len() - i,
    {
        r.push(b[i]);
        assert(b@.take(i + 1) =~= b@.take(i as int).push(b@[i as int]));
        i = i + 1;
    }
    assert(b@.take(b@.len() as int) =~= b@);
    assert(start =~= (if language@ == "powershell"@ { seq![0xEFu8, 0xBBu8, 0xBFu8] } else { seq![] }));
    r
}

/// A Windows path as WSL sees it: under `/mnt/`, its backslashes turned
/// into slashes and its colons dropped.
pub open spec fn wsl_path_of(path: Seq<char>) -> Seq<char> {
    "/mnt/"@ + wsl_body(path)
}

/// The backslashes of a path turned into slashes, its colons dropped.
pub open spec fn wsl_body(path: Seq<char>) -> Seq<char>
    decreases path.len(),
{
    if path.len() == 0 {
        seq![]
    } else {
        let rest = wsl_body(path.drop_last());
        let c = path.last();
        if c == ':' {
            rest
        } else if c == '\\' {
            rest.push('/')
        } else {
            rest.push(c)
        }
    }
}

/// The path of a script's file as WSL sees it.
pub fn wsl_path(path: &str) -> (r: String)
    ensures
        r@ == wsl_path_of(path@),
{
    let p = to_chars(path);
    let mut q = to_chars("/mnt/");
    let ghost start = q@;
    let mut i: usize = 0;
    while i < p.len()
        invariant
            i <= p@.len(),
            q@ == start + wsl_body(p@.take(i as int)),
        decreases p.len() - i,
    {
        let c = p[i];
        assert(p@.take(i + 1).drop_last() =~= p@.take(i as int));
        if c == '\\' {
            q.push('/');
        } else if c != ':' {
            q.push(c);
        }
        i = i + 1;
    }
    assert(p@.take(p@.len() as int) =~= p@);
    from_chars(&q)
}

/// The arguments of the interpreter: for PowerShell, a command that sets
/// UTF-8 output and runs the file; for Python, `-u` and the file (the
/// arguments before are dropped); for the others, the arguments then the
/// file, which `wsl` sees under `/mnt/` on Windows.
pub open spec fn script_args(language: Seq<char>, program: Seq<char>, args: Seq<Seq<char>>, path: Seq<char>, is_windows: bool) -> Seq<Seq<char>> {
    let p = if is_windows && program == "wsl"@ {
        wsl_path_of(path)
    } else {
        path
    };
    if language == "powershell"@ {
        args + seq!["-Command"@, "$OutputEncoding = [System.Text.Encoding]::UTF8; & '"@ + p + "'"@]
    } else if language == "python"@ {
        seq!["-u"@, p]
    } else {
        args.push(p)
    }
}

/// The arguments with which the interpreter runs the file at `path`.
pub fn script_arguments(language: &str, plan: &ScriptPlan, path: &str, is_windows: bool) -> (r: Vec<String>)
    ensures
        string_views(r@) == script_args(language@, plan.program@, string_views(plan.args@), path@, is_windows),
{
    let pc = to_chars(plan.program.as_str());
    let p = if is_windows && crate::text::eq_str(&pc, "wsl") {
        wsl_path(path)
    } else {
        String::from_str(path)
    };
    let lc = to_chars(language);
    if crate::text::eq_str(&lc, "python") {
        proof {
            reveal_strlit("python");
            reveal_strlit("powershell");
            assert("python"@.len() != "powershell"@.len());
        }
        return crate::command::args2(String::from_str("-u"), p);
    }
    let mut r: Vec<String> = Vec::new();
    let mut i: usize = 0;
    while i < plan.args.len()
        invariant
            i <= plan.args@.len(),
            string_views(r@) == string_views(plan.args@).take(i as int),
        decreases plan.args.len() - i,
    {
        let ghost before = r@;
        r.push(plan.args[i].clone());
        assert(string_views(r@) =~= string_views(before).push(plan.args@[i as int]@));
        assert(string_views(plan.args@).take(i + 1) =~= string_views(plan.args@).take(i as int).push(
            plan.args@[i as int]@,
        ));
        i = i + 1;
    }
    assert(string_views(plan.args@).take(plan.args@.len() as int) =~= string_views(plan.args@));
    let ghost before = r@;
    if crate::text::eq_str(&lc, "powershell") {
        r.push(String::from_str("-Command"));
        r.push(concat3("$OutputEncoding = [System.Text.Encoding]::UTF8; & '", p.as_str(), "'"));
        assert(string_views(r@) =~= string_views(before) + seq![
            "-Command"@,
            "$OutputEncoding = [System.Text.Encoding]::UTF8; & '"@ + p@ + "'"@,
        ]);
    } else {
        r.push(p);
        assert(string_views(r@) =~= string_views(before).push(p@));
    }
    r
}

/// What a run reports: what the script printed, then, where it printed
/// errors, "ОШИБКА:" and the errors (after an empty line where something
/// came before), then the exit code (-1 where there is none).
pub open spec fn run_report(stdout: Seq<char>, stderr: Seq<char>, code: Option<i32>) -> Seq<char> {
    let head = if stderr.len() == 0 {
        stdout
    } else if stdout.len() == 0 {
        "ОШИБКА:\n"@ + stderr
    } else {
        stdout + "\n\nОШИБКА:\n"@ + stderr
    };
    head + "\n\nКод возврата: "@ + signed_decimal(
        match code {
            Some(c) => c as int,
            None => -1,
        },
    )
}

/// The decimal notation of an integer, with a minus sign below zero.
pub open spec fn signed_decimal(n: int) -> Seq<char> {
    if n < 0 {
        "-"@ + decimal((-n) as nat)
    } else {
        decimal(n as nat)
    }
}

/// The decimal notation of an `i32`.
fn signed_decimal_chars(n: i32) -> (r: Vec<char>)
    ensures
        r@ == signed_decimal(n as int),
{
    if n < 0 {
        let m: u64 = (0i64 - (n as i64)) as u64;
        let mut v = to_chars("-");
        let d = crate::text::decimal_chars(m);
        push_all(&mut v, &d);
        v
    } else {
        crate::text::decimal_chars(n as u64)
    }
}

/// The report of a run from the texts it printed and its exit code.
pub fn script_report(stdout: &str, stderr: &str, code: Option<i32>) -> (r: String)
    ensures
        r@ == run_report(stdout@, stderr@, code),
{
    let mut v = to_chars(stdout);
    let se = to_chars(stderr);
    if se.len() > 0 {
        if v.len() > 0 {
            push_str(&mut v, "\n\n");
        }
        push_str(&mut v, "ОШИБКА:\n");
        push_all(&mut v, &se);
    }
    proof {
        reveal_strlit("\n\n");
        reveal_strlit("ОШИБКА:\n");
        reveal_strlit("\n\nОШИБКА:\n");
        assert("\n\nОШИБКА:\n"@ =~= "\n\n"@ + "ОШИБКА:\n"@);
    }
    push_str(&mut v, "\n\nКод возврата: ");
    let c: i32 = match code {
        Some(c) => c,
        None => -1,
    };
    let d = signed_decimal_chars(c);
    push_all(&mut v, &d);
    from_chars(&v)
}

/// The report of a run from the bytes it printed (decoded as
/// `String::from_utf8_lossy` does) and its exit code.
pub fn run_script_report(stdout: &[u8], stderr: &[u8], code: Option<i32>) -> (r: String)
    ensures
        r@ == run_report(
            crate::text::utf8_lossy_decoding(stdout@),
            crate::text::utf8_lossy_decoding(stderr@),
            code,
        ),
{
    let o = crate::text::utf8_lossy(stdout);
    let e = crate::text::utf8_lossy(stderr);
    script_report(o.as_str(), e.as_str(), code)
}

/// The text that `{:?}` writes for a list of texts.
pub uninterp spec fn debug_listing(items: Seq<Seq<char>>) -> Seq<char>;

/// The list as `{:?}` writes it (quoted, escaped, in brackets).
#[verifier::external_body]
fn debug_list(items: &Vec<String>) -> (r: String)
    ensures
        r@ == debug_listing(string_views(items@)),
{
    format!("{:?}", items)
}

/// The message when the interpreter could not be started.
pub fn launch_error_message(error: &str, program: &str, args: &Vec<String>) -> (r: String)
    ensures
        r@ == "Ошибка при запуске скрипта: "@ + error@ + "\nКоманда: "@ + program@ + " "@
            + debug_listing(string_views(args@)),
{
    let listing = debug_list(args);
    let head = concat4("Ошибка при запуске скрипта: ", error, "\nКоманда: ", program);
    concat3(head.as_str(), " ", listing.as_str())
}

// ---------------------------------------------------------------------------
// Saving a script
// ---------------------------------------------------------------------------

/// The extension of a saved script: py, ps1, sh, or txt for anything else.
pub open spec fn saved_extension(language: Seq<char>) -> Seq<char> {
    if language == "python"@ {
        "py"@
    } else if language == "powershell"@ {
        "ps1"@
    } else if language == "shell"@ {
        "sh"@
    } else {
        "txt"@
    }
}

/// The extension of a saved script.
pub fn extension_for(language: &str) -> (r: String)
    ensures
        r@ == saved_extension(language@),
{
    let lc = to_chars(language);
    let e = if crate::text::eq_str(&lc, "python") {
        "py"
    } else if crate::text::eq_str(&lc, "powershell") {
        "ps1"
    } else if crate::text::eq_str(&lc, "shell") {
        "sh"
    } else {
        "txt"
    };
    String::from_str(e)
}

/// A new name for a saved script: `script_<language>_<uuid>.<extension>`.
pub fn saved_script_name(language: &str) -> (r: String)
    ensures
        exists|id: Seq<char>| is_v4_uuid_text(id) && r@ == "script_"@ + language@ + "_"@ + id + "."@
            + saved_extension(language@),
{
    let ext = extension_for(language);
    let id = new_script_id();
    let head = concat4("script_", language, "_", id.as_str());
    concat3(head.as_str(), ".", ext.as_str())
}

/// The message when a script was saved at `path`.
pub fn saved_message(path: &str) -> (r: String)
    ensures
        r@ == "Скрипт успешно сохранен в "@ + path@,
{
    concat2("Скрипт успешно сохранен в ", path)
}

/// The title of the save dialog for a language.
pub open spec fn dialog_title(language: Seq<char>) -> Seq<char> {
    "Сохранить "@ + if language == "python"@ {
        "Python"@
    } else if language == "powershell"@ {
        "PowerShell"@
    } else if language == "shell"@ {
        "Bash"@
    } else {
        "текстовый"@
    } + " скрипт"@
}

/// The title of the save dialog.
pub fn save_dialog_title(language: &str) -> (r: String)
    ensures
        r@ == dialog_title(language@),
{
    let lc = to_chars(language);
    let n = if crate::text::eq_str(&lc, "python") {
        "Python"
    } else if crate::text::eq_str(&lc, "powershell") {
        "PowerShell"
    } else if crate::text::eq_str(&lc, "shell") {
        "Bash"
    } else {
        "текстовый"
    };
    concat3("Сохранить ", n, " скрипт")
}

/// The name that the save dialog proposes: the suggested one, or
/// `script_<language>_<the first group of a new UUID><extension>`.
pub fn default_script_name(language: &str, extension: &str, suggested: &str) -> (r: String)
    ensures
        suggested@.len() > 0 ==> r@ == suggested@,
        suggested@.len() == 0 ==> exists|id: Seq<char>|
            is_v4_uuid_text(id) && r@ == "script_"@ + language@ + "_"@ + id.take(8) + extension@,
{
    let sc = to_chars(suggested);
    if sc.len() > 0 {
        return String::from_str(suggested);
    }
    let id = new_script_id();
    let idc = to_chars(id.as_str());
    let first = from_chars(&slice_chars(&idc, 0, 8));
    assert(first@ =~= id@.take(8));
    concat5("script_", language, "_", first.as_str(), extension)
}

/// Whether a chosen path already has the extension.
pub fn has_extension(path: &str, extension: &str) -> (r: bool)
    ensures
        r == ends_with(path@, extension@),
{
    let pc = to_chars(path);
    ends_with_str(&pc, extension)
}

} // verus!
