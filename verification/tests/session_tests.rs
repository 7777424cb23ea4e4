use xadmin::desktop::{
    executable_path_in_listing, greet, open_process_path_check, path_from_ps, reveal_command_line,
    reveal_result, unreadable_link_message,
};
use xadmin::command::TargetOs;
use xadmin::history::{
    after_same_command_search, history_error, plan_command_save, CommandSave, HistoryStep,
    TerminalCommandRecord,
};
use xadmin::pty::{
    already_closed_terminal_message, change_directory_command, clear_screen_sequence,
    exit_command, missing_terminal_message, terminal_greeting, PtyRegistry,
};
use xadmin::scripts::{
    default_script_name, extension_for, has_extension, launch_error_message, plan_script,
    run_script_report, save_dialog_title, saved_script_name, script_arguments,
    script_file_contents, script_report, wsl_path, ScriptLaunch, ShellHost,
};
use xadmin::terminal::{is_duplicate_line, ChunkStage, TerminalOutput};

/// Runs a chunk through its phases, every text delivered, and gives the
/// texts sent.
fn feed(out: &mut TerminalOutput, bytes: &[u8], now: u64) -> Vec<String> {
    let mut run = out.begin_chunk(bytes, now);
    let mut sent = Vec::new();
    while run.stage != ChunkStage::Done {
        if let Some(t) = out.phase_text(&mut run) {
            sent.push(t);
        }
        out.phase_delivered(&mut run, true);
    }
    sent
}

fn is_uuid(s: &str) -> bool {
    s.len() == 36
        && s.chars().enumerate().all(|(i, c)| if [8, 13, 18, 23].contains(&i) { c == '-' } else { c.is_ascii_hexdigit() && !c.is_ascii_uppercase() })
}

#[test]
fn registry_hands_out_ids_from_one() {
    let mut reg: PtyRegistry<&str> = PtyRegistry::new();
    assert!(reg.can_reserve());
    let a = reg.reserve_id();
    let b = reg.reserve_id();
    assert_eq!((a, b), (1, 2));
    reg.insert(a, "first");
    reg.insert(b, "second");
    assert!(reg.contains(1));
    let mut ids = reg.ids();
    ids.sort();
    assert_eq!(ids, vec![1, 2]);
    assert_eq!(reg.remove(1), Some("first"));
    assert_eq!(reg.remove(1), None);
    assert!(!reg.contains(1));
    assert_eq!(reg.reserve_id(), 3);
    reg.insert(2, "again");
    assert_eq!(reg.ids(), vec![2]);
    assert_eq!(reg.remove(2), Some("again"));
}

#[test]
fn terminal_texts() {
    assert_eq!(missing_terminal_message(7), "Терминал с ID 7 не найден");
    assert_eq!(already_closed_terminal_message(12), "Терминал с ID 12 не найден или уже закрыт");
    assert_eq!(terminal_greeting(3), "Терминал X-Avto #3 готов к работе!\r\n\nPS C:\\Users\\> ");
    assert_eq!(change_directory_command("C:/Users/me"), "Set-Location C:\\Users\\me\r\n");
    assert_eq!(clear_screen_sequence(), "\x1b[2J\x1b[1;1H");
    assert_eq!(exit_command(), "exit\r\n");
}

#[test]
fn script_plans() {
    match plan_script("print(1)", "python", ShellHost::Unix) {
        Ok(ScriptLaunch::Run(p)) => {
            assert_eq!(p.program, "python");
            assert!(p.args.is_empty());
            assert!(p.filename.starts_with("script_") && p.filename.ends_with(".py"));
            assert!(is_uuid(&p.filename[7..43]));
        }
        _ => panic!("expected a plan"),
    }
    match plan_script("ls", "shell", ShellHost::Windows { has_wsl: true, has_bash: true }) {
        Ok(ScriptLaunch::Run(p)) => {
            assert_eq!(p.program, "wsl");
            assert_eq!(p.args, vec!["bash".to_string()]);
        }
        _ => panic!("expected a plan"),
    }
    match plan_script("ls", "shell", ShellHost::Windows { has_wsl: false, has_bash: false }) {
        Ok(ScriptLaunch::AsPowerShell(s)) => {
            assert!(s.starts_with("Write-Host \"Внимание: Bash не обнаружен на вашей системе."));
            assert!(s.ends_with("Write-Host \"\"\nls"));
        }
        _ => panic!("expected PowerShell"),
    }
    assert_eq!(plan_script("x", "ruby", ShellHost::Unix).err(), Some("Неподдерживаемый язык: ruby".to_string()));
}

#[test]
fn script_files_and_arguments() {
    assert_eq!(script_file_contents("powershell", "Write-Host 'я'"), {
        let mut v = vec![0xEF, 0xBB, 0xBF];
        v.extend_from_slice("Write-Host 'я'".as_bytes());
        v
    });
    assert_eq!(script_file_contents("python", "print(1)"), b"print(1)".to_vec());
    assert_eq!(wsl_path("C:\\Temp\\s.sh"), "/mnt/C/Temp/s.sh");
    let plan = match plan_script("x", "powershell", ShellHost::Unix) {
        Ok(ScriptLaunch::Run(p)) => p,
        _ => panic!("expected a plan"),
    };
    assert_eq!(
        script_arguments("powershell", &plan, "C:\\t\\a.ps1", true),
        vec!["-ExecutionPolicy", "Bypass", "-Command", "$OutputEncoding = [System.Text.Encoding]::UTF8; & 'C:\\t\\a.ps1'"]
    );
    let wsl = match plan_script("x", "shell", ShellHost::Windows { has_wsl: true, has_bash: false }) {
        Ok(ScriptLaunch::Run(p)) => p,
        _ => panic!("expected a plan"),
    };
    assert_eq!(script_arguments("shell", &wsl, "C:\\t\\a.sh", true), vec!["bash", "/mnt/C/t/a.sh"]);
    let py = match plan_script("x", "python", ShellHost::Unix) {
        Ok(ScriptLaunch::Run(p)) => p,
        _ => panic!("expected a plan"),
    };
    assert_eq!(script_arguments("python", &py, "/tmp/a.py", false), vec!["-u", "/tmp/a.py"]);
}

#[test]
fn run_reports() {
    assert_eq!(script_report("hi\n", "", Some(0)), "hi\n\n\nКод возврата: 0");
    assert_eq!(script_report("", "bad", Some(2)), "ОШИБКА:\nbad\n\nКод возврата: 2");
    assert_eq!(script_report("out", "err", None), "out\n\nОШИБКА:\nerr\n\nКод возврата: -1");
    assert_eq!(script_report("", "", Some(-3)), "\n\nКод возврата: -3");
    assert_eq!(run_script_report(b"a", &[0xff], Some(1)), "a\n\nОШИБКА:\n\u{fffd}\n\nКод возврата: 1");
    assert_eq!(
        launch_error_message("not found", "python", &vec!["-u".to_string(), "C:\\a.py".to_string()]),
        "Ошибка при запуске скрипта: not found\nКоманда: python [\"-u\", \"C:\\\\a.py\"]"
    );
}

#[test]
fn saving_scripts() {
    assert_eq!(extension_for("shell"), "sh");
    assert_eq!(extension_for("go"), "txt");
    let n = saved_script_name("python");
    assert!(n.starts_with("script_python_") && n.ends_with(".py"));
    assert!(is_uuid(&n[14..50]));
    assert_eq!(save_dialog_title("powershell"), "Сохранить PowerShell скрипт");
    assert_eq!(save_dialog_title("lua"), "Сохранить текстовый скрипт");
    assert_eq!(default_script_name("python", ".py", "mine.py"), "mine.py");
    let d = default_script_name("shell", ".sh", "");
    assert!(d.starts_with("script_shell_") && d.ends_with(".sh") && d.len() == "script_shell_".len() + 8 + 3);
    assert!(has_extension("C:\\a\\b.ps1", ".ps1"));
    assert!(!has_extension("C:\\a\\b", ".ps1"));
}

#[test]
fn desktop_commands() {
    assert_eq!(greet("Ann"), "Hello, Ann! You've been greeted from Rust!");
    assert_eq!(open_process_path_check(4), Err("Системный процесс: путь недоступен".to_string()));
    assert_eq!(open_process_path_check(5), Ok(()));
    assert_eq!(executable_path_in_listing("\r\n\r\nExecutablePath=C:\\x\\y.exe\r\n\r\n"), Some("C:\\x\\y.exe".to_string()));
    assert_eq!(executable_path_in_listing("No Instance(s) Available.\r\n"), None);
    assert_eq!(path_from_ps(true, " /usr/bin/zsh \n"), Ok("/usr/bin/zsh".to_string()));
    assert_eq!(path_from_ps(true, " \n"), Err("Процесс не найден".to_string()));
    assert_eq!(path_from_ps(false, "x"), Err("Не удалось выполнить команду ps".to_string()));
    assert_eq!(unreadable_link_message(42, "denied"), "Не удалось прочитать симлинк /proc/42/exe: denied");
    let c = reveal_command_line(TargetOs::Windows, false, "C:\\a\\b.exe", "C:\\a");
    assert_eq!((c.program.as_str(), c.args.clone()), ("explorer", vec!["/select,".to_string(), "C:\\a\\b.exe".to_string()]));
    let c = reveal_command_line(TargetOs::Linux, false, "/a/b", "/a");
    assert_eq!((c.program.as_str(), c.args.clone()), ("xdg-open", vec!["/a".to_string()]));
    assert_eq!(reveal_result("/a", Ok(())), Ok("Открыт путь: /a".to_string()));
    assert_eq!(reveal_result("/a", Err("x".to_string())), Err("Ошибка при открытии пути: x".to_string()));
}

#[test]
fn history_decisions() {
    let rec = TerminalCommandRecord {
        id: Some(9),
        terminal_tab_id: 1,
        command: "dir".to_string(),
        time: "10:00".to_string(),
        status: None,
        exit_code: None,
        output: None,
    };
    assert!(plan_command_save(&rec) == CommandSave::Rewrite(9));
    let fresh = TerminalCommandRecord { id: None, ..rec };
    assert!(plan_command_save(&fresh) == CommandSave::LookForSame);
    assert_eq!(after_same_command_search(&vec![4, 8]), Some(4));
    assert_eq!(after_same_command_search(&vec![]), None);
    assert_eq!(history_error(HistoryStep::DeleteTab, "locked"), "Ошибка удаления вкладки: locked");
    assert_eq!(history_error(HistoryStep::InsertCommand, "x"), "Не удалось сохранить команду: x");
}

#[test]
fn prompt_chunk_passes_at_once() {
    let mut out = TerminalOutput::new(0);
    let seen = feed(&mut out, "PS C:\\> ".as_bytes(), 1_000_000);
    assert_eq!(seen[0], "PS C:\\> ");
}

#[test]
fn complete_lines_are_passed_and_repeats_dropped() {
    let mut out = TerminalOutput::new(0);
    // The first chunk goes out as it is; its complete lines are then
    // scanned, the empty piece after the final line end included.
    assert_eq!(
        feed(&mut out, b"hello world\n", 1_000_000),
        vec!["hello world\n".to_string(), "hello world\n\n".to_string()]
    );
    assert_eq!(feed(&mut out, b"next line\n", 2_000_000), vec!["next line\n\n".to_string()]);
    // A line that repeats a recent one is not passed again.
    assert_eq!(feed(&mut out, b"hello world\n", 3_000_000), vec!["\n".to_string()]);
    // The same chunk a fourth time in a row is dropped.
    let mut out = TerminalOutput::new(0);
    feed(&mut out, b"abc", 0);
    feed(&mut out, b"abc", 0);
    feed(&mut out, b"abc", 0);
    let run = out.begin_chunk(b"abc", 0);
    assert!(run.stage == ChunkStage::Done);
}

#[test]
fn unfinished_output_waits() {
    let mut out = TerminalOutput::new(0);
    assert_eq!(feed(&mut out, b"x", 0).len(), 1);
    assert!(feed(&mut out, b"partial", 50_000_000).is_empty());
    assert_eq!(feed(&mut out, b"!", 300_000_000), vec!["xpartial!".to_string()]);
}

#[test]
fn undelivered_text_is_kept() {
    // The first chunk is sent at once; when it is not delivered, the next
    // one is still sent at once.
    let mut out = TerminalOutput::new(0);
    let mut run = out.begin_chunk(b"x", 0);
    assert_eq!(out.phase_text(&mut run), Some("x".to_string()));
    assert!(run.awaiting);
    out.phase_delivered(&mut run, false);
    assert!(run.stage == ChunkStage::Lines && !run.awaiting);
    while run.stage != ChunkStage::Done {
        out.phase_text(&mut run);
        out.phase_delivered(&mut run, false);
    }
    assert_eq!(feed(&mut out, b"y", 0)[0], "y");
    // Once delivered, a plain chunk waits.
    assert!(feed(&mut out, b"z", 0).is_empty());
}

#[test]
fn duplicate_lines() {
    let sent: Vec<Vec<char>> = vec!["some long output line here".chars().collect()];
    let mut ec = 0u64;
    let line: Vec<char> = "some long output line here".chars().collect();
    assert!(is_duplicate_line(&line, &sent, &mut ec));
    let prompt: Vec<char> = "PS C:\\>".chars().collect();
    assert!(!is_duplicate_line(&prompt, &sent, &mut ec));
    let short: Vec<char> = "a".chars().collect();
    assert!(!is_duplicate_line(&short, &sent, &mut ec));
}
