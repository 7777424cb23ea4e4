use xadmin::command::{Action, CommandOutcome, TargetOs};
use xadmin::kill::{
    can_close_port_individually, is_special_process, listed_image_name, mentions_special_software,
    process_still_listed, ClosePort, ClosePortOfProcess, CloseStage, FieldCut, ForcedTermination,
    KillLevel, PortStage, ScriptKind, TerminateAction, TerminateEvent,
};

const LISTING: &str = "\"Image Name\",\"PID\",\"Session Name\"\r\n\"steam.exe\",\"321\",\"Console\"\r\n";

fn ok(stdout: &str) -> CommandOutcome {
    CommandOutcome::Finished { success: true, stdout: stdout.as_bytes().to_vec() }
}

fn failed() -> CommandOutcome {
    CommandOutcome::Finished { success: false, stdout: Vec::new() }
}

fn not_started(e: &str) -> CommandOutcome {
    CommandOutcome::NotStarted { error: e.to_string() }
}

fn run_of(a: &Action) -> (u64, String, Vec<String>) {
    match a {
        Action::Run { wait_ms, command } => (*wait_ms, command.program.clone(), command.args.clone()),
        _ => panic!("expected a command"),
    }
}

fn finish_of(a: Action) -> (u64, Option<(String, String)>, Result<String, String>) {
    match a {
        Action::Finish { wait_ms, event, result } => (wait_ms, event, result),
        _ => panic!("expected the end"),
    }
}

#[test]
fn system_process_is_refused() {
    let (st, a) = ClosePort::begin("4", true);
    assert!(st.stage == CloseStage::Done);
    let (_, event, result) = finish_of(a);
    assert_eq!(event, None);
    assert_eq!(result, Err("Невозможно закрыть системный процесс".to_string()));
}

#[test]
fn close_port_first_level_confirmed() {
    let (mut st, a) = ClosePort::begin("1234", true);
    let (_, program, args) = run_of(&a);
    assert_eq!(program, "tasklist");
    assert_eq!(args, vec!["/FI", "PID eq 1234", "/FO", "CSV"]);
    let a = st.step(ok(LISTING));
    assert_eq!(run_of(&a), (0, "taskkill".to_string(), vec!["/PID".to_string(), "1234".to_string()]));
    let a = st.step(ok("SUCCESS"));
    assert_eq!(run_of(&a), (500, "tasklist".to_string(), vec!["/FI".to_string(), "PID eq 1234".to_string(), "/NH".to_string()]));
    let (_, event, result) = finish_of(st.step(ok("INFO: No tasks are running")));
    assert_eq!(event, Some(("port-closed".to_string(), "1234".to_string())));
    assert_eq!(result, Ok("Процесс 1234 успешно закрыт".to_string()));
}

#[test]
fn close_port_assumed_when_check_fails() {
    let (mut st, _) = ClosePort::begin("77", true);
    st.step(not_started("no tasklist"));
    st.step(ok(""));
    let (_, _, result) = finish_of(st.step(not_started("no tasklist")));
    assert_eq!(result, Ok("Процесс 77 предположительно закрыт".to_string()));
}

#[test]
fn close_port_every_level_fails_on_windows() {
    let (mut st, _) = ClosePort::begin("55", true);
    st.step(ok(LISTING));
    let a = st.step(failed());
    assert_eq!(run_of(&a).2, vec!["/F", "/PID", "55"]);
    let a = st.step(failed());
    assert_eq!(run_of(&a).2, vec!["/F", "/PID", "55", "/T"]);
    let a = st.step(failed());
    assert_eq!(run_of(&a).1, "powershell");
    assert!(st.stage == CloseStage::Attempt(KillLevel::Elevated));
    // PowerShell only has to start; then the process list is read.
    let a = st.step(failed());
    assert_eq!(run_of(&a).0, 1000);
    let a = st.step(ok("powershell.exe 55 Console"));
    assert_eq!(run_of(&a).2, vec!["-Command".to_string(), "(Get-WmiObject Win32_Process -Filter \"ProcessId = 55\").Terminate()".to_string()]);
    let a = st.step(ok(""));
    assert_eq!(run_of(&a).0, 1000);
    let (_, event, result) = finish_of(st.step(ok("x 55 y")));
    assert_eq!(event, Some(("port-close-error".to_string(), "55".to_string())));
    assert_eq!(result, Err("Не удалось закрыть процесс 55 даже используя все доступные методы".to_string()));
}

#[test]
fn close_port_children_elsewhere() {
    let (mut st, a) = ClosePort::begin("900", false);
    assert_eq!(run_of(&a).1, "ps");
    let a = st.step(ok("bash\n"));
    assert_eq!(run_of(&a), (0, "kill".to_string(), vec!["900".to_string()]));
    let a = st.step(failed());
    assert_eq!(run_of(&a), (0, "kill".to_string(), vec!["-9".to_string(), "900".to_string()]));
    let a = st.step(failed());
    assert_eq!(run_of(&a), (0, "pkill".to_string(), vec!["-TERM".to_string(), "-P".to_string(), "900".to_string()]));
    let a = st.step(failed());
    assert_eq!(run_of(&a), (0, "kill".to_string(), vec!["-9".to_string(), "900".to_string()]));
    let (_, _, result) = finish_of(st.step(failed()));
    assert_eq!(result, Err("Не удалось закрыть процесс 900 даже используя все доступные методы".to_string()));
}

#[test]
fn close_port_aborts_on_uncuttable_listing() {
    let (mut st, _) = ClosePort::begin("12", true);
    assert!(matches!(st.step(ok("header\r\n\"é,x\r\n")), Action::Abort));
}

#[test]
fn specific_port_netsh_path() {
    let (mut st, a) = ClosePortOfProcess::begin("42", "8080", "tcp", "127.0.0.1:8080", true);
    assert_eq!(run_of(&a).2, vec!["/FI", "PID eq 42", "/FO", "CSV"]);
    let a = st.step(ok("\"Image Name\",\"PID\"\r\n\"node.exe\",\"42\"\r\n"));
    assert_eq!(st.name, "node.exe");
    assert!(st.stage == PortStage::Netsh);
    assert_eq!(run_of(&a), (0, "cmd".to_string(), vec!["/c".to_string(), "netsh interface ipv4 delete tcpconnection 127.0.0.1:8080 0.0.0.0:0 tcp 42".to_string()]));
    let (_, event, result) = finish_of(st.step(ok("")));
    assert_eq!(event, Some(("port-closed".to_string(), "42:8080".to_string())));
    assert_eq!(result, Ok("Успешно закрыт порт 8080 для процесса node.exe".to_string()));
}

#[test]
fn specific_port_keeps_the_process() {
    // A game client's TCP port is closed like any other: the process is
    // never stopped.
    let (mut st, _) = ClosePortOfProcess::begin("321", "27036", "TCP", "0.0.0.0:27036", true);
    let a = st.step(ok(LISTING));
    assert_eq!(run_of(&a).1, "cmd");
    let (_, event, result) = finish_of(st.step(failed()));
    assert_eq!(event, Some(("port-close-error".to_string(), "321:27036".to_string())));
    assert_eq!(result, Err("Не удалось закрыть порт 27036 для процесса steam.exe без завершения процесса".to_string()));
}

#[test]
fn specific_port_errors() {
    let (mut st, _) = ClosePortOfProcess::begin("42", "80", "TCP", "0.0.0.0:80", true);
    st.step(not_started("no tasklist"));
    assert_eq!(st.name, "Unknown");
    let (_, event, result) = finish_of(st.step(not_started("denied")));
    assert_eq!(event, Some(("port-close-error".to_string(), "42:80".to_string())));
    assert_eq!(result, Err("Ошибка при запуске netsh: denied".to_string()));
}

#[test]
fn specific_port_udp_and_elsewhere() {
    let (mut st, _) = ClosePortOfProcess::begin("9", "53", "UDP", "0.0.0.0:53", true);
    let a = st.step(ok("\"Image Name\",\"PID\"\r\n\"dns.exe\",\"9\"\r\n"));
    assert_eq!(run_of(&a), (0, "taskkill".to_string(), vec!["/PID".to_string(), "9".to_string(), "/F".to_string()]));
    let (_, _, result) = finish_of(st.step(failed()));
    assert_eq!(result, Err("Не удалось закрыть UDP порт 53 для процесса dns.exe".to_string()));
    let (mut st, _) = ClosePortOfProcess::begin("9", "53", "UDP", "0.0.0.0:53", true);
    st.step(ok("\"Image Name\",\"PID\"\r\n\"dns.exe\",\"9\"\r\n"));
    let (_, _, result) = finish_of(st.step(ok("")));
    assert_eq!(result, Ok("Процесс dns.exe принудительно закрыт для освобождения UDP порта 53".to_string()));
    // A TCP port elsewhere: `ss -K` destroys its sockets.
    let (mut st, a) = ClosePortOfProcess::begin("9", "22", "TCP", "0.0.0.0:22", false);
    assert_eq!(run_of(&a).2, vec!["-p", "9", "-o", "comm="]);
    let a = st.step(ok("  sshd \n"));
    assert_eq!(st.name, "sshd");
    assert_eq!(run_of(&a), (0, "ss".to_string(), vec!["-K".to_string(), "sport".to_string(), "=".to_string(), ":22".to_string()]));
    let (_, _, result) = finish_of(st.step(ok("")));
    assert_eq!(result, Ok("Успешно закрыт порт 22 для процесса sshd".to_string()));
    // A UDP port elsewhere: its owner is stopped.
    let (mut st, _) = ClosePortOfProcess::begin("9", "68", "udp", "0.0.0.0:68", false);
    let a = st.step(ok("dhclient\n"));
    assert_eq!(run_of(&a), (0, "kill".to_string(), vec!["-9".to_string(), "9".to_string()]));
    let (_, _, result) = finish_of(st.step(not_started("gone")));
    assert_eq!(result, Err("Ошибка при запуске kill: gone".to_string()));
}

#[test]
fn forced_termination_checks() {
    assert_eq!(ForcedTermination::begin("1", false, false).err(), Some("Эта функция поддерживается только в Windows".to_string()));
    assert_eq!(ForcedTermination::begin("12a", true, true).err(), Some("Неверный PID: 12a".to_string()));
    let (t, a) = ForcedTermination::begin("+12", true, false).ok().unwrap();
    assert_eq!(t.pid_number, 12);
    assert!(matches!(a, TerminateAction::TerminateProcess(12)));
}

#[test]
fn forced_termination_script_path() {
    let (mut t, _) = ForcedTermination::begin("12", true, false).ok().unwrap();
    assert!(matches!(t.step(TerminateEvent::Terminated(false)), TerminateAction::WriteScript(ScriptKind::PowerShell)));
    assert!(matches!(t.step(TerminateEvent::Wrote(Ok(()))), TerminateAction::WriteScript(ScriptKind::Batch)));
    assert!(matches!(t.step(TerminateEvent::Wrote(Ok(()))), TerminateAction::RunBatch));
    match t.step(TerminateEvent::Ran(failed())) {
        TerminateAction::Finish { remove_scripts, result } => {
            assert!(remove_scripts);
            assert_eq!(result, Err("Не удалось завершить процесс 12. Возможно, требуются права администратора.".to_string()));
        }
        _ => panic!("expected the end"),
    }
}

#[test]
fn emergency_termination_paths() {
    let (mut t, a) = ForcedTermination::begin("12", true, true).ok().unwrap();
    assert!(matches!(a, TerminateAction::Run(_)));
    assert!(matches!(t.step(TerminateEvent::Ran(ok(LISTING))), TerminateAction::TerminateProcess(12)));
    match t.step(TerminateEvent::Terminated(true)) {
        TerminateAction::Finish { remove_scripts, result } => {
            assert!(!remove_scripts);
            assert_eq!(result, Ok("Процесс с PID 12 принудительно завершен через WinAPI".to_string()));
        }
        _ => panic!("expected the end"),
    }
    let (mut t, _) = ForcedTermination::begin("12", true, true).ok().unwrap();
    t.step(TerminateEvent::Ran(not_started("x")));
    t.step(TerminateEvent::Terminated(false));
    t.step(TerminateEvent::Wrote(Ok(())));
    match t.step(TerminateEvent::Wrote(Err("disk full".to_string()))) {
        TerminateAction::Finish { result, .. } => assert_eq!(result, Err("Не удалось создать батник: disk full".to_string())),
        _ => panic!("expected the end"),
    }
    let (mut t, _) = ForcedTermination::begin("12", true, true).ok().unwrap();
    t.step(TerminateEvent::Ran(not_started("x")));
    t.step(TerminateEvent::Terminated(false));
    t.step(TerminateEvent::Wrote(Ok(())));
    t.step(TerminateEvent::Wrote(Ok(())));
    match t.step(TerminateEvent::Ran(ok(""))) {
        TerminateAction::Finish { result, .. } => assert_eq!(result, Ok("Процесс 12 успешно завершен".to_string())),
        _ => panic!("expected the end"),
    }
}

#[test]
fn individual_close() {
    let never = || panic!("not asked");
    assert_eq!(can_close_port_individually("tcp", TargetOs::Windows, &never), Ok(true));
    assert_eq!(can_close_port_individually("UDP", TargetOs::Windows, &never), Ok(false));
    assert_eq!(can_close_port_individually("TCP", TargetOs::Other, &never), Ok(false));
    assert_eq!(can_close_port_individually("TCP", TargetOs::Linux, &|| true), Ok(true));
    assert_eq!(can_close_port_individually("TCP", TargetOs::Linux, &|| false), Ok(false));
}

#[test]
fn names_and_listings() {
    assert!(is_special_process("SteamWebHelper.exe"));
    assert!(is_special_process("Battle.net.exe"));
    assert!(!is_special_process("chrome.exe"));
    assert!(mentions_special_software("epicgameslauncher"));
    assert!(!mentions_special_software("Steam"));
    match listed_image_name(LISTING) {
        FieldCut::Cut(n) => assert_eq!(n, "steam.exe"),
        _ => panic!("expected a name"),
    }
    assert!(matches!(listed_image_name("only a header"), FieldCut::Missing));
    assert!(process_still_listed("steam.exe 321 Console", "321"));
    assert!(!process_still_listed("INFO: No tasks", "321"));
}
