use xadmin::command::CommandOutcome;
use xadmin::kill::FieldCut;
use xadmin::ports::{
    first_load_batches, get_network_ports, get_ports_internal, get_process_name,
    get_unix_ports, get_windows_ports, next_refresh_round, parse_ss_line, parse_ss_table, parse_netstat_line, parse_netstat_table,
    port_keys_differ, ports_refresh_plan, powershell_path, system_pid, tasklist_image_name,
    NetstatAction, NetstatRun, NetstatStage, Port, PortsCache, ProcessInfoCache, ProcessLookup,
    PortsRefresher, RefreshPlan,
};

const NETSTAT: &str = "\r\nActive Connections\r\n\r\n  Proto  Local Address          Foreign Address        State           PID\r\n  TCP    0.0.0.0:135            0.0.0.0:0              LISTENING       1256\r\n  TCP    127.0.0.1:5432         0.0.0.0:0              LISTENING       4\r\n  UDP    0.0.0.0:5353           *:*                                    2210\r\n  garbage line\r\n";

const SS: &str = "Netid State  Recv-Q Send-Q Local Address:Port Peer Address:Port Process\n\
tcp   LISTEN 0      4096   0.0.0.0:22         0.0.0.0:*     users:((\"sshd\",pid=1256,fd=3))\n\
tcp   ESTAB  0      0      10.0.0.5:22        10.0.0.9:50412 users:((\"my app\",pid=77,fd=4),(\"sshd\",pid=78,fd=4))\n\
udp   UNCONN 0      0      0.0.0.0:68         0.0.0.0:*\n";

fn port(protocol: &str, local: &str, pid: &str) -> Port {
    Port {
        protocol: protocol.to_string(),
        local_addr: local.to_string(),
        foreign_addr: "0.0.0.0:0".to_string(),
        state: "LISTENING".to_string(),
        pid: pid.to_string(),
        name: "x".to_string(),
        path: String::new(),
    }
}

fn lookup_known(pid: &str) -> ProcessLookup {
    if pid == "1256" {
        ProcessLookup { name: Some("svchost.exe".to_string()), path: Some("C:\\Windows\\System32\\svchost.exe".to_string()) }
    } else {
        ProcessLookup { name: None, path: None }
    }
}

#[test]
fn netstat_table_rows() {
    let rows = parse_netstat_table(NETSTAT);
    assert_eq!(rows.len(), 3);
    assert_eq!(rows[0].protocol, "TCP");
    assert_eq!(rows[0].local_addr, "0.0.0.0:135");
    assert_eq!(rows[0].state, "LISTENING");
    assert_eq!(rows[0].pid, "1256");
    assert_eq!(rows[2].protocol, "UDP");
    assert_eq!(rows[2].foreign_addr, "*:*");
    assert_eq!(rows[2].state, "");
    assert_eq!(rows[2].pid, "2210");
}

#[test]
fn netstat_line_needs_five_fields_for_tcp() {
    let short: Vec<char> = "TCP 1.1.1.1:1 2.2.2.2:2 ESTABLISHED".chars().collect();
    assert!(parse_netstat_line(&short).is_none());
    let other: Vec<char> = "ICMP a b c d".chars().collect();
    assert!(parse_netstat_line(&other).is_none());
}

#[test]
fn windows_ports_named_from_lookup_and_cache() {
    let mut cache = ProcessInfoCache::new();
    let ports = get_windows_ports(NETSTAT.as_bytes(), &mut cache, &lookup_known);
    assert_eq!(ports.len(), 3);
    assert_eq!(ports[0].name, "svchost.exe");
    assert_eq!(ports[0].path, "C:\\Windows\\System32\\svchost.exe");
    assert_eq!(ports[1].name, "System");
    assert_eq!(ports[1].path, "Windows System");
    assert_eq!(ports[2].name, "Unknown");
    assert_eq!(ports[2].path, "");
    assert_eq!(cache.get("1256"), Some(("svchost.exe".to_string(), "C:\\Windows\\System32\\svchost.exe".to_string())));
    assert_eq!(cache.get("4"), None);
}

#[test]
fn windows_1251_output_is_decoded() {
    // "Протокол" in Windows-1251 is not UTF-8.
    let mut bytes: Vec<u8> = Vec::new();
    bytes.extend_from_slice(&[0xCF, 0xF0, 0xEE, 0xF2, 0xEE, 0xEA, 0xEE, 0xEB]);
    bytes.extend_from_slice(b" PID\r\n  TCP 1.1.1.1:80 0.0.0.0:0 LISTENING 77\r\n");
    let mut cache = ProcessInfoCache::new();
    let ports = get_windows_ports(&bytes, &mut cache, &lookup_known);
    assert_eq!(ports.len(), 1);
    assert_eq!(ports[0].pid, "77");
}

#[test]
fn process_name_rules() {
    let mut cache = ProcessInfoCache::new();
    let empty = |_: &str| ProcessLookup { name: Some(String::new()), path: None };
    assert_eq!(get_process_name("0", &mut cache, &empty), ("System Idle Process".to_string(), "Windows System".to_string()));
    assert_eq!(get_process_name("99", &mut cache, &empty), ("PID:99".to_string(), String::new()));
    // The second answer comes from the cache, not from the lookup.
    let other = |_: &str| ProcessLookup { name: Some("other.exe".to_string()), path: None };
    assert_eq!(get_process_name("99", &mut cache, &other), ("PID:99".to_string(), String::new()));
    cache.clear();
    assert_eq!(get_process_name("99", &mut cache, &other).0, "other.exe");
    assert!(system_pid("4"));
    assert!(!system_pid("40"));
}

#[test]
fn ports_internal_by_platform() {
    let mut cache = ProcessInfoCache::new();
    // Netstat's table is no `ss` table: none of its lines is a socket.
    let r = get_ports_internal(&mut cache, false, Ok(NETSTAT.as_bytes().to_vec()), &lookup_known);
    assert_eq!(r.map(|v| v.len()), Ok(0));
    let r = get_ports_internal(&mut cache, false, Ok(SS.as_bytes().to_vec()), &lookup_known);
    assert_eq!(r.map(|v| v.len()), Ok(3));
    let r = get_ports_internal(&mut cache, false, Err("no ss".to_string()), &lookup_known);
    assert_eq!(r.err(), Some("no ss".to_string()));
    let r = get_ports_internal(&mut cache, true, Err("boom".to_string()), &lookup_known);
    assert_eq!(r.err(), Some("boom".to_string()));
    let r = get_ports_internal(&mut cache, true, Ok(NETSTAT.as_bytes().to_vec()), &lookup_known);
    assert_eq!(r.map(|v| v.len()), Ok(3));
}

#[test]
fn netstat_cascade_cmd_success() {
    let (mut run, a) = NetstatRun::begin();
    match a {
        NetstatAction::Run(c) => {
            assert_eq!(c.program, "cmd");
            assert_eq!(c.args, vec!["/c".to_string(), "chcp 65001 > nul && netstat -ano".to_string()]);
        }
        _ => panic!("expected a command"),
    }
    match run.step(CommandOutcome::Finished { success: true, stdout: b"out".to_vec() }) {
        NetstatAction::Done(Ok(b)) => assert_eq!(b, b"out".to_vec()),
        _ => panic!("expected the output"),
    }
    assert!(run.stage == NetstatStage::Done);
}

#[test]
fn netstat_cascade_all_fail() {
    let (mut run, _) = NetstatRun::begin();
    match run.step(CommandOutcome::NotStarted { error: "e1".to_string() }) {
        NetstatAction::Run(c) => {
            assert_eq!(c.program, "netstat");
            assert_eq!(c.args, vec!["-ano".to_string()]);
        }
        _ => panic!("expected netstat"),
    }
    match run.step(CommandOutcome::NotStarted { error: "e2".to_string() }) {
        NetstatAction::Done(Err(m)) => assert_eq!(m, "Не удалось выполнить netstat ни через cmd, ни напрямую: e1 и e2"),
        _ => panic!("expected a failure"),
    }
}

#[test]
fn netstat_cascade_through_powershell() {
    let (mut run, _) = NetstatRun::begin();
    match run.step(CommandOutcome::Finished { success: false, stdout: vec![] }) {
        NetstatAction::Run(c) => assert_eq!(c.program, "powershell"),
        _ => panic!("expected powershell"),
    }
    match run.step(CommandOutcome::NotStarted { error: "ps".to_string() }) {
        NetstatAction::Run(c) => assert_eq!(c.program, "netstat"),
        _ => panic!("expected netstat"),
    }
    match run.step(CommandOutcome::NotStarted { error: "direct".to_string() }) {
        NetstatAction::Done(Err(m)) => assert_eq!(m, "Все методы выполнения netstat завершились с ошибкой: ps и direct"),
        _ => panic!("expected a failure"),
    }
    let (mut run, _) = NetstatRun::begin();
    run.step(CommandOutcome::Finished { success: false, stdout: vec![] });
    run.step(CommandOutcome::Finished { success: false, stdout: vec![] });
    match run.step(CommandOutcome::NotStarted { error: "d".to_string() }) {
        NetstatAction::Done(Err(m)) => assert_eq!(m, "Все методы выполнения netstat завершились с ошибкой: d"),
        _ => panic!("expected a failure"),
    }
    let (mut run, _) = NetstatRun::begin();
    run.step(CommandOutcome::Finished { success: false, stdout: vec![] });
    run.step(CommandOutcome::Finished { success: false, stdout: vec![] });
    match run.step(CommandOutcome::Finished { success: false, stdout: b"partial".to_vec() }) {
        NetstatAction::Done(Ok(b)) => assert_eq!(b, b"partial".to_vec()),
        _ => panic!("the direct run's output is used whatever its status"),
    }
}

#[test]
fn tasklist_and_powershell_parsing() {
    let listing = "\"Image Name\",\"PID\",\"Session Name\"\r\n\"chrome.exe\",\"1234\",\"Console\"\r\n";
    match tasklist_image_name(listing) {
        FieldCut::Cut(n) => assert_eq!(n, "chrome.exe"),
        _ => panic!("expected a name"),
    }
    assert!(matches!(tasklist_image_name("header only\r\n"), FieldCut::Missing));
    assert!(matches!(tasklist_image_name("header\r\n,x\r\n"), FieldCut::Malformed));
    let ps = "\r\nPath\r\n----\r\nC:\\Program Files\\app.exe  \r\n";
    assert_eq!(powershell_path(ps), Some("C:\\Program Files\\app.exe".to_string()));
    assert_eq!(powershell_path("Path\r\n----\r\n"), None);
}

#[test]
fn network_ports_force_update() {
    let mut cache = PortsCache::new();
    let fetch = || Ok(vec![port("TCP", "0.0.0.0:80", "10")]);
    let r = get_network_ports(&mut cache, Some(true), &fetch).unwrap();
    assert_eq!(r.len(), 1);
    assert_eq!(cache.len(), 1);
    let failing = || Err::<Vec<Port>, String>("x".to_string());
    assert_eq!(get_network_ports(&mut cache, Some(true), &failing).err(), Some("Ошибка при принудительном обновлении: x".to_string()));
    assert_eq!(cache.len(), 1);
}

#[test]
fn network_ports_from_cache_or_direct() {
    let mut cache = PortsCache::new();
    let failing = || Err::<Vec<Port>, String>("y".to_string());
    assert_eq!(get_network_ports(&mut cache, None, &failing).err(), Some("Ошибка при прямом запросе портов: y".to_string()));
    let none = || Ok(Vec::new());
    assert_eq!(get_network_ports(&mut cache, Some(false), &none).map(|v| v.len()), Ok(0));
    assert_eq!(cache.len(), 0);
    let some = || Ok(vec![port("UDP", "0.0.0.0:53", "7")]);
    assert_eq!(get_network_ports(&mut cache, None, &some).map(|v| v.len()), Ok(1));
    assert_eq!(cache.len(), 1);
    // A filled cache is answered without a fetch.
    let two = || Ok(vec![port("UDP", "a", "1"), port("UDP", "b", "2")]);
    assert_eq!(get_network_ports(&mut cache, None, &two).map(|v| v.len()), Ok(1));
    assert_eq!(cache.ports()[0].local_addr, "0.0.0.0:53");
}

#[test]
fn refresh_plan_and_keys() {
    let a = vec![port("TCP", "0.0.0.0:80", "1"), port("UDP", "0.0.0.0:53", "2")];
    let b = vec![port("UDP", "0.0.0.0:53", "2"), port("TCP", "0.0.0.0:80", "1")];
    let c = vec![port("TCP", "0.0.0.0:81", "1")];
    assert!(!port_keys_differ(&a, &b));
    assert!(port_keys_differ(&a, &c));
    let mut cache = PortsCache::new();
    cache.replace(a.clone());
    assert!(matches!(ports_refresh_plan(&cache, &b, false), RefreshPlan::Keep));
    assert!(matches!(ports_refresh_plan(&cache, &c, false), RefreshPlan::Replace));
    match ports_refresh_plan(&cache, &c, true) {
        RefreshPlan::LoadInBatches(bs) => assert_eq!(bs, vec![(0, 1)]),
        _ => panic!("the first run loads in batches"),
    }
}

#[test]
fn batches_of_fifty() {
    assert_eq!(first_load_batches(0), Vec::<(usize, usize)>::new());
    assert_eq!(first_load_batches(50), vec![(0, 50)]);
    assert_eq!(first_load_batches(120), vec![(0, 50), (50, 100), (100, 120)]);
}

#[test]
fn refresh_rounds_forget_names() {
    assert_eq!(next_refresh_round(0), (1, false));
    assert_eq!(next_refresh_round(19), (20, false));
    assert_eq!(next_refresh_round(20), (0, true));
}

#[test]
fn ss_table() {
    let rows = parse_ss_table(SS);
    assert_eq!(rows.len(), 3);
    assert_eq!(rows[0].protocol, "TCP");
    assert_eq!(rows[0].state, "LISTEN");
    assert_eq!(rows[0].local_addr, "0.0.0.0:22");
    assert_eq!(rows[0].foreign_addr, "0.0.0.0:*");
    assert_eq!(rows[0].pid, "1256");
    assert_eq!(rows[1].pid, "77");
    assert_eq!(rows[2].protocol, "UDP");
    assert_eq!(rows[2].state, "UNCONN");
    assert_eq!(rows[2].pid, "");
    let header: Vec<char> = "Netid State Recv-Q Send-Q Local Peer Process".chars().collect();
    assert!(parse_ss_line(&header).is_none());
    let short: Vec<char> = "tcp LISTEN 0 0 0.0.0.0:1".chars().collect();
    assert!(parse_ss_line(&short).is_none());
}

#[test]
fn unix_ports_named() {
    let mut cache = ProcessInfoCache::new();
    let ports = get_unix_ports(SS.as_bytes(), &mut cache, &lookup_known);
    assert_eq!(ports.len(), 3);
    assert_eq!(ports[0].name, "svchost.exe");
    assert_eq!(ports[1].name, "Unknown");
    assert_eq!(ports[1].pid, "77");
}

#[test]
fn refresher_schedule_and_first_load() {
    let mut r = PortsRefresher::new();
    assert!(r.begin_scan(5));
    assert!(r.begin_scan(6));
    let ports: Vec<_> = (0..120).map(|i| port("TCP", &format!("0.0.0.0:{}", i), "7")).collect();
    let mut cache = PortsCache::new();
    let batches = match r.plan(&cache, &ports) {
        RefreshPlan::LoadInBatches(b) => b,
        _ => panic!("the first run loads in batches"),
    };
    for (s, e) in batches {
        PortsRefresher::load_batch(&mut cache, &ports, s, e);
        assert_eq!(cache.len(), e - s);
        assert_eq!(cache.ports()[0].local_addr, format!("0.0.0.0:{}", s));
    }
    r.finish_first_load(&mut cache, ports.clone());
    assert_eq!(cache.len(), 120);
    assert!(!r.begin_scan(29_000_000_006));
    assert!(r.begin_scan(30_000_000_006));
    assert_eq!(r.last_scan_ns, 30_000_000_006);
    assert!(!r.begin_scan(59_000_000_000));
    assert!(matches!(r.plan(&cache, &ports), RefreshPlan::Keep));
}

fn port_fields(ps: &[Port]) -> Vec<(String, String, String, String, String, String, String)> {
    ps.iter()
        .map(|p| (p.protocol.clone(), p.local_addr.clone(), p.foreign_addr.clone(), p.state.clone(), p.pid.clone(), p.name.clone(), p.path.clone()))
        .collect()
}

#[test]
fn ports_internal_equals_listers() {
    let mut c1 = ProcessInfoCache::new();
    let a = get_windows_ports(NETSTAT.as_bytes(), &mut c1, &lookup_known);
    let mut c2 = ProcessInfoCache::new();
    let b = get_ports_internal(&mut c2, true, Ok(NETSTAT.as_bytes().to_vec()), &lookup_known).unwrap();
    assert_eq!(port_fields(&a), port_fields(&b));
    let mut c3 = ProcessInfoCache::new();
    let a = get_unix_ports(SS.as_bytes(), &mut c3, &lookup_known);
    let mut c4 = ProcessInfoCache::new();
    let b = get_ports_internal(&mut c4, false, Ok(SS.as_bytes().to_vec()), &lookup_known).unwrap();
    assert_eq!(port_fields(&a), port_fields(&b));
}
