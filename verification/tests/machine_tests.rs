use xadmin::command::TargetOs;
use xadmin::gpu::{
    cuda_cores, determine_cores_and_freq_from_name, determine_memory_type_from_name,
    first_output_line, smi_cores_of, smi_csv_fields, smi_memory_type_of, video_memory_type,
    GpuEstimate,
};
use xadmin::machine::{
    adapter_byte_counts, adapter_statistics_command, architecture_from_code,
    architecture_from_env, bytes_since, cache_size_in_listing, cpu_architecture,
    cpu_cache_size, cpu_details_fresh, cpu_model_name, cpu_vendor, format_list_field,
    get_cpu_details, get_memory_details, get_system_process_info,
    get_system_process_info_internal, is_monitoring_active, manufacturer_in_listing,
    memory_static_due, memory_static_from_probe, network_read_due, process_info_elsewhere,
    set_monitoring_active, smbios_memory_type, static_cpu_schedule, trim_start_matching,
    MemoryProbe, MonitoringFlag,
};

const WMIC: &str = "\r\n\r\nArchitecture=9\r\nL2CacheSize=2048\r\nL3CacheSize=16384\r\nManufacturer=GenuineIntel\r\nName=Intel(R) Core(TM) i7 \r\nNumberOfCores=8\r\n";

const CPUINFO: &str = "processor\t: 0\nvendor_id\t: AuthenticAMD\ncpu family\t: 25\nmodel name\t: AMD Ryzen 7 5800X 8-Core Processor\nflags\t\t: fpu vme\ncache size\t: 512 KB\n";

fn out(s: &str) -> Option<Vec<u8>> {
    Some(s.as_bytes().to_vec())
}

#[test]
fn cpu_details_from_wmic() {
    let d = get_cpu_details(TargetOs::Windows, out(WMIC));
    assert_eq!(d.get("Architecture"), Some("9".to_string()));
    assert_eq!(d.get("Name"), Some("Intel(R) Core(TM) i7".to_string()));
    assert_eq!(d.get("L3CacheSize"), Some("16384".to_string()));
    assert_eq!(d.pairs().len(), 6);
}

#[test]
fn cpu_details_from_cpuinfo_keep_some_keys() {
    let d = get_cpu_details(TargetOs::Linux, out(CPUINFO));
    assert_eq!(d.get("model name"), Some("AMD Ryzen 7 5800X 8-Core Processor".to_string()));
    assert_eq!(d.get("cache size"), Some("512 KB".to_string()));
    assert_eq!(d.get("flags"), None);
    assert_eq!(d.pairs().len(), 5);
    assert_eq!(get_cpu_details(TargetOs::Other, out(CPUINFO)).pairs().len(), 0);
    assert_eq!(get_cpu_details(TargetOs::Windows, Some(vec![0xff, 0xfe])).pairs().len(), 0);
    assert_eq!(get_cpu_details(TargetOs::Windows, None).pairs().len(), 0);
}

#[test]
fn later_lines_override() {
    let d = get_cpu_details(TargetOs::Windows, out("Name=a\nName = b\n"));
    assert_eq!(d.get("Name"), Some("b".to_string()));
}

#[test]
fn architecture_names() {
    assert_eq!(architecture_from_code("0"), "x86");
    assert_eq!(architecture_from_code("9"), "x64");
    assert_eq!(architecture_from_code("12"), "ARM");
    assert_eq!(architecture_from_code("13"), "ARM64");
    assert_eq!(architecture_from_code("5"), "Unknown");
    assert_eq!(architecture_from_env("amd64"), "x64");
    assert_eq!(architecture_from_env("x86"), "x86");
    assert_eq!(architecture_from_env("arm64"), "ARM64");
    assert_eq!(architecture_from_env("arm"), "ARM");
    assert_eq!(architecture_from_env("ia64"), "Unknown");
    let d = get_cpu_details(TargetOs::Windows, out(WMIC));
    assert_eq!(cpu_architecture(&d, &|| panic!("not asked")), "x64");
    let empty = get_cpu_details(TargetOs::Windows, None);
    assert_eq!(cpu_architecture(&empty, &|| out(" AMD64\r\n")), "x64");
    assert_eq!(cpu_architecture(&empty, &|| None), "Unknown");
}

#[test]
fn cache_size_vendor_and_model() {
    let d = get_cpu_details(TargetOs::Windows, out(WMIC));
    assert_eq!(cpu_cache_size(&d, &|| None), "16384 KB");
    let l2 = get_cpu_details(TargetOs::Windows, out("L2CacheSize=1024\n"));
    assert_eq!(cpu_cache_size(&l2, &|| None), "1024 KB");
    let none = get_cpu_details(TargetOs::Windows, None);
    assert_eq!(cpu_cache_size(&none, &|| out("L2CacheSize=0\r\nL3CacheSize=8192\r\n")), "8192 KB");
    assert_eq!(cpu_cache_size(&none, &|| out("L3CacheSize=\r\n")), "Unknown");
    assert_eq!(cache_size_in_listing("L3CacheSize=L3CacheSize=7\n"), Some("7".to_string()));
    assert_eq!(cpu_vendor(&d, &|| None), "GenuineIntel");
    let linux = get_cpu_details(TargetOs::Linux, out(CPUINFO));
    assert_eq!(cpu_vendor(&linux, &|| None), "AuthenticAMD");
    assert_eq!(cpu_vendor(&none, &|| out("Manufacturer=\nManufacturer= ACME \n")), "ACME");
    assert_eq!(cpu_vendor(&none, &|| None), "Unknown");
    assert_eq!(manufacturer_in_listing("x\n"), None);
    assert_eq!(cpu_model_name(&d, "brand"), "Intel(R) Core(TM) i7");
    assert_eq!(cpu_model_name(&linux, "brand"), "AMD Ryzen 7 5800X 8-Core Processor");
    assert_eq!(cpu_model_name(&none, "brand"), "brand");
}

#[test]
fn trim_start_matching_repeats() {
    let s: Vec<char> = "ababc".chars().collect();
    assert_eq!(trim_start_matching(&s, "ab").iter().collect::<String>(), "c");
    assert_eq!(trim_start_matching(&s, "").iter().collect::<String>(), "ababc");
}

#[test]
fn monitoring_flag() {
    let mut f = MonitoringFlag::new();
    assert!(!is_monitoring_active(&f));
    set_monitoring_active(&mut f, true);
    assert!(is_monitoring_active(&f));
    set_monitoring_active(&mut f, false);
    assert!(!is_monitoring_active(&f));
}

#[test]
fn smbios_types() {
    assert_eq!(smbios_memory_type(26), "DDR4");
    assert_eq!(smbios_memory_type(34), "DDR5");
    assert_eq!(smbios_memory_type(22), "DDR2 FB-DIMM");
    assert_eq!(smbios_memory_type(23), "Type_23");
    assert_eq!(smbios_memory_type(0), "Unknown");
}

#[test]
fn memory_static_data() {
    let probe = MemoryProbe {
        smbios_type: out("26\r\n"),
        speed: out("3200\r\n"),
        manufacturer: out("Kingston\r\n"),
        part_number: out("   \r\n"),
        slots_total: out("4"),
        slots_used: out("2"),
    };
    let m = memory_static_from_probe(&probe, 1 << 30);
    assert_eq!(m.memory_type, "DDR4");
    assert_eq!(m.speed, "3200 МГц");
    assert_eq!(m.name, "Kingston");
    assert_eq!(m.part_number, "Unknown");
    assert_eq!((m.slots_total, m.slots_used), (4, 2));
    let nothing = MemoryProbe { smbios_type: None, speed: None, manufacturer: None, part_number: None, slots_total: out("0"), slots_used: out("1") };
    let m = memory_static_from_probe(&nothing, 64u64 << 30);
    assert_eq!(m.memory_type, "DDR5");
    assert_eq!(m.speed, "Unknown");
    assert_eq!((m.slots_total, m.slots_used), (4, 2));
    let m = memory_static_from_probe(&nothing, 32u64 << 30);
    assert_eq!(m.memory_type, "DDR4");
    assert_eq!(get_memory_details().get("speed"), Some("3200 MHz".to_string()));
}

#[test]
fn timing_rules() {
    assert!(memory_static_due(None, 0));
    assert!(!memory_static_due(Some(1_000_000_000), 31_000_000_000));
    assert!(memory_static_due(Some(1_000_000_000), 31_000_000_001));
    assert!(!memory_static_due(Some(5_000_000_000), 1_000));
    assert!(cpu_details_fresh(Some(0), 299_999_999_999));
    assert!(!cpu_details_fresh(Some(0), 300_000_000_000));
    assert!(cpu_details_fresh(Some(7_000), 5));
    assert!(!cpu_details_fresh(None, 5));
    assert_eq!(static_cpu_schedule(false, 3), (false, 3, 1000));
    assert_eq!(static_cpu_schedule(true, 5), (true, 4, 10_000));
    assert_eq!(static_cpu_schedule(true, 0), (true, 0, 300_000));
    assert!(network_read_due(0, 1_000_000_000));
    assert!(!network_read_due(500, 1_000_000_000));
}

#[test]
fn process_counts_from_wmic() {
    let text = "\r\nHandleCount=100\r\nThreadCount=4\r\n\r\nHandleCount=50\r\nThreadCount=6\r\n\r\n  2\r\n";
    assert_eq!(get_system_process_info_internal(out(text), &|| panic!("not asked")), (2, 10, 150));
    assert_eq!(get_system_process_info_internal(None, &|| 7), (7, 70, 2100));
    assert_eq!(get_system_process_info_internal(out("ThreadCount=3\n5"), &|| 0), (5, 3, 90));
    assert_eq!(get_system_process_info_internal(None, &|| 0), (0, 0, 0));
}

#[test]
fn process_counts_with_fallbacks() {
    let never = || -> Option<Vec<u8>> { panic!("not asked") };
    assert_eq!(get_system_process_info(out(" 120,1500,60000\r\n"), &never, &never, &never), (120, 1500, 60000));
    assert_eq!(get_system_process_info(out("120,x,60000"), &|| out("1400\n"), &never, &never), (120, 1400, 60000));
    assert_eq!(get_system_process_info(out("1,2"), &|| out("3"), &|| out("4"), &|| None), (4, 3, 0));
    assert_eq!(process_info_elsewhere(12), (12, 120, 0));
}

#[test]
fn network_fields() {
    let text = "\r\nName       : Ethernet\r\nMacAddress : 00-11-22-33-44-55\r\nLinkSpeed  : 1 Gbps\r\nMediaType  : 802.3\r\n";
    assert_eq!(format_list_field(text, "Name"), Some("Ethernet".to_string()));
    assert_eq!(format_list_field(text, "MacAddress"), Some("00-11-22-33-44-55".to_string()));
    assert_eq!(format_list_field(text, "MediaType"), Some("802.3".to_string()));
    assert_eq!(format_list_field(text, "Speed"), None);
    assert_eq!(adapter_statistics_command("Ethernet"), "Get-NetAdapterStatistics | Where-Object Name -eq 'Ethernet' | Select-Object ReceivedBytes,SentBytes | ConvertTo-Json");
    let json = b"{\r\n    \"ReceivedBytes\":  123456,\r\n    \"SentBytes\":  789\r\n}";
    assert_eq!(adapter_byte_counts(json), Some((Some(123456), Some(789))));
    assert_eq!(adapter_byte_counts(b"{\"ReceivedBytes\": -1}"), Some((None, None)));
    assert_eq!(adapter_byte_counts(b"not json"), None);
    assert_eq!(bytes_since(10, 25), Some(15));
    assert_eq!(bytes_since(25, 10), None);
}

#[test]
fn gpu_memory_types() {
    assert_eq!(determine_memory_type_from_name("NVIDIA GeForce RTX 3080"), "GDDR6X");
    assert_eq!(determine_memory_type_from_name("NVIDIA GeForce RTX 3060 Ti"), "GDDR6X");
    assert_eq!(determine_memory_type_from_name("NVIDIA GeForce RTX 2070 SUPER"), "GDDR6");
    assert_eq!(determine_memory_type_from_name("NVIDIA GeForce GTX 1660"), "GDDR6");
    assert_eq!(determine_memory_type_from_name("NVIDIA GeForce GTX 1060 6GB"), "GDDR5");
    assert_eq!(determine_memory_type_from_name("AMD Radeon RX 580"), "GDDR5");
    assert_eq!(video_memory_type(25), "GDDR6X");
    assert_eq!(video_memory_type(2), "Unknown");
    assert_eq!(video_memory_type(99), "Unknown");
}

#[test]
fn gpu_cores_and_clock() {
    let mut g = GpuEstimate { name: "GeForce GTX 1060".to_string(), memory_total: 6u64 << 30, cores: 0, frequency_mhz: 0 };
    determine_cores_and_freq_from_name(&mut g);
    assert_eq!((g.cores, g.frequency_mhz), (1280, 1500));
    let mut g = GpuEstimate { name: "GeForce GTX 1060".to_string(), memory_total: 3u64 << 30, cores: 0, frequency_mhz: 1800 };
    determine_cores_and_freq_from_name(&mut g);
    assert_eq!((g.cores, g.frequency_mhz), (1152, 1800));
    let mut g = GpuEstimate { name: "Radeon".to_string(), memory_total: 0, cores: 0, frequency_mhz: 0 };
    determine_cores_and_freq_from_name(&mut g);
    assert_eq!((g.cores, g.frequency_mhz), (0, 1400));
    assert_eq!(cuda_cores(8, 68), 8704);
    assert_eq!(cuda_cores(3, 2), 384);
    assert_eq!(cuda_cores(4, 10), 0);
}

#[test]
fn nvidia_smi_readings() {
    assert_eq!(smi_memory_type_of("geforce rtx 4090", None), Some("GDDR6".to_string()));
    assert_eq!(smi_memory_type_of("quadro", Some("16384 MiB, GDDR5X")), Some("GDDR5X".to_string()));
    assert_eq!(smi_memory_type_of("quadro", Some("16384 MiB")), Some("GDDR".to_string()));
    assert_eq!(smi_memory_type_of("quadro", None), None);
    assert_eq!(smi_cores_of("geforce gtx 1060 6gb", 0), Some(1280));
    assert_eq!(smi_cores_of("geforce rtx 3080", 0), Some(8704));
    assert_eq!(smi_cores_of("titan", 0), None);
    assert_eq!(smi_csv_fields(" NVIDIA GeForce RTX 3070 , 8192 \r\n"), vec!["NVIDIA GeForce RTX 3070".to_string(), "8192".to_string()]);
    assert_eq!(first_output_line("C:\\a\\nvidia-smi.exe\r\nC:\\b\\nvidia-smi.exe\r\n"), Some("C:\\a\\nvidia-smi.exe".to_string()));
    assert_eq!(first_output_line(""), None);
    assert_eq!(first_output_line("\r\nC:\\b\\nvidia-smi.exe\r\n"), None);
}
