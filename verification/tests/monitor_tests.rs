use xadmin::machine::{turbo_class, vendor_boost, TurboClass, VendorBoost};
use xadmin::disks::{
    disk_from_volume, disk_read_due, drive_letter_of, reported_speeds, speed_block, trailing_json_block,
    volume_speeds, Volume, READ_SPEED_FLOOR, WRITE_SPEED_FLOOR,
};
use xadmin::gpu::{card_from_report, fallback_card, json_line, DxReport, NO_DATA};
use xadmin::command::TargetOs;
use xadmin::gpu::{GpuCache, GpuIdentity};
use xadmin::machine::{cpu_sensor_label, get_cpu_details_fresh, Details, pagefile_check, pagefile_usage, process_counts_due, typeperf_sample_field};

fn volume(letter: Option<&str>, label: Option<&str>, fs: Option<&str>, kind: Option<&str>) -> Volume {
    Volume {
        drive_letter: letter.map(|s| s.to_string()),
        label: label.map(|s| s.to_string()),
        file_system: fs.map(|s| s.to_string()),
        drive_type: kind.map(|s| s.to_string()),
        size: 1000,
        size_remaining: 250,
    }
}

#[test]
fn trailing_block_after_diagnostics() {
    let out = "[diagnostics] reading\n{\n    \"ReadSpeed\":  12000,\n    \"WriteSpeed\":  6000\n}\n";
    assert_eq!(
        trailing_json_block(out),
        Some("{\n    \"ReadSpeed\":  12000,\n    \"WriteSpeed\":  6000\n}".to_string())
    );
}

#[test]
fn trailing_block_takes_the_last_object() {
    assert_eq!(trailing_json_block("{a} then {b} end"), Some("{b}".to_string()));
    assert_eq!(trailing_json_block("{x}}"), Some("{x}}".to_string()));
}

#[test]
fn trailing_block_missing() {
    assert_eq!(trailing_json_block("no braces"), None);
    assert_eq!(trailing_json_block("} {"), None);
    assert_eq!(trailing_json_block(""), None);
}

#[test]
fn speed_block_needs_utf8() {
    assert_eq!(speed_block(&[0xff, b'{', b'}']), None);
    assert_eq!(speed_block(b"text {\"ReadSpeed\": 1}"), Some("{\"ReadSpeed\": 1}".to_string()));
}

#[test]
fn speeds_of_reports() {
    assert_eq!(volume_speeds(None), (READ_SPEED_FLOOR, WRITE_SPEED_FLOOR));
    assert_eq!(volume_speeds(None), (10000, 5000));
    assert_eq!(volume_speeds(Some((Some(7), None))), (7, 0));
    assert_eq!(reported_speeds(None), (0, 0));
    assert_eq!(reported_speeds(Some((Some(3), Some(4)))), (3, 4));
}

#[test]
fn volume_with_label() {
    let d = disk_from_volume(&volume(Some("C"), Some("System"), None, Some("Removable"))).unwrap();
    assert_eq!(d.name, "C: (System)");
    assert_eq!(d.mount_point, "C:");
    assert_eq!(d.file_system, "Unknown");
    assert!(d.is_removable);
    assert_eq!(d.total_space, 1000);
    assert_eq!(d.available_space, 250);
    assert_eq!((d.read_speed, d.write_speed), (0, 0));
}

#[test]
fn volume_without_label() {
    let d = disk_from_volume(&volume(Some("D"), Some(""), Some("NTFS"), Some("Fixed"))).unwrap();
    assert_eq!(d.name, "D:");
    assert_eq!(d.file_system, "NTFS");
    assert!(!d.is_removable);
    let e = disk_from_volume(&volume(Some("E"), None, Some("FAT32"), None)).unwrap();
    assert_eq!(e.name, "E:");
    assert!(!e.is_removable);
}

#[test]
fn volume_without_letter() {
    assert!(disk_from_volume(&volume(None, Some("Recovery"), Some("NTFS"), Some("Fixed"))).is_none());
}

#[test]
fn drive_letters() {
    assert_eq!(drive_letter_of("C:"), Some("C".to_string()));
    assert_eq!(drive_letter_of("C::"), Some("C".to_string()));
    assert_eq!(drive_letter_of("::"), None);
    assert_eq!(drive_letter_of(""), None);
    assert_eq!(drive_letter_of("/dev/sda1"), Some("/dev/sda1".to_string()));
}

#[test]
fn typeperf_sample() {
    let out = "\"04/01/2024 10:00:00.000\",\"12.5\"\r\n";
    assert_eq!(typeperf_sample_field(out), Some("12.5".to_string()));
    assert_eq!(typeperf_sample_field("no comma"), None);
    assert_eq!(typeperf_sample_field("a, \"\" ,b"), Some("".to_string()));
}

#[test]
fn disk_reading_schedule() {
    assert!(!disk_read_due(false, 0, 10_000_000_000));
    assert!(!disk_read_due(true, 1_000_000_000, 1_499_999_999));
    assert!(disk_read_due(true, 1_000_000_000, 1_500_000_000));
    assert!(!disk_read_due(true, 2_000_000_000, 1_000_000_000));
}

#[test]
fn process_count_schedule() {
    assert!(process_counts_due(None, 0));
    assert!(!process_counts_due(Some(5_000_000_000), 5_999_999_999));
    assert!(process_counts_due(Some(5_000_000_000), 6_000_000_000));
    assert!(!process_counts_due(Some(5_000_000_000), 100));
}

#[test]
fn cpu_sensors() {
    assert!(cpu_sensor_label("CPU Package"));
    assert!(cpu_sensor_label("coretemp Core 0"));
    assert!(cpu_sensor_label("k10temp Tctl PACKAGE"));
    assert!(!cpu_sensor_label("nvme Composite"));
    assert!(!cpu_sensor_label("acpitz"));
}

fn report(name: Option<&str>, kind: Option<&str>) -> DxReport {
    DxReport {
        name: name.map(|s| s.to_string()),
        memory_total: Some(8589934592),
        memory_used: None,
        cores: Some(1280),
        memory_type: kind.map(|s| s.to_string()),
    }
}

#[test]
fn directx_json_line() {
    let out = "[DXGI] Factory created successfully\r\n  {\"Name\":\"GTX\"}  \r\n{\"x\":1}\r\n";
    assert_eq!(json_line(out), Some("  {\"Name\":\"GTX\"}  ".to_string()));
    assert_eq!(json_line("{\r\n  \"Name\": \"GTX\"\r\n}\r\n"), None);
    assert_eq!(json_line(""), None);
}

#[test]
fn directx_report_card() {
    let c = card_from_report(&report(Some("NVIDIA GeForce GTX 1060 6GB"), Some("GDDR5"))).unwrap();
    assert_eq!(c.name, "NVIDIA GeForce GTX 1060 6GB");
    assert_eq!(c.memory_total, 8589934592);
    assert_eq!(c.memory_used, 0);
    assert_eq!(c.cores, Some(1280));
    assert_eq!(c.memory_type, "GDDR5");
    let d = card_from_report(&report(None, Some(NO_DATA))).unwrap();
    assert_eq!(d.name, "");
    assert_eq!(d.memory_type, "");
    assert!(card_from_report(&report(Some("Нет данных"), None)).is_none());
}

#[test]
fn gpu_fallback() {
    let c = fallback_card();
    assert_eq!(c.name, "Нет данных");
    assert_eq!(c.memory_type, "Нет данных");
    assert_eq!((c.memory_total, c.memory_used, c.cores), (0, 0, None));
}

const PAGEFILE: &str = "{\r\n    \"AllocatedBaseSize\":  2048,\r\n    \"CurrentUsage\":  123\r\n}\r\n";

#[test]
fn pagefile_report() {
    assert!(pagefile_check(PAGEFILE));
    assert_eq!(pagefile_usage(PAGEFILE), Some((2147483648, 128974848)));
}

#[test]
fn pagefile_report_missing_parts() {
    let no_line_end = "{ \"AllocatedBaseSize\":  2048, \"CurrentUsage\":  5}";
    assert!(pagefile_check(no_line_end));
    assert_eq!(pagefile_usage(no_line_end), None);
    assert!(pagefile_check(""));
    assert_eq!(pagefile_usage(""), None);
    let tight = "\"AllocatedBaseSize\":5,\n\"CurrentUsage\": 1\n";
    assert!(pagefile_check(tight));
    assert_eq!(pagefile_usage(tight), None);
    let trailing = "\"AllocatedBaseSize\": 1,\n\"CurrentUsage\": 7},\n";
    assert_eq!(pagefile_usage(trailing), Some((1048576, 7340032)));
}

#[test]
fn pagefile_report_faults() {
    assert!(!pagefile_check("\"AllocatedBaseSize\":,\n"));
    assert!(!pagefile_check("\"AllocatedBaseSize\":é5,\n"));
    assert!(!pagefile_check("\"AllocatedBaseSize\": 17592186044416,\n\"CurrentUsage\": 1\n"));
    assert!(!pagefile_check("\"AllocatedBaseSize\": 1,\n\"CurrentUsage\": 17592186044416\n"));
    assert!(pagefile_check("\"AllocatedBaseSize\": 17592186044415,\n\"CurrentUsage\": 1\n"));
}

const SYSTEMINFO: &str = "Host Name:                 PC\r\nProcessor(s):              1 Processor(s) Installed.\r\n                           [01]: Intel64 Family 6 Model 158 GenuineIntel ~3600 Mhz\r\n";

#[test]
fn cpu_details_fresh_from_wmic() {
    let wmic = b"\r\nName=Intel(R) Core(TM) i7\r\nL3CacheSize=12288\r\n".to_vec();
    let d = get_cpu_details_fresh(TargetOs::Windows, Some(wmic), &|| -> Option<Vec<u8>> { panic!("systeminfo is not asked") });
    assert_eq!(d.get("Name"), Some("Intel(R) Core(TM) i7".to_string()));
    assert!(!d.is_empty());
}

#[test]
fn cpu_details_fresh_from_systeminfo() {
    let d = get_cpu_details_fresh(TargetOs::Windows, None, &|| Some(SYSTEMINFO.as_bytes().to_vec()));
    assert_eq!(d.get("Name"), Some("1 Processor(s) Installed.".to_string()));
    assert_eq!(d.pairs().len(), 1);
    let none = get_cpu_details_fresh(TargetOs::Windows, Some(b"garbage".to_vec()), &|| Some(b"Host Name: PC\r\n".to_vec()));
    assert!(none.is_empty());
    let linux = get_cpu_details_fresh(TargetOs::Linux, None, &|| Some(SYSTEMINFO.as_bytes().to_vec()));
    assert!(linux.is_empty());
    assert!(Details::new().is_empty());
}

#[test]
fn processor_series() {
    assert!(turbo_class("Intel(R) Core(TM) i7-9700K CPU @ 3.60GHz") == TurboClass::CoreI7);
    assert!(turbo_class("12th Gen Intel(R) Core(TM) i5-12400F") == TurboClass::CoreI5Recent);
    assert!(turbo_class("Intel(R) Core(TM) i5-8400 CPU @ 2.80GHz") == TurboClass::CoreI5);
    assert!(turbo_class("Intel(R) Xeon(R) CPU E5-2680") == TurboClass::OtherIntel);
    assert!(turbo_class("AMD Ryzen 7 5800X 8-Core Processor") == TurboClass::Ryzen7);
    assert!(turbo_class("AMD EPYC 7763") == TurboClass::OtherAmd);
    assert!(turbo_class("Apple M1") == TurboClass::Other);
    assert!(vendor_boost("GenuineIntel", Some((6, 0x9E))) == VendorBoost::IntelRecent);
    assert!(vendor_boost("GenuineIntel", Some((6, 0x3C))) == VendorBoost::IntelModern);
    assert!(vendor_boost("GenuineIntel", Some((5, 0x9E))) == VendorBoost::IntelEarly);
    assert!(vendor_boost("GenuineIntel", None) == VendorBoost::IntelUnknown);
    assert!(vendor_boost("AuthenticAMD", Some((25, 33))) == VendorBoost::Amd);
    assert!(vendor_boost("CentaurHauls", None) == VendorBoost::Other);
}

#[test]
fn memory_type_ignores_case() {
    use_case("NVIDIA GeForce RTX 3080");
    use_case("NVIDIA GeForce GTX 1660 Super");
    use_case("Radeon RX 580");
}

fn use_case(name: &str) {
    let t = xadmin::gpu::determine_memory_type_from_name(name);
    assert_eq!(xadmin::gpu::determine_memory_type_from_name(&name.to_uppercase()), t);
    assert_eq!(xadmin::gpu::determine_memory_type_from_name(&name.to_lowercase()), t);
}

#[test]
fn monitor_caches() {
    use_refresh();
}

fn use_refresh() {
    assert!(xadmin::gpu::gpu_refresh_due(None, 0));
    assert!(!xadmin::gpu::gpu_refresh_due(Some(1_000_000_000), 2_000_000_000));
    assert!(xadmin::gpu::gpu_refresh_due(Some(0), 1_000_500_000));
    assert!(xadmin::gpu::gpu_refresh_due(Some(1_000_000_000), 2_000_000_001));
    assert!(!xadmin::gpu::gpu_refresh_due(Some(3_000_000_000), 2_000_000_001));
    assert!(xadmin::machine::memory_update_due(0, 100_000));
    assert!(!xadmin::machine::memory_update_due(0, 99_999));
    assert!(!xadmin::machine::memory_update_due(500_000, 100_000));
    let cached = xadmin::gpu::GpuIdentity { name: "GTX 1060".to_string(), memory_total: 6, cores: 1280, memory_type: "GDDR5".to_string() };
    let fresh = xadmin::gpu::GpuIdentity { name: String::new(), memory_total: 0, cores: 0, memory_type: "GDDR6".to_string() };
    let m = xadmin::gpu::keep_known_identity(fresh, &cached);
    assert_eq!((m.name.as_str(), m.memory_total, m.cores, m.memory_type.as_str()), ("GTX 1060", 6, 1280, "GDDR6"));
    assert_eq!(xadmin::command::task_error("x"), "Ошибка запуска задачи: x");
}

#[test]
fn gpu_cache_keeps_reading() {
    let id = |name: &str, mem: u64, cores: u32, kind: &str| GpuIdentity {
        name: name.to_string(),
        memory_total: mem,
        cores,
        memory_type: kind.to_string(),
    };
    let mut cache: GpuCache<u32> = GpuCache::new();
    assert!(cache.refresh_due(0));
    cache.store_reading(0, None);
    assert!(cache.entry.is_none());
    cache.store_reading(10, Some((id("RTX 2060", 6, 1920, "GDDR6"), 30)));
    assert!(!cache.refresh_due(1_000_000_010));
    assert!(cache.refresh_due(1_000_000_011));
    cache.store_reading(2_000_000_000, None);
    let e = cache.entry.as_ref().unwrap();
    assert_eq!((e.identity.name.as_str(), e.reading, e.read_at_ns), ("RTX 2060", 30, 10));
    cache.store_reading(3_000_000_000, Some((id("", 0, 0, ""), 55)));
    let e = cache.entry.as_ref().unwrap();
    assert_eq!(
        (e.identity.name.as_str(), e.identity.memory_total, e.identity.cores, e.identity.memory_type.as_str(), e.reading, e.read_at_ns),
        ("RTX 2060", 6, 1920, "GDDR6", 55, 3_000_000_000)
    );
}
