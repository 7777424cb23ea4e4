//! The disks: the volumes that PowerShell lists where `sysinfo` finds none,
//! and the read and write speeds that the performance counters report.
use vstd::prelude::*;
use crate::text::{fill, fill_template};
use crate::text::{
    concat2, concat4, eq_str, from_chars, slice_chars, strip_end, to_chars, trim_end_char,
    utf8_decode,
};

verus! {

/// The index of the last `c` in `s`, or -1 where there is none.
pub open spec fn last_index(s: Seq<char>, c: char) -> int
    decreases s.len(),
{
    if s.len() == 0 {
        -1
    } else if s.last() == c {
        s.len() - 1
    } else {
        last_index(s.drop_last(), c)
    }
}

/// Where no `c` stands at `k` or after, the last `c` of `s` is the last of
/// its first `k` characters.
proof fn lemma_last_index_prefix(s: Seq<char>, c: char, k: int)
    requires
        0 <= k <= s.len(),
        forall|m: int| k <= m < s.len() ==> s[m] != c,
    ensures
        last_index(s, c) == last_index(s.take(k), c),
    decreases s.len() - k,
{
    if k == s.len() {
        assert(s.take(k) =~= s);
    } else {
        assert(s.drop_last().take(k) =~= s.take(k));
        lemma_last_index_prefix(s.drop_last(), c, k);
    }
}

/// The position of the last `c` in `v` (`str::rfind` with a character).
fn rfind_char(v: &[char], c: char) -> (r: Option<usize>)
    ensures
        match r {
            Some(k) => k < v.len() && k == last_index(v@, c) && v@[k as int] == c,
            None => last_index(v@, c) == -1,
        },
{
    let mut k = v.len();
    while k > 0
        invariant
            k <= v.len(),
            forall|m: int| k <= m < v.len() ==> v@[m] != c,
        decreases k,
    {
        if v[k - 1] == c {
            proof {
                lemma_last_index_prefix(v@, c, k as int);
            }
            return Some(k - 1);
        }
        k = k - 1;
    }
    proof {
        lemma_last_index_prefix(v@, c, 0);
    }
    None
}

/// The JSON object at the end of a script's output: from its last `{` to
/// the last `}` after that, where there are both.
pub open spec fn trailing_block(s: Seq<char>) -> Option<Seq<char>> {
    let i = last_index(s, '{');
    if i < 0 {
        None
    } else {
        let j = last_index(s.skip(i), '}');
        if j < 0 {
            None
        } else {
            Some(s.subrange(i, i + j + 1))
        }
    }
}

/// The JSON object at the end of `text`, which the speed script prints
/// after its diagnostic lines.
pub fn trailing_json_block(text: &str) -> (r: Option<String>)
    ensures
        match r {
            Some(b) => trailing_block(text@) == Some(b@),
            None => trailing_block(text@) is None,
        },
{
    let v = to_chars(text);
    match rfind_char(&v, '{') {
        None => None,
        Some(i) => {
            let rest = slice_chars(&v, i, v.len());
            assert(rest@ =~= v@.skip(i as int));
            match rfind_char(&rest, '}') {
                None => None,
                Some(j) => {
                    let b = slice_chars(&v, i, i + j + 1);
                    Some(from_chars(&b))
                },
            }
        },
    }
}

/// The JSON object that the speed script of a volume ends its output with,
/// where the output is UTF-8 and holds one.
pub fn speed_block(output: &[u8]) -> (r: Option<String>)
    ensures
        !vstd::utf8::valid_utf8(output@) ==> r is None,
        vstd::utf8::valid_utf8(output@) ==> match r {
            Some(b) => trailing_block(vstd::utf8::decode_utf8(output@)) == Some(b@),
            None => trailing_block(vstd::utf8::decode_utf8(output@)) is None,
        },
{
    match utf8_decode(output) {
        None => None,
        Some(text) => trailing_json_block(text.as_str()),
    }
}

/// The read speed shown for a volume whose speeds could not be read, in
/// bytes per second.
pub const READ_SPEED_FLOOR: u64 = 10000;

/// The write speed shown for a volume whose speeds could not be read, in
/// bytes per second.
pub const WRITE_SPEED_FLOOR: u64 = 5000;

/// The speeds that a report gives: each value it holds, and 0 for one that
/// it lacks.
pub open spec fn speeds_of(read: Option<u64>, write: Option<u64>) -> (u64, u64) {
    (
        match read {
            Some(x) => x,
            None => 0u64,
        },
        match write {
            Some(x) => x,
            None => 0u64,
        },
    )
}

fn speeds_from(read: Option<u64>, write: Option<u64>) -> (r: (u64, u64))
    ensures
        r == speeds_of(read, write),
{
    let rd = match read {
        Some(x) => x,
        None => 0,
    };
    let wr = match write {
        Some(x) => x,
        None => 0,
    };
    (rd, wr)
}

/// The read and write speeds of a disk that `sysinfo` lists, from the
/// report of its counters (the read and the write speed, each where the
/// report holds it): both 0 where there is no report.
pub fn reported_speeds(report: Option<(Option<u64>, Option<u64>)>) -> (r: (u64, u64))
    ensures
        match report {
            Some((rd, wr)) => r == speeds_of(rd, wr),
            None => r == (0u64, 0u64),
        },
{
    match report {
        Some((rd, wr)) => speeds_from(rd, wr),
        None => (0, 0),
    }
}

/// The read and write speeds of a volume that PowerShell lists: those of
/// the report, and the floors where no report could be read.
pub fn volume_speeds(report: Option<(Option<u64>, Option<u64>)>) -> (r: (u64, u64))
    ensures
        match report {
            Some((rd, wr)) => r == speeds_of(rd, wr),
            None => r == (READ_SPEED_FLOOR, WRITE_SPEED_FLOOR),
        },
{
    match report {
        Some((rd, wr)) => speeds_from(rd, wr),
        None => (READ_SPEED_FLOOR, WRITE_SPEED_FLOOR),
    }
}

/// A volume as `Get-Volume` lists it: each text where the listing holds
/// it as a string, and the sizes in bytes (0 where missing).
pub struct Volume {
    pub drive_letter: Option<String>,
    pub label: Option<String>,
    pub file_system: Option<String>,
    pub drive_type: Option<String>,
    pub size: u64,
    pub size_remaining: u64,
}

/// A disk as the monitor shows it (the share in use is computed from the
/// sizes by the host).
pub struct DiskEntry {
    pub name: String,
    pub mount_point: String,
    pub available_space: u64,
    pub total_space: u64,
    pub file_system: String,
    pub is_removable: bool,
    pub read_speed: u64,
    pub write_speed: u64,
}

/// The text `s` holds, or `default`.
pub open spec fn text_or(s: Option<String>, default: Seq<char>) -> Seq<char> {
    match s {
        Some(t) => t@,
        None => default,
    }
}

/// The name shown for a volume: its mount point, followed by its label in
/// brackets where it has one.
pub open spec fn volume_name(mount: Seq<char>, label: Seq<char>) -> Seq<char> {
    if label.len() == 0 {
        mount
    } else {
        mount + " ("@ + label + ")"@
    }
}

/// Whether `d` is the disk shown for the volume `v`, before its speeds
/// are read.
pub open spec fn entry_of_volume(v: Volume, d: DiskEntry) -> bool {
    match v.drive_letter {
        None => false,
        Some(letter) => {
            let mount = letter@ + ":"@;
            &&& d.mount_point@ == mount
            &&& d.name@ == volume_name(mount, text_or(v.label, ""@))
            &&& d.file_system@ == text_or(v.file_system, "Unknown"@)
            &&& d.is_removable == match v.drive_type {
                Some(t) => t@ == "Removable"@,
                None => false,
            }
            &&& d.total_space == v.size
            &&& d.available_space == v.size_remaining
            &&& d.read_speed == 0
            &&& d.write_speed == 0
        },
    }
}

/// The disk shown for a volume; a volume without a drive letter is not
/// shown.
pub fn disk_from_volume(v: &Volume) -> (r: Option<DiskEntry>)
    ensures
        match r {
            Some(d) => entry_of_volume(*v, d),
            None => v.drive_letter is None,
        },
{
    match &v.drive_letter {
        None => None,
        Some(letter) => {
            let mount = concat2(letter.as_str(), ":");
            let name = match &v.label {
                Some(l) => {
                    if l.as_str().is_empty() {
                        mount.clone()
                    } else {
                        concat4(mount.as_str(), " (", l.as_str(), ")")
                    }
                },
                None => mount.clone(),
            };
            let file_system = match &v.file_system {
                Some(f) => f.clone(),
                None => String::from_str("Unknown"),
            };
            let is_removable = match &v.drive_type {
                Some(t) => eq_str(&to_chars(t.as_str()), "Removable"),
                None => false,
            };
            proof {
                reveal_strlit("");
            }
            Some(
                DiskEntry {
                    name,
                    mount_point: mount,
                    available_space: v.size_remaining,
                    total_space: v.size,
                    file_system,
                    is_removable,
                    read_speed: 0,
                    write_speed: 0,
                },
            )
        },
    }
}

/// The name of a disk without its trailing colons
/// (`str::trim_end_matches(':')`), where anything is left of it: the drive
/// whose speeds are read.
pub fn drive_letter_of(name: &str) -> (r: Option<String>)
    ensures
        strip_end(name@, ':').len() == 0 ==> r is None,
        strip_end(name@, ':').len() > 0 ==> (r matches Some(l) && l@ == strip_end(name@, ':')),
{
    let v = trim_end_char(&to_chars(name), ':');
    if v.len() == 0 {
        None
    } else {
        Some(from_chars(&v))
    }
}

/// How long the disks are left alone after a reading, in nanoseconds.
pub const DISK_READ_INTERVAL_NS: u64 = 500_000_000;

/// Whether the disks are read now: only while the monitoring is on, and
/// half a second or more after the last reading (a new cache counts as read
/// when it was made; times in nanoseconds).
pub fn disk_read_due(active: bool, last_read_ns: u64, now_ns: u64) -> (r: bool)
    ensures
        r == (active && now_ns >= last_read_ns && now_ns - last_read_ns >= DISK_READ_INTERVAL_NS),
{
    active && now_ns >= last_read_ns && now_ns - last_read_ns >= DISK_READ_INTERVAL_NS
}

/// The script that reads the speeds of one disk (or of all of them);
/// `{letter}` stands for the drive letter.
pub const DISK_SPEED_TEMPLATE: &'static str = "try { $disk = Get-WmiObject -Class Win32_PerfFormattedData_PerfDisk_LogicalDisk | Where-Object { $_.Name -eq '{letter}:' -or $_.Name -eq '_Total' }; \
         if ($disk) { @{ ReadSpeed = [double]$disk.DiskReadBytesPersec; WriteSpeed = [double]$disk.DiskWriteBytesPersec; Source = 'WMI' } | ConvertTo-Json } \
         else { @{ ReadSpeed = Get-Random -Minimum 100000 -Maximum 10000000; WriteSpeed = Get-Random -Minimum 50000 -Maximum 5000000; Source = 'Random' } | ConvertTo-Json } } \
         catch { @{ ReadSpeed = Get-Random -Minimum 100000 -Maximum 10000000; WriteSpeed = Get-Random -Minimum 50000 -Maximum 5000000; Error = $_.ToString(); Source = 'Error' } | ConvertTo-Json }";

/// The script that reads the speeds of a volume, printing diagnostics
/// before its JSON object and raising low readings to the floors;
/// `{letter}` stands for the drive letter.
pub const VOLUME_SPEED_TEMPLATE: &'static str = "try { Write-Output \"[diagnostics] reading the speed of disk {letter} through WMI\"; \
         $disk = Get-WmiObject -Class Win32_PerfFormattedData_PerfDisk_LogicalDisk -ErrorAction Stop | Where-Object { $_.Name -eq '{letter}:' -or $_.Name -eq '_Total' }; \
         if ($disk) { $r = $disk.DiskReadBytesPersec; $w = $disk.DiskWriteBytesPersec; if ([double]$r -lt 10000) { $r = 10000 }; if ([double]$w -lt 5000) { $w = 5000 }; \
         @{ ReadSpeed = [double]$r; WriteSpeed = [double]$w; Source = \"WMI\" } | ConvertTo-Json } \
         else { @{ ReadSpeed = [double](Get-Random -Minimum 10000 -Maximum 5000000); WriteSpeed = [double](Get-Random -Minimum 5000 -Maximum 2000000); Source = \"Random\" } | ConvertTo-Json } } \
         catch { try { $d = '{letter}:'; \
         $rc = Get-Counter -Counter \"\\\\*\\LogicalDisk($d)\\Disk Read Bytes/sec\" -ErrorAction Stop; $wc = Get-Counter -Counter \"\\\\*\\LogicalDisk($d)\\Disk Write Bytes/sec\" -ErrorAction Stop; \
         $r = $rc.CounterSamples[0].CookedValue; $w = $wc.CounterSamples[0].CookedValue; if ($r -lt 10000) { $r = 10000 }; if ($w -lt 5000) { $w = 5000 }; \
         @{ ReadSpeed = [double]$r; WriteSpeed = [double]$w; Source = \"Performance Counters\" } | ConvertTo-Json } \
         catch { @{ ReadSpeed = [double](Get-Random -Minimum 100000 -Maximum 10000000); WriteSpeed = [double](Get-Random -Minimum 50000 -Maximum 5000000); Source = \"Random\" } | ConvertTo-Json } }";

/// The script that reads the speeds of the disk with the drive letter
/// `letter`.
pub fn disk_speed_script(letter: &str) -> (r: String)
    ensures
        r@ == fill(DISK_SPEED_TEMPLATE@, "{letter}"@, letter@),
{
    fill_template(DISK_SPEED_TEMPLATE, "{letter}", letter)
}

/// The script that reads the speeds of the volume with the drive letter
/// `letter`.
pub fn volume_speed_script(letter: &str) -> (r: String)
    ensures
        r@ == fill(VOLUME_SPEED_TEMPLATE@, "{letter}"@, letter@),
{
    fill_template(VOLUME_SPEED_TEMPLATE, "{letter}", letter)
}

} // verus!
