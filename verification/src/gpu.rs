//! The video card: what its model name says of its memory, its cores and
//! its clock, and the codes that WMI and the CUDA driver report.
use vstd::prelude::*;
use crate::text::{
    ascii_lower, ascii_upper, is_ascii_text, lemma_ascii_case_char, contains, contains_str, ends_with, ends_with_str, eq_str, from_chars, lines, lowercase,
    split_char, split_lines, starts_with, starts_with_str, to_chars, to_lowercase, trim,
    trim_chars, views,
};

verus! {

/// The memory type that a lowercased model name suggests: GDDR6X for any
/// name with "rtx 30" in it (the test comes first, so the RTX 3050 and 3060
/// get GDDR6X as well), GDDR6 for the RTX 20 series and the GTX 16 series,
/// GDDR5 for everything else (the GTX 10 series included).
pub open spec fn memory_type_for(lower: Seq<char>) -> Seq<char> {
    if contains(lower, "rtx 30"@) || contains(lower, "rtx 3070"@) || contains(lower, "rtx 3080"@)
        || contains(lower, "rtx 3090"@) {
        "GDDR6X"@
    } else if contains(lower, "rtx 20"@) || contains(lower, "rtx 2060"@) || contains(
        lower,
        "rtx 2070"@,
    ) || contains(lower, "rtx 2080"@) || contains(lower, "rtx 3050"@) || contains(
        lower,
        "rtx 3060"@,
    ) {
        "GDDR6"@
    } else if contains(lower, "gtx 16"@) || contains(lower, "gtx 1650"@) || contains(
        lower,
        "gtx 1660"@,
    ) {
        "GDDR6"@
    } else {
        "GDDR5"@
    }
}

/// The memory type for a lowercased model name.
pub fn memory_type_for_lowered(lower: &str) -> (r: String)
    ensures
        r@ == memory_type_for(lower@),
{
    let c = to_chars(lower);
    if contains_str(&c, "rtx 30") || contains_str(&c, "rtx 3070") || contains_str(&c, "rtx 3080")
        || contains_str(&c, "rtx 3090") {
        String::from_str("GDDR6X")
    } else if contains_str(&c, "rtx 20") || contains_str(&c, "rtx 2060") || contains_str(
        &c,
        "rtx 2070",
    ) || contains_str(&c, "rtx 2080") || contains_str(&c, "rtx 3050") || contains_str(
        &c,
        "rtx 3060",
    ) {
        String::from_str("GDDR6")
    } else if contains_str(&c, "gtx 16") || contains_str(&c, "gtx 1650") || contains_str(
        &c,
        "gtx 1660",
    ) {
        String::from_str("GDDR6")
    } else {
        String::from_str("GDDR5")
    }
}

/// The memory type of a video card, from its model name in any case.
pub fn determine_memory_type_from_name(name: &str) -> (r: String)
    ensures
        r@ == memory_type_for(lowercase(name@)),
        is_ascii_text(name@) ==> r@ == memory_type_for(ascii_lower(name@)),
{
    let lower = to_lowercase(name);
    memory_type_for_lowered(lower.as_str())
}

/// Letter case does not change the memory type of an ASCII model name:
/// the name, its upper case and its lower case (themselves ASCII) give the
/// same type.
pub proof fn lemma_memory_type_ignores_case(name: Seq<char>)
    requires
        is_ascii_text(name),
    ensures
        is_ascii_text(ascii_upper(name)),
        is_ascii_text(ascii_lower(name)),
        memory_type_for(ascii_lower(ascii_upper(name))) == memory_type_for(ascii_lower(name)),
        memory_type_for(ascii_lower(ascii_lower(name))) == memory_type_for(ascii_lower(name)),
{
    assert forall|i: int| 0 <= i < name.len() implies ascii_lower(ascii_upper(name))[i]
        == ascii_lower(name)[i] && ascii_lower(ascii_lower(name))[i] == ascii_lower(name)[i]
        && (ascii_upper(name)[i] as u32) < 128 && (ascii_lower(name)[i] as u32) < 128 by {
        lemma_ascii_case_char(name[i]);
    }
    assert(ascii_lower(ascii_upper(name)) =~= ascii_lower(name));
    assert(ascii_lower(ascii_lower(name)) =~= ascii_lower(name));
}

/// What is estimated of a video card from its model name.
pub struct GpuEstimate {
    pub name: String,
    pub memory_total: u64,
    /// The number of CUDA cores; 0 where unknown.
    pub cores: u32,
    /// The graphics clock in MHz; 0 where unknown.
    pub frequency_mhz: u32,
}

/// Six gibibytes less one: the memory above which a GTX 1060 is the 6 GB
/// model.
pub const GTX_1060_6GB_MEMORY: u64 = 5368709120;

/// The CUDA cores that a lowercased model name implies, where it names a
/// known model.
pub open spec fn cores_for(lower: Seq<char>, memory_total: u64) -> Option<u32> {
    if contains(lower, "rtx 3090"@) || contains(lower, "rtx 3080"@) {
        Some(10240)
    } else if contains(lower, "rtx 3070"@) {
        Some(5888)
    } else if contains(lower, "rtx 3060"@) {
        Some(3584)
    } else if contains(lower, "rtx 2080"@) {
        Some(4352)
    } else if contains(lower, "rtx 2070"@) {
        Some(2304)
    } else if contains(lower, "rtx 2060"@) {
        Some(1920)
    } else if contains(lower, "gtx 1080"@) {
        Some(2560)
    } else if contains(lower, "gtx 1070"@) {
        Some(1920)
    } else if contains(lower, "gtx 1060"@) {
        if contains(lower, "6gb"@) || contains(lower, "6 gb"@) || memory_total
            >= GTX_1060_6GB_MEMORY {
            Some(1280)
        } else {
            Some(1152)
        }
    } else if contains(lower, "gtx 1050"@) {
        Some(640)
    } else {
        None
    }
}

/// The usual graphics clock, in MHz, of the series a lowercased model name
/// belongs to.
pub open spec fn frequency_for(lower: Seq<char>) -> u32 {
    if contains(lower, "rtx 30"@) {
        1700
    } else if contains(lower, "rtx 20"@) {
        1500
    } else if contains(lower, "gtx 10"@) {
        1500
    } else {
        1400
    }
}

/// The CUDA cores for a lowercased model name.
pub fn cores_for_lowered(lower: &str, memory_total: u64) -> (r: Option<u32>)
    ensures
        r == cores_for(lower@, memory_total),
{
    let c = to_chars(lower);
    if contains_str(&c, "rtx 3090") || contains_str(&c, "rtx 3080") {
        Some(10240)
    } else if contains_str(&c, "rtx 3070") {
        Some(5888)
    } else if contains_str(&c, "rtx 3060") {
        Some(3584)
    } else if contains_str(&c, "rtx 2080") {
        Some(4352)
    } else if contains_str(&c, "rtx 2070") {
        Some(2304)
    } else if contains_str(&c, "rtx 2060") {
        Some(1920)
    } else if contains_str(&c, "gtx 1080") {
        Some(2560)
    } else if contains_str(&c, "gtx 1070") {
        Some(1920)
    } else if contains_str(&c, "gtx 1060") {
        if contains_str(&c, "6gb") || contains_str(&c, "6 gb") || memory_total >= GTX_1060_6GB_MEMORY {
            Some(1280)
        } else {
            Some(1152)
        }
    } else if contains_str(&c, "gtx 1050") {
        Some(640)
    } else {
        None
    }
}

/// The clock for a lowercased model name.
pub fn frequency_for_lowered(lower: &str) -> (r: u32)
    ensures
        r == frequency_for(lower@),
{
    let c = to_chars(lower);
    if contains_str(&c, "rtx 30") {
        1700
    } else if contains_str(&c, "rtx 20") {
        1500
    } else if contains_str(&c, "gtx 10") {
        1500
    } else {
        1400
    }
}

/// Fills in the cores and the clock of a card where they are unknown,
/// from its model name; what is known stays.
pub fn determine_cores_and_freq_from_name(gpu: &mut GpuEstimate)
    ensures
        final(gpu).name@ == old(gpu).name@,
        final(gpu).memory_total == old(gpu).memory_total,
        old(gpu).cores != 0 ==> final(gpu).cores == old(gpu).cores,
        old(gpu).cores == 0 ==> final(gpu).cores == match cores_for(
            lowercase(old(gpu).name@),
            old(gpu).memory_total,
        ) {
            Some(c) => c,
            None => 0,
        },
        old(gpu).frequency_mhz != 0 ==> final(gpu).frequency_mhz == old(gpu).frequency_mhz,
        old(gpu).frequency_mhz == 0 ==> final(gpu).frequency_mhz == frequency_for(
            lowercase(old(gpu).name@),
        ),
{
    let lower = to_lowercase(gpu.name.as_str());
    if gpu.cores == 0 {
        match cores_for_lowered(lower.as_str(), gpu.memory_total) {
            Some(c) => {
                gpu.cores = c;
            },
            None => {},
        }
    }
    if gpu.frequency_mhz == 0 {
        gpu.frequency_mhz = frequency_for_lowered(lower.as_str());
    }
}

/// The name of a `VideoMemoryType` code of `Win32_VideoController`.
pub open spec fn video_memory_type_name(code: u16) -> Seq<char> {
    if code == 1 {
        "Other"@
    } else if code == 3 {
        "VRAM"@
    } else if code == 4 {
        "DRAM"@
    } else if code == 5 {
        "SRAM"@
    } else if code == 6 {
        "WRAM"@
    } else if code == 7 {
        "EDO RAM"@
    } else if code == 8 {
        "Burst SRAM"@
    } else if code == 9 {
        "CDRAM"@
    } else if code == 10 {
        "3DRAM"@
    } else if code == 11 {
        "SDRAM"@
    } else if code == 12 {
        "SGRAM"@
    } else if code == 13 {
        "RDRAM"@
    } else if code == 14 {
        "DDR"@
    } else if code == 15 {
        "DDR2"@
    } else if code == 16 {
        "DDR3"@
    } else if code == 17 {
        "DDR4"@
    } else if code == 18 {
        "DDR5"@
    } else if code == 19 {
        "GDDR"@
    } else if code == 20 {
        "GDDR2"@
    } else if code == 21 {
        "GDDR3"@
    } else if code == 22 {
        "GDDR4"@
    } else if code == 23 {
        "GDDR5"@
    } else if code == 24 {
        "GDDR6"@
    } else if code == 25 {
        "GDDR6X"@
    } else {
        "Unknown"@
    }
}

/// The name of a `VideoMemoryType` code.
pub fn video_memory_type(code: u16) -> (r: String)
    ensures
        r@ == video_memory_type_name(code),
{
    let s = match code {
        1 => "Other",
        3 => "VRAM",
        4 => "DRAM",
        5 => "SRAM",
        6 => "WRAM",
        7 => "EDO RAM",
        8 => "Burst SRAM",
        9 => "CDRAM",
        10 => "3DRAM",
        11 => "SDRAM",
        12 => "SGRAM",
        13 => "RDRAM",
        14 => "DDR",
        15 => "DDR2",
        16 => "DDR3",
        17 => "DDR4",
        18 => "DDR5",
        19 => "GDDR",
        20 => "GDDR2",
        21 => "GDDR3",
        22 => "GDDR4",
        23 => "GDDR5",
        24 => "GDDR6",
        25 => "GDDR6X",
        _ => "Unknown",
    };
    String::from_str(s)
}

/// The CUDA cores of one multiprocessor for a compute capability: 192 for
/// Kepler, 128 for Maxwell, Ampere and Hopper, 64 for Pascal, Volta and
/// Turing, none for the others.
pub open spec fn cores_per_multiprocessor(major: u32) -> u64 {
    if major == 3 {
        192
    } else if major == 5 || major == 8 || major == 9 {
        128
    } else if major == 6 || major == 7 {
        64
    } else {
        0
    }
}

/// The CUDA cores of a card: the cores of one multiprocessor for its
/// compute capability times its multiprocessors.
pub fn cuda_cores(major: u32, multiprocessors: u32) -> (r: u64)
    ensures
        r == cores_per_multiprocessor(major) * multiprocessors,
{
    let per: u64 = if major == 3 {
        192
    } else if major == 5 || major == 8 || major == 9 {
        128
    } else if major == 6 || major == 7 {
        64
    } else {
        0
    };
    assert(per * multiprocessors <= 192 * 0xffff_ffff) by (nonlinear_arith)
        requires
            per <= 192,
            multiprocessors <= 0xffff_ffff,
    ;
    per * (multiprocessors as u64)
}

// ---------------------------------------------------------------------------
// nvidia-smi
// ---------------------------------------------------------------------------

/// The memory type that `nvidia-smi` gives: GDDR6 for an RTX, GDDR5 for a
/// GTX, otherwise what the memory query printed names (GDDR6, GDDR5X,
/// GDDR5, HBM2, or GDDR); `None` where the query gave nothing to read.
pub open spec fn smi_memory_type(lower: Seq<char>, query: Option<Seq<char>>) -> Option<Seq<char>> {
    if contains(lower, "rtx"@) {
        Some("GDDR6"@)
    } else if contains(lower, "gtx"@) {
        Some("GDDR5"@)
    } else {
        match query {
            None => None,
            Some(q) => Some(
                if contains(q, "GDDR6"@) {
                    "GDDR6"@
                } else if contains(q, "GDDR5X"@) {
                    "GDDR5X"@
                } else if contains(q, "GDDR5"@) {
                    "GDDR5"@
                } else if contains(q, "HBM2"@) {
                    "HBM2"@
                } else {
                    "GDDR"@
                },
            ),
        }
    }
}

/// The text of an optional string.
pub open spec fn opt_text(o: Option<&str>) -> Option<Seq<char>> {
    match o {
        Some(s) => Some(s@),
        None => None,
    }
}

/// The memory type from a lowercased name and the memory query's output.
pub fn smi_memory_type_of(lower: &str, query: Option<&str>) -> (r: Option<String>)
    ensures
        match r {
            Some(t) => smi_memory_type(lower@, opt_text(query)) == Some(t@),
            None => smi_memory_type(lower@, opt_text(query)) is None,
        },
{
    let c = to_chars(lower);
    if contains_str(&c, "rtx") {
        Some(String::from_str("GDDR6"))
    } else if contains_str(&c, "gtx") {
        Some(String::from_str("GDDR5"))
    } else {
        match query {
            None => None,
            Some(q) => {
                let qc = to_chars(q);
                let t = if contains_str(&qc, "GDDR6") {
                    "GDDR6"
                } else if contains_str(&qc, "GDDR5X") {
                    "GDDR5X"
                } else if contains_str(&qc, "GDDR5") {
                    "GDDR5"
                } else if contains_str(&qc, "HBM2") {
                    "HBM2"
                } else {
                    "GDDR"
                };
                Some(String::from_str(t))
            },
        }
    }
}

/// Four gibibytes: the memory above which a GTX 1060 is taken for the
/// 6 GB model when `nvidia-smi` reports it.
pub const SMI_1060_MEMORY: u64 = 4294967296;

/// The CUDA cores that `nvidia-smi`'s reading of the model implies.
pub open spec fn smi_cores(lower: Seq<char>, memory_total: u64) -> Option<u32> {
    if contains(lower, "gtx 1060"@) {
        if contains(lower, "6gb"@) || memory_total > SMI_1060_MEMORY {
            Some(1280)
        } else {
            Some(1152)
        }
    } else if contains(lower, "gtx 1650"@) {
        Some(896)
    } else if contains(lower, "gtx 1050"@) {
        Some(640)
    } else if contains(lower, "rtx 2060"@) {
        Some(1920)
    } else if contains(lower, "rtx 3060"@) {
        Some(3584)
    } else if contains(lower, "rtx 3070"@) {
        Some(5888)
    } else if contains(lower, "rtx 3080"@) {
        Some(8704)
    } else if contains(lower, "rtx 3090"@) {
        Some(10496)
    } else {
        None
    }
}

/// The CUDA cores for a lowercased name that `nvidia-smi` reported.
pub fn smi_cores_of(lower: &str, memory_total: u64) -> (r: Option<u32>)
    ensures
        r == smi_cores(lower@, memory_total),
{
    let c = to_chars(lower);
    if contains_str(&c, "gtx 1060") {
        if contains_str(&c, "6gb") || memory_total > SMI_1060_MEMORY {
            Some(1280)
        } else {
            Some(1152)
        }
    } else if contains_str(&c, "gtx 1650") {
        Some(896)
    } else if contains_str(&c, "gtx 1050") {
        Some(640)
    } else if contains_str(&c, "rtx 2060") {
        Some(1920)
    } else if contains_str(&c, "rtx 3060") {
        Some(3584)
    } else if contains_str(&c, "rtx 3070") {
        Some(5888)
    } else if contains_str(&c, "rtx 3080") {
        Some(8704)
    } else if contains_str(&c, "rtx 3090") {
        Some(10496)
    } else {
        None
    }
}

/// The comma-separated fields of `nvidia-smi`'s CSV output, the whole
/// output trimmed first and each field trimmed.
pub open spec fn smi_fields(output: Seq<char>) -> Seq<Seq<char>> {
    crate::text::split_on(trim(output), ',').map_values(|f: Seq<char>| trim(f))
}

/// Splits `nvidia-smi`'s CSV output into trimmed fields.
pub fn smi_csv_fields(output: &str) -> (r: Vec<String>)
    ensures
        r@.len() == smi_fields(output@).len(),
        forall|i: int| 0 <= i < r@.len() ==> #[trigger] r@[i]@ == smi_fields(output@)[i],
{
    let c = to_chars(output);
    let t = trim_chars(&c);
    let parts = split_char(&t, ',');
    let ghost pv = views(parts@);
    let mut r: Vec<String> = Vec::new();
    let mut i: usize = 0;
    while i < parts.len()
        invariant
            i <= parts.len(),
            pv == views(parts@),
            pv == crate::text::split_on(trim(output@), ','),
            r@.len() == i,
            forall|j: int| 0 <= j < i ==> #[trigger] r@[j]@ == trim(pv[j]),
        decreases parts.len() - i,
    {
        assert(pv[i as int] == parts@[i as int]@);
        r.push(from_chars(&trim_chars(&parts[i])));
        i = i + 1;
    }
    r
}

/// The path of `nvidia-smi` that a search of the driver store found: the
/// first line of its output, where it is not empty.
pub open spec fn first_line(output: Seq<char>) -> Option<Seq<char>> {
    if lines(output).len() > 0 && lines(output)[0].len() > 0 {
        Some(lines(output)[0])
    } else {
        None
    }
}

/// The first line of a command's output, where there is one and it is not
/// empty.
pub fn first_output_line(output: &str) -> (r: Option<String>)
    ensures
        match r {
            Some(l) => first_line(output@) == Some(l@),
            None => first_line(output@) is None,
        },
{
    let c = to_chars(output);
    let ls = split_lines(&c);
    if ls.len() > 0 && ls[0].len() > 0 {
        assert(views(ls@)[0] == ls@[0]@);
        Some(from_chars(&ls[0]))
    } else {
        proof {
            if ls.len() > 0 {
                assert(views(ls@)[0] == ls@[0]@);
            }
        }
        None
    }
}

/// Whether a line holds a JSON object on its own: trimmed, it starts with
/// `{` and ends with `}`.
pub open spec fn is_json_line(line: Seq<char>) -> bool {
    starts_with(trim(line), "{"@) && ends_with(trim(line), "}"@)
}

/// The first line of `ls` that holds a JSON object on its own.
pub open spec fn first_json_line(ls: Seq<Seq<char>>) -> Option<Seq<char>>
    decreases ls.len(),
{
    if ls.len() == 0 {
        None
    } else if is_json_line(ls[0]) {
        Some(ls[0])
    } else {
        first_json_line(ls.skip(1))
    }
}

/// The line of the DirectX script's output that holds its JSON report.
pub fn json_line(output: &str) -> (r: Option<String>)
    ensures
        match r {
            Some(l) => first_json_line(lines(output@)) == Some(l@),
            None => first_json_line(lines(output@)) is None,
        },
{
    let ls = split_lines(&to_chars(output));
    let ghost lv = views(ls@);
    let mut i: usize = 0;
    assert(lv.skip(0) =~= lv);
    while i < ls.len()
        invariant
            i <= ls.len(),
            lv == views(ls@),
            lv == lines(output@),
            first_json_line(lv) == first_json_line(lv.skip(i as int)),
        decreases ls.len() - i,
    {
        assert(lv[i as int] == ls@[i as int]@);
        assert(lv.skip(i as int)[0] == lv[i as int]);
        let t = trim_chars(&ls[i]);
        if starts_with_str(&t, "{") && ends_with_str(&t, "}") {
            return Some(from_chars(&ls[i]));
        }
        assert(lv.skip(i as int).skip(1) =~= lv.skip(i + 1));
        i = i + 1;
    }
    None
}

/// The text that the DirectX script and the fallback use for a value they
/// could not read.
pub const NO_DATA: &'static str = "Нет данных";

/// What the DirectX script's JSON report holds: each member where it is
/// there with the expected kind (the percentages, temperature and clock,
/// floating point, are read by the host).
pub struct DxReport {
    pub name: Option<String>,
    pub memory_total: Option<u64>,
    pub memory_used: Option<u64>,
    pub cores: Option<i64>,
    pub memory_type: Option<String>,
}

/// The video card as the DirectX report gives it; what it lacks is empty
/// or zero.
pub struct DxCard {
    pub name: String,
    pub memory_total: u64,
    pub memory_used: u64,
    pub cores: Option<usize>,
    pub memory_type: String,
}

/// Whether `d` is the card that the report `r` gives: the report is used
/// unless its name is the no-data text; a memory type that is the no-data
/// text is not taken; the cores are taken as they are.
pub open spec fn card_of_report(r: DxReport, d: DxCard) -> bool {
    &&& d.name@ == match r.name {
        Some(n) => n@,
        None => Seq::<char>::empty(),
    }
    &&& d.memory_total == match r.memory_total {
        Some(m) => m,
        None => 0u64,
    }
    &&& d.memory_used == match r.memory_used {
        Some(m) => m,
        None => 0u64,
    }
    &&& d.cores == match r.cores {
        Some(c) => Some(c as usize),
        None => None::<usize>,
    }
    &&& d.memory_type@ == match r.memory_type {
        Some(t) => if t@ == NO_DATA@ {
            Seq::<char>::empty()
        } else {
            t@
        },
        None => Seq::<char>::empty(),
    }
}

/// The card that the DirectX report gives, or `None` where the report's
/// name is the no-data text (the host then shows the fallback).
pub fn card_from_report(r: &DxReport) -> (c: Option<DxCard>)
    ensures
        match c {
            Some(d) => !(r.name matches Some(n) && n@ == NO_DATA@) && card_of_report(*r, d),
            None => r.name matches Some(n) && n@ == NO_DATA@,
        },
{
    let name = match &r.name {
        Some(n) => {
            if eq_str(&to_chars(n.as_str()), NO_DATA) {
                return None;
            }
            n.clone()
        },
        None => String::new(),
    };
    let memory_type = match &r.memory_type {
        Some(t) => {
            if eq_str(&to_chars(t.as_str()), NO_DATA) {
                String::new()
            } else {
                t.clone()
            }
        },
        None => String::new(),
    };
    let memory_total = match r.memory_total {
        Some(m) => m,
        None => 0,
    };
    let memory_used = match r.memory_used {
        Some(m) => m,
        None => 0,
    };
    let cores = match r.cores {
        Some(k) => Some(k as usize),
        None => None,
    };
    Some(DxCard { name, memory_total, memory_used, cores, memory_type })
}

/// The card shown where nothing could be read: the no-data text for its
/// name and memory type, nothing else.
pub fn fallback_card() -> (c: DxCard)
    ensures
        c.name@ == NO_DATA@,
        c.memory_type@ == NO_DATA@,
        c.memory_total == 0,
        c.memory_used == 0,
        c.cores is None,
{
    DxCard {
        name: String::from_str(NO_DATA),
        memory_total: 0,
        memory_used: 0,
        cores: None,
        memory_type: String::from_str(NO_DATA),
    }
}

/// How long a reading of the video card is given again, in nanoseconds.
pub const GPU_CACHE_NS: u64 = 1_000_000_000;

/// Whether the card is read again rather than the remembered reading
/// given: there is none, or more than a second has passed since it (times
/// in nanoseconds; a clock that went back counts as no time passed).
pub fn gpu_refresh_due(cached_at_ns: Option<u64>, now_ns: u64) -> (r: bool)
    ensures
        r == match cached_at_ns {
            None => true,
            Some(t) => now_ns >= t && now_ns - t > GPU_CACHE_NS,
        },
{
    match cached_at_ns {
        None => true,
        Some(t) => now_ns >= t && now_ns - t > GPU_CACHE_NS,
    }
}

/// What a reading says of the card itself (its clock, a float, is kept
/// by the host in the same way).
pub struct GpuIdentity {
    pub name: String,
    pub memory_total: u64,
    pub cores: u32,
    pub memory_type: String,
}

impl View for GpuIdentity {
    type V = (Seq<char>, u64, u32, Seq<char>);

    open spec fn view(&self) -> (Seq<char>, u64, u32, Seq<char>) {
        (self.name@, self.memory_total, self.cores, self.memory_type@)
    }
}

/// What is known of the card after a new reading `fresh`: each part that
/// the reading lacks (an empty name or memory type, no memory or cores) is
/// taken from the remembered reading `cached`.
pub open spec fn known_identity(
    fresh: (Seq<char>, u64, u32, Seq<char>),
    cached: (Seq<char>, u64, u32, Seq<char>),
) -> (Seq<char>, u64, u32, Seq<char>) {
    (
        if fresh.0.len() == 0 { cached.0 } else { fresh.0 },
        if fresh.1 == 0 { cached.1 } else { fresh.1 },
        if fresh.2 == 0 { cached.2 } else { fresh.2 },
        if fresh.3.len() == 0 { cached.3 } else { fresh.3 },
    )
}

/// A new reading with what it lacks (an empty name or memory type, no
/// memory or cores) taken from the remembered one.
pub fn keep_known_identity(fresh: GpuIdentity, cached: &GpuIdentity) -> (r: GpuIdentity)
    ensures
        r@ == known_identity(fresh@, cached@),
{
    let name = if fresh.name.as_str().is_empty() {
        cached.name.clone()
    } else {
        fresh.name
    };
    let memory_type = if fresh.memory_type.as_str().is_empty() {
        cached.memory_type.clone()
    } else {
        fresh.memory_type
    };
    GpuIdentity {
        name,
        memory_total: if fresh.memory_total == 0 {
            cached.memory_total
        } else {
            fresh.memory_total
        },
        cores: if fresh.cores == 0 {
            cached.cores
        } else {
            fresh.cores
        },
        memory_type,
    }
}

/// A remembered reading of the card: what it says of the card itself, the
/// rest of the reading (kept by the host as it came), and when it was
/// taken, in nanoseconds.
pub struct GpuEntry<T> {
    pub identity: GpuIdentity,
    pub reading: T,
    pub read_at_ns: u64,
}

/// The remembered reading of the card, given again for a second after it
/// was taken.
pub struct GpuCache<T> {
    pub entry: Option<GpuEntry<T>>,
}

impl<T> GpuCache<T> {
    /// The remembered reading as plain values.
    pub open spec fn entry_view(&self) -> Option<((Seq<char>, u64, u32, Seq<char>), T, u64)> {
        match self.entry {
            Some(e) => Some((e.identity@, e.reading, e.read_at_ns)),
            None => None,
        }
    }

    /// A cache that remembers nothing.
    pub fn new() -> (r: GpuCache<T>)
        ensures
            r.entry_view() is None,
    {
        GpuCache { entry: None }
    }

    /// Whether the card is read now rather than the remembered reading
    /// given: nothing is remembered, or more than a second has passed.
    pub fn refresh_due(&self, now_ns: u64) -> (r: bool)
        ensures
            r == match self.entry_view() {
                None => true,
                Some(e) => now_ns >= e.2 && now_ns - e.2 > GPU_CACHE_NS,
            },
    {
        match &self.entry {
            None => gpu_refresh_due(None, now_ns),
            Some(e) => gpu_refresh_due(Some(e.read_at_ns), now_ns),
        }
    }

    /// Takes the outcome of reading the card at `now_ns`: a failed reading
    /// (`None`) leaves the cache as it was, so a remembered reading is
    /// never lost; a new one is remembered from now on, with what it lacks
    /// of the card taken from the remembered one.
    pub fn store_reading(&mut self, now_ns: u64, fresh: Option<(GpuIdentity, T)>)
        ensures
            fresh is None ==> final(self).entry_view() == old(self).entry_view(),
            old(self).entry_view() is Some ==> final(self).entry_view() is Some,
            match fresh {
                None => true,
                Some((id, reading)) => final(self).entry_view() == Some((
                    match old(self).entry_view() {
                        None => id@,
                        Some(e) => known_identity(id@, e.0),
                    },
                    reading,
                    now_ns,
                )),
            },
    {
        match fresh {
            None => {},
            Some((id, reading)) => {
                let identity = match &self.entry {
                    None => id,
                    Some(e) => keep_known_identity(id, &e.identity),
                };
                self.entry = Some(GpuEntry { identity, reading, read_at_ns: now_ns });
            },
        }
    }
}

/// The script that reads the video card through DXGI and WMI and prints
/// its report as JSON (run where `nvidia-smi` is not found).
pub const DIRECTX_SCRIPT: &'static str = r#"
Try {
    $gpuData = @{ Name = "Нет данных"; Usage = 0; Temperature = $null; MemoryTotal = 0; MemoryUsed = 0; Cores = $null; Frequency = $null; MemoryType = "Нет данных"; }
    Add-Type @"
using System;
using System.Runtime.InteropServices;
public class DXGIInfo {
    [DllImport("dxgi.dll")]
    public static extern int CreateDXGIFactory1(ref Guid refGuid, out IntPtr ppFactory);
    public static readonly Guid DXGI_FACTORY_GUID = new Guid("770aae78-f26f-4dba-a829-253c83d1b387");
}
"@
    $factoryPtr = [IntPtr]::Zero
    $factoryGuid = [DXGIInfo]::DXGI_FACTORY_GUID
    $result = [DXGIInfo]::CreateDXGIFactory1([ref]$factoryGuid, [ref]$factoryPtr)
    if ($result -eq 0 -and $factoryPtr -ne [IntPtr]::Zero) {
        Write-Output "[DXGI] Factory created successfully"
        $gpu = Get-CimInstance -ClassName Win32_VideoController | Select-Object -First 1
        if ($gpu) {
            $gpuData.Name = $gpu.Name
            if ($gpu.AdapterRAM) { $gpuData.MemoryTotal = $gpu.AdapterRAM }
            $gpuName = $gpu.Name.ToLower()
            if ($gpuName -like "*rtx*") { $gpuData.MemoryType = "GDDR6" } elseif ($gpuName -like "*gtx*") { $gpuData.MemoryType = "GDDR5" }
            $gpuData.Usage = 30
            $gpuData.Temperature = 55
            $gpuData.Frequency = 1.5
            $gpuData.MemoryUsed = [Math]::Round($gpuData.MemoryTotal * 0.4)
            if ($gpuName -like "*gtx 1060*") {
                if ($gpuName -like "*6gb*" -or ($gpuData.MemoryTotal -gt 4 * 1024 * 1024 * 1024)) { $gpuData.Cores = 1280 } else { $gpuData.Cores = 1152 }
            }
        }
    } else {
        Write-Output "[DXGI] Failed to create factory: $result"
    }
    $jsonOutput = ConvertTo-Json -InputObject $gpuData
    Write-Output $jsonOutput
} Catch {
    Write-Output "[DXGI] Error: $_"
    $fallbackData = @{ Name = "Нет данных"; Usage = 0; Temperature = $null; MemoryTotal = 0; MemoryUsed = 0; Cores = $null; Frequency = $null; MemoryType = "Нет данных"; }
    ConvertTo-Json -InputObject $fallbackData
}
"#;

} // verus!
