//! The processor and the memory: what `wmic`, `/proc/cpuinfo` and
//! PowerShell report of them, and the fallbacks where they report nothing.
use vstd::prelude::*;
use crate::command::TargetOs;
use crate::text::{
    concat2, concat3, contains, contains_str, decimal, decimal_chars, eq_str, find_char, find_from,
    find_text, first_index, from_chars, occurs_at, parse_u64, parse_u64_spec,
    lines, lowercase, parse_u32, parse_u32_spec, push_str, slice_chars, split_lines,
    split_char, split_on, starts_with, starts_with_str, strip_end, strip_start, to_chars,
    to_lowercase, trim, trim_chars, trim_end_char, trim_start_char, utf8_decode, views,
};

verus! {

// ---------------------------------------------------------------------------
// Key-value details
// ---------------------------------------------------------------------------

/// Details by name (of the processor, of the memory), as the system's
/// tools list them.
pub struct Details {
    entries: Vec<(String, String)>,
}

/// The map that a list of entries describes, later entries first.
pub open spec fn pairs_map(es: Seq<(String, String)>) -> Map<Seq<char>, Seq<char>>
    decreases es.len(),
{
    if es.len() == 0 {
        Map::empty()
    } else {
        pairs_map(es.drop_last()).insert(es.last().0@, es.last().1@)
    }
}

/// No key occurs twice.
pub open spec fn unique_keys(es: Seq<(String, String)>) -> bool {
    forall|i: int, j: int| 0 <= i < j < es.len() ==> es[i].0@ != es[j].0@
}

proof fn lemma_pairs_domain(es: Seq<(String, String)>, k: Seq<char>)
    ensures
        pairs_map(es).contains_key(k) <==> exists|j: int| 0 <= j < es.len() && es[j].0@ == k,
    decreases es.len(),
{
    if es.len() > 0 {
        lemma_pairs_domain(es.drop_last(), k);
        if exists|j: int| 0 <= j < es.drop_last().len() && es.drop_last()[j].0@ == k {
            let j = choose|j: int| 0 <= j < es.drop_last().len() && es.drop_last()[j].0@ == k;
            assert(es[j].0@ == k);
        }
        if exists|j: int| 0 <= j < es.len() && es[j].0@ == k {
            let j = choose|j: int| 0 <= j < es.len() && es[j].0@ == k;
            if j < es.len() - 1 {
                assert(es.drop_last()[j].0@ == k);
            }
        }
    }
}

proof fn lemma_pairs_value(es: Seq<(String, String)>, j: int)
    requires
        unique_keys(es),
        0 <= j < es.len(),
    ensures
        pairs_map(es).contains_key(es[j].0@),
        pairs_map(es)[es[j].0@] == es[j].1@,
    decreases es.len(),
{
    if j < es.len() - 1 {
        let d = es.drop_last();
        assert(d[j] == es[j]);
        lemma_pairs_value(d, j);
        assert(es.last().0@ != es[j].0@);
    }
}

proof fn lemma_pairs_update(es: Seq<(String, String)>, j: int, e: (String, String))
    requires
        unique_keys(es),
        0 <= j < es.len(),
        es[j].0@ == e.0@,
    ensures
        pairs_map(es.update(j, e)) == pairs_map(es).insert(e.0@, e.1@),
    decreases es.len(),
{
    let u = es.update(j, e);
    if j == es.len() - 1 {
        assert(u.drop_last() =~= es.drop_last());
        lemma_pairs_domain(es.drop_last(), e.0@);
        assert(pairs_map(u) =~= pairs_map(es).insert(e.0@, e.1@));
    } else {
        assert(u.drop_last() =~= es.drop_last().update(j, e));
        lemma_pairs_update(es.drop_last(), j, e);
        assert(es.last().0@ != e.0@);
        assert(pairs_map(u) =~= pairs_map(es).insert(e.0@, e.1@));
    }
}

impl View for Details {
    type V = Map<Seq<char>, Seq<char>>;

    closed spec fn view(&self) -> Map<Seq<char>, Seq<char>> {
        pairs_map(self.entries@)
    }
}

impl Details {
    /// Each name occurs once.
    pub closed spec fn wf(&self) -> bool {
        unique_keys(self.entries@)
    }

    /// No details.
    pub fn new() -> (r: Details)
        ensures
            r@ == Map::<Seq<char>, Seq<char>>::empty(),
            r.wf(),
    {
        Details { entries: Vec::new() }
    }

    fn position(&self, key: &str) -> (r: Option<usize>)
        requires
            self.wf(),
        ensures
            match r {
                Some(j) => j < self.entries@.len() && self.entries@[j as int].0@ == key@,
                None => forall|j: int| 0 <= j < self.entries@.len() ==> self.entries@[j].0@ != key@,
            },
    {
        let k = String::from_str(key);
        let mut j: usize = 0;
        while j < self.entries.len()
            invariant
                j <= self.entries@.len(),
                k@ == key@,
                forall|m: int| 0 <= m < j ==> self.entries@[m].0@ != key@,
            decreases self.entries.len() - j,
        {
            if self.entries[j].0 == k {
                return Some(j);
            }
            j = j + 1;
        }
        None
    }

    /// The detail named `key`.
    pub fn get(&self, key: &str) -> (r: Option<String>)
        requires
            self.wf(),
        ensures
            match r {
                Some(v) => self@.contains_key(key@) && self@[key@] == v@,
                None => !self@.contains_key(key@),
            },
    {
        proof {
            lemma_pairs_domain(self.entries@, key@);
        }
        match self.position(key) {
            Some(j) => {
                proof {
                    lemma_pairs_value(self.entries@, j as int);
                }
                Some(self.entries[j].1.clone())
            },
            None => None,
        }
    }

    /// Sets the detail `key` to `value`.
    pub fn insert(&mut self, key: String, value: String)
        requires
            old(self).wf(),
        ensures
            final(self).wf(),
            final(self)@ == old(self)@.insert(key@, value@),
    {
        let e = (key, value);
        match self.position(e.0.as_str()) {
            Some(j) => {
                proof {
                    lemma_pairs_update(self.entries@, j as int, e);
                }
                self.entries.set(j, e);
                assert(unique_keys(self.entries@)) by {
                    assert forall|a: int, b: int| 0 <= a < b < self.entries@.len() implies self.entries@[a].0@
                        != self.entries@[b].0@ by {
                        if a != j && b != j {
                            assert(self.entries@[a] == old(self).entries@[a]);
                            assert(self.entries@[b] == old(self).entries@[b]);
                        } else if a == j {
                            assert(self.entries@[b] == old(self).entries@[b]);
                        } else {
                            assert(self.entries@[a] == old(self).entries@[a]);
                        }
                    }
                }
            },
            None => {
                self.entries.push(e);
                assert(self.entries@.drop_last() =~= old(self).entries@);
                assert(unique_keys(self.entries@)) by {
                    assert forall|a: int, b: int| 0 <= a < b < self.entries@.len() implies self.entries@[a].0@
                        != self.entries@[b].0@ by {
                        if b < self.entries@.len() - 1 {
                            assert(self.entries@[a] == old(self).entries@[a]);
                            assert(self.entries@[b] == old(self).entries@[b]);
                        } else {
                            assert(self.entries@[a] == old(self).entries@[a]);
                        }
                    }
                }
            },
        }
    }

    /// Whether there are no details.
    pub fn is_empty(&self) -> (r: bool)
        requires
            self.wf(),
        ensures
            r == (self@ == Map::<Seq<char>, Seq<char>>::empty()),
    {
        if self.entries.len() == 0 {
            assert(self@ =~= Map::<Seq<char>, Seq<char>>::empty());
            true
        } else {
            proof {
                lemma_pairs_domain(self.entries@, self.entries@[0].0@);
                assert(self@.contains_key(self.entries@[0].0@));
            }
            false
        }
    }

    /// The details as name-value pairs, each name once.
    pub fn pairs(&self) -> (r: Vec<(String, String)>)
        requires
            self.wf(),
        ensures
            unique_keys(r@),
            pairs_map(r@) == self@,
    {
        let mut r: Vec<(String, String)> = Vec::new();
        let mut i: usize = 0;
        while i < self.entries.len()
            invariant
                i <= self.entries@.len(),
                r@.len() == i,
                forall|j: int| 0 <= j < i ==> #[trigger] r@[j].0@ == self.entries@[j].0@ && r@[j].1@
                    == self.entries@[j].1@,
            decreases self.entries.len() - i,
        {
            r.push((self.entries[i].0.clone(), self.entries[i].1.clone()));
            i = i + 1;
        }
        proof {
            lemma_pairs_same(r@, self.entries@);
        }
        r
    }
}

proof fn lemma_pairs_same(a: Seq<(String, String)>, b: Seq<(String, String)>)
    requires
        a.len() == b.len(),
        forall|j: int| 0 <= j < a.len() ==> #[trigger] a[j].0@ == b[j].0@ && a[j].1@ == b[j].1@,
    ensures
        pairs_map(a) == pairs_map(b),
    decreases a.len(),
{
    if a.len() > 0 {
        assert forall|j: int| 0 <= j < a.drop_last().len() implies #[trigger] a.drop_last()[j].0@
            == b.drop_last()[j].0@ && a.drop_last()[j].1@ == b.drop_last()[j].1@ by {
            assert(a.drop_last()[j] == a[j]);
            assert(b.drop_last()[j] == b[j]);
        }
        lemma_pairs_same(a.drop_last(), b.drop_last());
        assert(a.last().0@ == b.last().0@ && a.last().1@ == b.last().1@) by {
            assert(a.last() == a[a.len() - 1]);
            assert(b.last() == b[b.len() - 1]);
        }
    }
}

/// The keys of `/proc/cpuinfo` that are kept.
pub open spec fn is_cpuinfo_key(k: Seq<char>) -> bool {
    k == "model name"@ || k == "cpu MHz"@ || k == "vendor_id"@ || k == "cache size"@ || k
        == "cpu cores"@ || k == "processor"@ || k == "stepping"@ || k == "cpu family"@
}

/// The details that `key<sep>value` lines give, each key and value
/// trimmed, later lines overriding earlier ones; with `filter`, only the
/// keys of `/proc/cpuinfo` that are kept.
pub open spec fn detail_lines(ls: Seq<Seq<char>>, sep: char, filter: bool) -> Map<Seq<char>, Seq<char>>
    decreases ls.len(),
{
    if ls.len() == 0 {
        Map::empty()
    } else {
        let m = detail_lines(ls.drop_last(), sep, filter);
        let l = ls.last();
        let i = first_index(l, sep);
        if i < 0 {
            m
        } else {
            let k = trim(l.take(i));
            if !filter || is_cpuinfo_key(k) {
                m.insert(k, trim(l.skip(i + 1)))
            } else {
                m
            }
        }
    }
}

/// The details that a tool's output gives on a platform: the `Key=Value`
/// list of `wmic` on Windows, the `key : value` lines of `/proc/cpuinfo`
/// (some keys only) on Linux, nothing elsewhere or where the output is not
/// UTF-8.
pub open spec fn cpu_details_of(os: TargetOs, output: Option<Seq<u8>>) -> Map<Seq<char>, Seq<char>> {
    match output {
        Some(b) => if !vstd::utf8::valid_utf8(b) {
            Map::empty()
        } else {
            match os {
                TargetOs::Windows => detail_lines(lines(vstd::utf8::decode_utf8(b)), '=', false),
                TargetOs::Linux => detail_lines(lines(vstd::utf8::decode_utf8(b)), ':', true),
                TargetOs::Other => Map::empty(),
            }
        },
        None => Map::empty(),
    }
}

/// The bytes of an optional output.
pub open spec fn bytes_view(o: Option<Vec<u8>>) -> Option<Seq<u8>> {
    match o {
        Some(b) => Some(b@),
        None => None,
    }
}

/// Whether a trimmed key of `/proc/cpuinfo` is kept.
fn cpuinfo_key(k: &[char]) -> (r: bool)
    ensures
        r == is_cpuinfo_key(k@),
{
    eq_str(k, "model name") || eq_str(k, "cpu MHz") || eq_str(k, "vendor_id") || eq_str(
        k,
        "cache size",
    ) || eq_str(k, "cpu cores") || eq_str(k, "processor") || eq_str(k, "stepping") || eq_str(
        k,
        "cpu family",
    )
}

/// Reads the details from `key<sep>value` lines.
fn read_detail_lines(text: &str, sep: char, filter: bool) -> (r: Details)
    ensures
        r.wf(),
        r@ == detail_lines(lines(text@), sep, filter),
{
    let c = to_chars(text);
    let ls = split_lines(&c);
    let ghost lv = views(ls@);
    let mut d = Details::new();
    let mut i: usize = 0;
    while i < ls.len()
        invariant
            i <= ls.len(),
            lv == views(ls@),
            d.wf(),
            d@ == detail_lines(lv.take(i as int), sep, filter),
        decreases ls.len() - i,
    {
        assert(lv.take(i + 1).drop_last() =~= lv.take(i as int));
        assert(lv.take(i + 1).last() == ls@[i as int]@);
        let line = &ls[i];
        match crate::text::find_char(line, sep) {
            Some(p) => {
                proof {
                    crate::text::lemma_first_index_bounds(line@, sep);
                }
                let k = trim_chars(&slice_chars(line, 0, p));
                assert(slice_chars_view_take(line@, p as int));
                if !filter || cpuinfo_key(&k) {
                    let v = trim_chars(&slice_chars(line, p + 1, line.len()));
                    assert(line@.subrange(p + 1, line@.len() as int) =~= line@.skip(p + 1));
                    d.insert(from_chars(&k), from_chars(&v));
                }
            },
            None => {},
        }
        i = i + 1;
    }
    assert(lv.take(ls@.len() as int) =~= lv);
    d
}

/// `subrange(0, p)` is `take(p)`.
spec fn slice_chars_view_take(s: Seq<char>, p: int) -> bool {
    0 <= p <= s.len() ==> s.subrange(0, p) =~= s.take(p)
}

/// The details of the processor that a tool printed: the list of `wmic cpu
/// get ... /format:list` on Windows, `/proc/cpuinfo` on Linux.
pub fn get_cpu_details(os: TargetOs, output: Option<Vec<u8>>) -> (r: Details)
    ensures
        r.wf(),
        r@ == cpu_details_of(os, bytes_view(output)),
{
    match output {
        None => Details::new(),
        Some(b) => match utf8_decode(&b) {
            None => Details::new(),
            Some(text) => match os {
                TargetOs::Windows => read_detail_lines(text.as_str(), '=', false),
                TargetOs::Linux => read_detail_lines(text.as_str(), ':', true),
                TargetOs::Other => Details::new(),
            },
        },
    }
}


// ---------------------------------------------------------------------------
// The static data of the processor
// ---------------------------------------------------------------------------

/// The architecture that a `wmic` code names: 0 x86, 9 x64, 12 ARM,
/// 13 ARM64.
pub open spec fn architecture_code_name(code: Seq<char>) -> Seq<char> {
    if code == "0"@ {
        "x86"@
    } else if code == "9"@ {
        "x64"@
    } else if code == "12"@ {
        "ARM"@
    } else if code == "13"@ {
        "ARM64"@
    } else {
        "Unknown"@
    }
}

/// The architecture that a lowercased `%PROCESSOR_ARCHITECTURE%` names.
pub open spec fn architecture_env_name(lower: Seq<char>) -> Seq<char> {
    if contains(lower, "amd64"@) || contains(lower, "x64"@) {
        "x64"@
    } else if contains(lower, "x86"@) {
        "x86"@
    } else if contains(lower, "arm"@) {
        if contains(lower, "64"@) {
            "ARM64"@
        } else {
            "ARM"@
        }
    } else {
        "Unknown"@
    }
}

/// The architecture that the output of `echo %PROCESSOR_ARCHITECTURE%`
/// names; "Unknown" where there is none or it is not UTF-8.
pub open spec fn architecture_from_output(o: Option<Seq<u8>>) -> Seq<char> {
    match o {
        Some(b) => if vstd::utf8::valid_utf8(b) {
            architecture_env_name(lowercase(trim(vstd::utf8::decode_utf8(b))))
        } else {
            "Unknown"@
        },
        None => "Unknown"@,
    }
}

/// The architecture that a `wmic` code names.
pub fn architecture_from_code(code: &str) -> (r: String)
    ensures
        r@ == architecture_code_name(code@),
{
    let c = to_chars(code);
    let s = if eq_str(&c, "0") {
        "x86"
    } else if eq_str(&c, "9") {
        "x64"
    } else if eq_str(&c, "12") {
        "ARM"
    } else if eq_str(&c, "13") {
        "ARM64"
    } else {
        "Unknown"
    };
    String::from_str(s)
}

/// The architecture that a lowercased `%PROCESSOR_ARCHITECTURE%` names.
pub fn architecture_from_env(lower: &str) -> (r: String)
    ensures
        r@ == architecture_env_name(lower@),
{
    let c = to_chars(lower);
    let s = if contains_str(&c, "amd64") || contains_str(&c, "x64") {
        "x64"
    } else if contains_str(&c, "x86") {
        "x86"
    } else if contains_str(&c, "arm") {
        if contains_str(&c, "64") {
            "ARM64"
        } else {
            "ARM"
        }
    } else {
        "Unknown"
    };
    String::from_str(s)
}

/// The architecture of the processor: from the `Architecture` detail, or
/// else from the environment, which `env_output` reads.
pub fn cpu_architecture<F: Fn() -> Option<Vec<u8>>>(details: &Details, env_output: &F) -> (r: String)
    requires
        details.wf(),
        !details@.contains_key("Architecture"@) ==> call_requires(*env_output, ()),
    ensures
        details@.contains_key("Architecture"@) ==> r@ == architecture_code_name(
            details@["Architecture"@],
        ),
        !details@.contains_key("Architecture"@) ==> exists|o: Option<Vec<u8>>|
            call_ensures(*env_output, (), o) && r@ == architecture_from_output(bytes_view(o)),
{
    match details.get("Architecture") {
        Some(code) => architecture_from_code(code.as_str()),
        None => {
            let o = env_output();
            let ghost ov = bytes_view(o);
            match o {
                Some(b) => match utf8_decode(&b) {
                    Some(text) => {
                        let t = from_chars(&trim_chars(&to_chars(text.as_str())));
                        let lower = to_lowercase(t.as_str());
                        architecture_from_env(lower.as_str())
                    },
                    None => String::from_str("Unknown"),
                },
                None => String::from_str("Unknown"),
            }
        },
    }
}

/// `s` without the leading repetitions of `p` (`str::trim_start_matches`).
pub open spec fn trim_start_matches(s: Seq<char>, p: Seq<char>) -> Seq<char>
    decreases s.len(),
{
    if p.len() > 0 && starts_with(s, p) {
        trim_start_matches(s.skip(p.len() as int), p)
    } else {
        s
    }
}

/// `s` without the leading repetitions of the text `p`.
pub fn trim_start_matching(s: &[char], p: &str) -> (r: Vec<char>)
    ensures
        r@ == trim_start_matches(s@, p@),
{
    let pl = to_chars(p).len();
    let mut i: usize = 0;
    let sl = s.len();
    let mut rest = slice_chars(s, 0, s.len());
    assert(s@.subrange(0, s@.len() as int) =~= s@);
    loop
        invariant
            rest@ == s@.skip(i as int),
            i <= s@.len(),
            i + rest@.len() == s@.len(),
            sl == s@.len(),
            pl == p@.len(),
            trim_start_matches(s@, p@) == trim_start_matches(rest@, p@),
        ensures
            rest@ == trim_start_matches(s@, p@),
        decreases rest@.len(),
    {
        let more = starts_with_str(&rest, p);
        if pl == 0 || !more {
            break;
        }
        let next = slice_chars(&rest, pl, rest.len());
        assert(next@ =~= rest@.skip(pl as int));
        assert(rest@.skip(pl as int) =~= s@.skip(i + pl));
        i = i + pl;
        rest = next;
    }
    rest
}

/// The trimmed value after the prefix `p` (all its leading repetitions).
pub open spec fn value_after(line: Seq<char>, p: Seq<char>) -> Seq<char> {
    trim(trim_start_matches(line, p))
}

/// A value to use: neither empty nor "0".
pub open spec fn usable_size(v: Seq<char>) -> bool {
    v.len() > 0 && v != "0"@
}

/// The cache size in a `wmic cpu get L2CacheSize,L3CacheSize /format:list`
/// listing, from line `i` on: the first `L3CacheSize=` or `L2CacheSize=`
/// line with a usable value.
pub open spec fn listed_cache_size(ls: Seq<Seq<char>>, i: int) -> Option<Seq<char>>
    decreases ls.len() - i,
{
    if i < 0 || i >= ls.len() {
        None
    } else if starts_with(ls[i], "L3CacheSize="@) && usable_size(
        value_after(ls[i], "L3CacheSize="@),
    ) {
        Some(value_after(ls[i], "L3CacheSize="@))
    } else if !starts_with(ls[i], "L3CacheSize="@) && starts_with(ls[i], "L2CacheSize="@)
        && usable_size(value_after(ls[i], "L2CacheSize="@)) {
        Some(value_after(ls[i], "L2CacheSize="@))
    } else {
        listed_cache_size(ls, i + 1)
    }
}

/// The manufacturer in a `wmic cpu get Manufacturer /format:list` listing,
/// from line `i` on: the first `Manufacturer=` line with a value.
pub open spec fn listed_manufacturer(ls: Seq<Seq<char>>, i: int) -> Option<Seq<char>>
    decreases ls.len() - i,
{
    if i < 0 || i >= ls.len() {
        None
    } else if starts_with(ls[i], "Manufacturer="@) && value_after(ls[i], "Manufacturer="@).len()
        > 0 {
        Some(value_after(ls[i], "Manufacturer="@))
    } else {
        listed_manufacturer(ls, i + 1)
    }
}

/// The text of a listing that a command printed, where it is UTF-8.
pub open spec fn listing_text(o: Option<Seq<u8>>) -> Option<Seq<char>> {
    match o {
        Some(b) => if vstd::utf8::valid_utf8(b) {
            Some(vstd::utf8::decode_utf8(b))
        } else {
            None
        },
        None => None,
    }
}

/// The cache size that a listing gives, with " KB", or "Unknown".
pub open spec fn cache_size_from_listing(o: Option<Seq<u8>>) -> Seq<char> {
    match listing_text(o) {
        Some(t) => match listed_cache_size(lines(t), 0) {
            Some(v) => v + " KB"@,
            None => "Unknown"@,
        },
        None => "Unknown"@,
    }
}

/// The manufacturer that a listing gives, or "Unknown".
pub open spec fn manufacturer_from_listing(o: Option<Seq<u8>>) -> Seq<char> {
    match listing_text(o) {
        Some(t) => match listed_manufacturer(lines(t), 0) {
            Some(v) => v,
            None => "Unknown"@,
        },
        None => "Unknown"@,
    }
}

/// The value after `prefix` in a line that starts with it.
fn value_after_exec(line: &[char], prefix: &str) -> (r: Vec<char>)
    ensures
        r@ == value_after(line@, prefix@),
{
    trim_chars(&trim_start_matching(line, prefix))
}

/// Reads the cache size from a listing.
pub fn cache_size_in_listing(text: &str) -> (r: Option<String>)
    ensures
        match r {
            Some(v) => listed_cache_size(lines(text@), 0) == Some(v@),
            None => listed_cache_size(lines(text@), 0) is None,
        },
{
    let c = to_chars(text);
    let ls = split_lines(&c);
    let ghost lv = views(ls@);
    let mut i: usize = 0;
    while i < ls.len()
        invariant
            lv == views(ls@),
            lv == lines(text@),
            listed_cache_size(lv, i as int) == listed_cache_size(lv, 0),
        decreases ls.len() - i,
    {
        assert(lv[i as int] == ls@[i as int]@);
        let line = &ls[i];
        if starts_with_str(line, "L3CacheSize=") {
            let v = value_after_exec(line, "L3CacheSize=");
            if v.len() > 0 && !eq_str(&v, "0") {
                return Some(from_chars(&v));
            }
        } else if starts_with_str(line, "L2CacheSize=") {
            let v = value_after_exec(line, "L2CacheSize=");
            if v.len() > 0 && !eq_str(&v, "0") {
                return Some(from_chars(&v));
            }
        }
        i = i + 1;
    }
    None
}

/// Reads the manufacturer from a listing.
pub fn manufacturer_in_listing(text: &str) -> (r: Option<String>)
    ensures
        match r {
            Some(v) => listed_manufacturer(lines(text@), 0) == Some(v@),
            None => listed_manufacturer(lines(text@), 0) is None,
        },
{
    let c = to_chars(text);
    let ls = split_lines(&c);
    let ghost lv = views(ls@);
    let mut i: usize = 0;
    while i < ls.len()
        invariant
            lv == views(ls@),
            lv == lines(text@),
            listed_manufacturer(lv, i as int) == listed_manufacturer(lv, 0),
        decreases ls.len() - i,
    {
        assert(lv[i as int] == ls@[i as int]@);
        let line = &ls[i];
        if starts_with_str(line, "Manufacturer=") {
            let v = value_after_exec(line, "Manufacturer=");
            if v.len() > 0 {
                return Some(from_chars(&v));
            }
        }
        i = i + 1;
    }
    None
}

/// The cache size of the processor: the L3 size, or else the L2 size, of
/// the details, or else what the listing that `listing` reads gives.
pub fn cpu_cache_size<F: Fn() -> Option<Vec<u8>>>(details: &Details, listing: &F) -> (r: String)
    requires
        details.wf(),
        !details@.contains_key("L3CacheSize"@) && !details@.contains_key("L2CacheSize"@)
            ==> call_requires(*listing, ()),
    ensures
        details@.contains_key("L3CacheSize"@) ==> r@ == details@["L3CacheSize"@] + " KB"@,
        !details@.contains_key("L3CacheSize"@) && details@.contains_key("L2CacheSize"@) ==> r@
            == details@["L2CacheSize"@] + " KB"@,
        !details@.contains_key("L3CacheSize"@) && !details@.contains_key("L2CacheSize"@)
            ==> exists|o: Option<Vec<u8>>|
            call_ensures(*listing, (), o) && r@ == cache_size_from_listing(bytes_view(o)),
{
    match details.get("L3CacheSize") {
        Some(v) => concat2(v.as_str(), " KB"),
        None => match details.get("L2CacheSize") {
            Some(v) => concat2(v.as_str(), " KB"),
            None => {
                let o = listing();
                let ghost ov = bytes_view(o);
                match o {
                    Some(b) => match utf8_decode(&b) {
                        Some(text) => match cache_size_in_listing(text.as_str()) {
                            Some(v) => concat2(v.as_str(), " KB"),
                            None => String::from_str("Unknown"),
                        },
                        None => String::from_str("Unknown"),
                    },
                    None => String::from_str("Unknown"),
                }
            },
        },
    }
}

/// The manufacturer of the processor: the `Manufacturer` detail, or else
/// `vendor_id`, or else what the listing that `listing` reads gives.
pub fn cpu_vendor<F: Fn() -> Option<Vec<u8>>>(details: &Details, listing: &F) -> (r: String)
    requires
        details.wf(),
        !details@.contains_key("Manufacturer"@) && !details@.contains_key("vendor_id"@)
            ==> call_requires(*listing, ()),
    ensures
        details@.contains_key("Manufacturer"@) ==> r@ == details@["Manufacturer"@],
        !details@.contains_key("Manufacturer"@) && details@.contains_key("vendor_id"@) ==> r@
            == details@["vendor_id"@],
        !details@.contains_key("Manufacturer"@) && !details@.contains_key("vendor_id"@)
            ==> exists|o: Option<Vec<u8>>|
            call_ensures(*listing, (), o) && r@ == manufacturer_from_listing(bytes_view(o)),
{
    match details.get("Manufacturer") {
        Some(v) => v,
        None => match details.get("vendor_id") {
            Some(v) => v,
            None => {
                let o = listing();
                let ghost ov = bytes_view(o);
                match o {
                    Some(b) => match utf8_decode(&b) {
                        Some(text) => match manufacturer_in_listing(text.as_str()) {
                            Some(v) => v,
                            None => String::from_str("Unknown"),
                        },
                        None => String::from_str("Unknown"),
                    },
                    None => String::from_str("Unknown"),
                }
            },
        },
    }
}

/// The model name of the processor: the `Name` detail, or else
/// `model name`, or else the brand string.
pub fn cpu_model_name(details: &Details, brand: &str) -> (r: String)
    requires
        details.wf(),
    ensures
        details@.contains_key("Name"@) ==> r@ == details@["Name"@],
        !details@.contains_key("Name"@) && details@.contains_key("model name"@) ==> r@
            == details@["model name"@],
        !details@.contains_key("Name"@) && !details@.contains_key("model name"@) ==> r@ == brand@,
{
    match details.get("Name") {
        Some(v) => v,
        None => match details.get("model name") {
            Some(v) => v,
            None => String::from_str(brand),
        },
    }
}

// ---------------------------------------------------------------------------
// Monitoring
// ---------------------------------------------------------------------------

/// Whether the user interface shows the monitor, so that the data are
/// kept up to date; off at first.
pub struct MonitoringFlag {
    active: bool,
}

impl View for MonitoringFlag {
    type V = bool;

    closed spec fn view(&self) -> bool {
        self.active
    }
}

impl MonitoringFlag {
    /// A flag that is off.
    pub fn new() -> (r: MonitoringFlag)
        ensures
            !r@,
    {
        MonitoringFlag { active: false }
    }
}

/// Turns the monitoring on or off.
pub fn set_monitoring_active(flag: &mut MonitoringFlag, active: bool)
    ensures
        final(flag)@ == active,
{
    flag.active = active;
}

/// Whether the monitoring is on.
pub fn is_monitoring_active(flag: &MonitoringFlag) -> (r: bool)
    ensures
        r == flag@,
{
    flag.active
}

// ---------------------------------------------------------------------------
// The static data of the memory
// ---------------------------------------------------------------------------

/// The name of an `SMBIOSMemoryType` code.
pub open spec fn smbios_memory_type_name(code: u32) -> Seq<char> {
    if code == 0 {
        "Unknown"@
    } else if code == 1 {
        "Other"@
    } else if code == 2 {
        "DRAM"@
    } else if code == 3 {
        "Synchronous DRAM"@
    } else if code == 4 {
        "Cache DRAM"@
    } else if code == 5 {
        "EDO"@
    } else if code == 6 {
        "EDRAM"@
    } else if code == 7 {
        "VRAM"@
    } else if code == 8 {
        "SRAM"@
    } else if code == 9 {
        "RAM"@
    } else if code == 10 {
        "ROM"@
    } else if code == 11 {
        "Flash"@
    } else if code == 12 {
        "EEPROM"@
    } else if code == 13 {
        "FEPROM"@
    } else if code == 14 {
        "EPROM"@
    } else if code == 15 {
        "CDRAM"@
    } else if code == 16 {
        "3DRAM"@
    } else if code == 17 {
        "SDRAM"@
    } else if code == 18 {
        "SGRAM"@
    } else if code == 19 {
        "RDRAM"@
    } else if code == 20 {
        "DDR"@
    } else if code == 21 {
        "DDR2"@
    } else if code == 22 {
        "DDR2 FB-DIMM"@
    } else if code == 24 {
        "DDR3"@
    } else if code == 26 {
        "DDR4"@
    } else if code == 34 {
        "DDR5"@
    } else {
        "Type_"@ + decimal(code as nat)
    }
}

/// The name of an `SMBIOSMemoryType` code.
pub fn smbios_memory_type(code: u32) -> (r: String)
    ensures
        r@ == smbios_memory_type_name(code),
{
    let s = match code {
        0 => "Unknown",
        1 => "Other",
        2 => "DRAM",
        3 => "Synchronous DRAM",
        4 => "Cache DRAM",
        5 => "EDO",
        6 => "EDRAM",
        7 => "VRAM",
        8 => "SRAM",
        9 => "RAM",
        10 => "ROM",
        11 => "Flash",
        12 => "EEPROM",
        13 => "FEPROM",
        14 => "EPROM",
        15 => "CDRAM",
        16 => "3DRAM",
        17 => "SDRAM",
        18 => "SGRAM",
        19 => "RDRAM",
        20 => "DDR",
        21 => "DDR2",
        22 => "DDR2 FB-DIMM",
        24 => "DDR3",
        26 => "DDR4",
        34 => "DDR5",
        _ => {
            let mut v = to_chars("Type_");
            let d = decimal_chars(code as u64);
            crate::text::push_all(&mut v, &d);
            return from_chars(&v);
        },
    };
    String::from_str(s)
}

/// What the memory queries printed, each where its command ran.
pub struct MemoryProbe {
    /// `SMBIOSMemoryType` of the first module.
    pub smbios_type: Option<Vec<u8>>,
    /// `Speed` of the first module, in MHz.
    pub speed: Option<Vec<u8>>,
    /// `Manufacturer` of the first module.
    pub manufacturer: Option<Vec<u8>>,
    /// `PartNumber` of the first module.
    pub part_number: Option<Vec<u8>>,
    /// `MemoryDevices` of the memory array: the slots.
    pub slots_total: Option<Vec<u8>>,
    /// The number of modules: the slots in use.
    pub slots_used: Option<Vec<u8>>,
}

/// The static data of the memory.
pub struct MemoryStatic {
    pub memory_type: String,
    pub speed: String,
    pub name: String,
    pub part_number: String,
    pub slots_total: u32,
    pub slots_used: u32,
}

/// The trimmed text of an output, where it is UTF-8.
pub open spec fn trimmed_output(o: Option<Vec<u8>>) -> Option<Seq<char>> {
    match listing_text(bytes_view(o)) {
        Some(t) => Some(trim(t)),
        None => None,
    }
}

/// The number that an output reads as, trimmed.
pub open spec fn output_number(o: Option<Vec<u8>>) -> Option<u32> {
    match trimmed_output(o) {
        Some(t) => parse_u32_spec(t),
        None => None,
    }
}

/// Thirty-two gibibytes: with more memory available the type is taken
/// for DDR5.
pub const DDR5_THRESHOLD: u64 = 34359738368;

/// The type of the memory: the SMBIOS code's name (a code that does not
/// read as a number counts as 0), and where that is "Unknown", DDR5 for
/// more than 32 GiB available and DDR4 otherwise.
pub open spec fn memory_type_of(o: Option<Vec<u8>>, available: u64) -> Seq<char> {
    let t = match trimmed_output(o) {
        Some(t) => smbios_memory_type_name(
            match parse_u32_spec(t) {
                Some(n) => n,
                None => 0,
            },
        ),
        None => "Unknown"@,
    };
    if t == "Unknown"@ {
        if available > DDR5_THRESHOLD {
            "DDR5"@
        } else {
            "DDR4"@
        }
    } else {
        t
    }
}

/// A text field of the first module: the trimmed output, or "Unknown"
/// where it is empty or missing.
pub open spec fn text_field_of(o: Option<Vec<u8>>) -> Seq<char> {
    match trimmed_output(o) {
        Some(t) => if t.len() > 0 {
            t
        } else {
            "Unknown"@
        },
        None => "Unknown"@,
    }
}

/// The speed of the memory: the number with " МГц", or "Unknown".
pub open spec fn speed_of(o: Option<Vec<u8>>) -> Seq<char> {
    match output_number(o) {
        Some(n) => decimal(n as nat) + " МГц"@,
        None => "Unknown"@,
    }
}

/// The slots: as read, except that where the total is 0 (or unread) the
/// usual 4 slots with 2 in use are assumed.
pub open spec fn slots_of(total: Option<Vec<u8>>, used: Option<Vec<u8>>) -> (u32, u32) {
    let t = match output_number(total) {
        Some(n) => n,
        None => 0,
    };
    let u = match output_number(used) {
        Some(n) => n,
        None => 0,
    };
    if t == 0 {
        (4, 2)
    } else {
        (t, u)
    }
}

/// The trimmed output of a command, where it ran and printed UTF-8.
fn trimmed_output_exec(o: &Option<Vec<u8>>) -> (r: Option<Vec<char>>)
    ensures
        match r {
            Some(t) => trimmed_output(*o) == Some(t@),
            None => trimmed_output(*o) is None,
        },
{
    match o {
        Some(b) => match utf8_decode(b) {
            Some(text) => Some(trim_chars(&to_chars(text.as_str()))),
            None => None,
        },
        None => None,
    }
}

/// The number that an output reads as.
fn output_number_exec(o: &Option<Vec<u8>>) -> (r: Option<u32>)
    ensures
        r == output_number(*o),
{
    match trimmed_output_exec(o) {
        Some(t) => parse_u32(&t),
        None => None,
    }
}

/// A text field of the first module.
fn text_field_exec(o: &Option<Vec<u8>>) -> (r: String)
    ensures
        r@ == text_field_of(*o),
{
    match trimmed_output_exec(o) {
        Some(t) => if t.len() > 0 {
            from_chars(&t)
        } else {
            String::from_str("Unknown")
        },
        None => String::from_str("Unknown"),
    }
}

/// The static data of the memory from what the queries printed, with the
/// fallbacks for what they did not tell.
pub fn memory_static_from_probe(probe: &MemoryProbe, available: u64) -> (r: MemoryStatic)
    ensures
        r.memory_type@ == memory_type_of(probe.smbios_type, available),
        r.speed@ == speed_of(probe.speed),
        r.name@ == text_field_of(probe.manufacturer),
        r.part_number@ == text_field_of(probe.part_number),
        (r.slots_total, r.slots_used) == slots_of(probe.slots_total, probe.slots_used),
{
    let t0 = match trimmed_output_exec(&probe.smbios_type) {
        Some(t) => smbios_memory_type(
            match parse_u32(&t) {
                Some(n) => n,
                None => 0,
            },
        ),
        None => String::from_str("Unknown"),
    };
    let tc = to_chars(t0.as_str());
    let memory_type = if eq_str(&tc, "Unknown") {
        if available > DDR5_THRESHOLD {
            String::from_str("DDR5")
        } else {
            String::from_str("DDR4")
        }
    } else {
        t0
    };
    let speed = match output_number_exec(&probe.speed) {
        Some(n) => {
            let mut v = decimal_chars(n as u64);
            push_str(&mut v, " МГц");
            from_chars(&v)
        },
        None => String::from_str("Unknown"),
    };
    let t = match output_number_exec(&probe.slots_total) {
        Some(n) => n,
        None => 0,
    };
    let u = match output_number_exec(&probe.slots_used) {
        Some(n) => n,
        None => 0,
    };
    let (slots_total, slots_used) = if t == 0 {
        (4, 2)
    } else {
        (t, u)
    };
    MemoryStatic {
        memory_type,
        speed,
        name: text_field_exec(&probe.manufacturer),
        part_number: text_field_exec(&probe.part_number),
        slots_total,
        slots_used,
    }
}

/// How long the static data of the memory are kept, in nanoseconds.
pub const MEMORY_STATIC_TTL_NS: u64 = 30_000_000_000;

/// Whether the static data of the memory are read again: the first time,
/// and when more than 30 seconds have passed since they were read (times
/// in nanoseconds; a clock that went back counts as no time passed).
pub fn memory_static_due(last_read_ns: Option<u64>, now_ns: u64) -> (r: bool)
    ensures
        r == match last_read_ns {
            Some(t) => now_ns >= t && now_ns - t > MEMORY_STATIC_TTL_NS,
            None => true,
        },
{
    match last_read_ns {
        Some(t) => now_ns >= t && now_ns - t > MEMORY_STATIC_TTL_NS,
        None => true,
    }
}


// ---------------------------------------------------------------------------
// Processes, threads and handles
// ---------------------------------------------------------------------------

/// The number on a `Key=value` line of `wmic`'s list, or 0 where the line
/// has another key or the value is not a number.
pub open spec fn keyed_count(line: Seq<char>, key: Seq<char>) -> nat {
    if starts_with(line, key) {
        match crate::text::parse_usize_spec(trim(trim_start_matches(line, key))) {
            Some(n) => n as nat,
            None => 0,
        }
    } else {
        0
    }
}

/// The sum of the numbers on the `key` lines.
pub open spec fn keyed_sum(ls: Seq<Seq<char>>, key: Seq<char>) -> nat
    decreases ls.len(),
{
    if ls.len() == 0 {
        0
    } else {
        keyed_sum(ls.drop_last(), key) + keyed_count(ls.last(), key)
    }
}

/// The number of processes on the last line (what `find /c` counted).
pub open spec fn last_line_count(ls: Seq<Seq<char>>) -> nat {
    if ls.len() == 0 {
        0
    } else {
        match crate::text::parse_usize_spec(trim(ls.last())) {
            Some(n) => n as nat,
            None => 0,
        }
    }
}

/// The counts of processes, threads and handles from the output of `wmic
/// process get ThreadCount,HandleCount /value && tasklist /nh | find /c /v
/// ""` (where it is UTF-8), and `sysinfo_processes` where that gives no
/// processes: the threads are estimated at ten per process and the handles
/// at thirty per thread where the output gives none.
pub open spec fn process_counts(text: Option<Seq<char>>, sysinfo_processes: nat) -> (nat, nat, nat) {
    let ls = match text {
        Some(t) => lines(t),
        None => seq![],
    };
    let p0 = last_line_count(ls);
    let t0 = keyed_sum(ls, "ThreadCount="@);
    let h0 = keyed_sum(ls, "HandleCount="@);
    let p = if p0 == 0 {
        sysinfo_processes
    } else {
        p0
    };
    let t = if t0 == 0 && p > 0 {
        p * 10
    } else {
        t0
    };
    let h = if h0 == 0 && t > 0 {
        t * 30
    } else {
        h0
    };
    (p, t, h)
}

/// The lines of an output, none where there is no output.
pub open spec fn output_lines(text: Option<Seq<char>>) -> Seq<Seq<char>> {
    match text {
        Some(t) => lines(t),
        None => seq![],
    }
}

/// The running sums of the `ThreadCount=` and `HandleCount=` lines fit in
/// `usize`.
pub open spec fn keyed_sums_fit(text: Option<Seq<char>>) -> bool {
    let ls = output_lines(text);
    &&& forall|k: int| 0 <= k <= ls.len() ==> #[trigger] keyed_sum(ls.take(k), "ThreadCount="@) <= usize::MAX
    &&& forall|k: int| 0 <= k <= ls.len() ==> #[trigger] keyed_sum(ls.take(k), "HandleCount="@) <= usize::MAX
}

/// The estimated counts fit in `usize`.
pub open spec fn estimates_fit(text: Option<Seq<char>>, sysinfo_processes: nat) -> bool {
    &&& process_counts(text, sysinfo_processes).0 <= usize::MAX
    &&& process_counts(text, sysinfo_processes).1 <= usize::MAX
    &&& process_counts(text, sysinfo_processes).2 <= usize::MAX
}

/// The number on a `key` line.
fn keyed_count_exec(line: &[char], key: &str) -> (r: usize)
    ensures
        r == keyed_count(line@, key@),
{
    if starts_with_str(line, key) {
        let v = trim_chars(&trim_start_matching(line, key));
        match crate::text::parse_usize(&v) {
            Some(n) => n,
            None => 0,
        }
    } else {
        0
    }
}

/// The counts of processes, threads and handles (Windows), from the
/// output of the combined `wmic`/`tasklist` command where it ran and is
/// UTF-8; `sysinfo_processes` counts the processes where the output gives
/// none, and is asked only then.
pub fn get_system_process_info_internal<F: Fn() -> usize>(output: Option<Vec<u8>>, sysinfo_processes: &F) -> (r: (usize, usize, usize))
    requires
        last_line_count(output_lines(listing_text(bytes_view(output)))) == 0 ==> call_requires(
            *sysinfo_processes,
            (),
        ),
        keyed_sums_fit(listing_text(bytes_view(output))),
        last_line_count(output_lines(listing_text(bytes_view(output)))) > 0 ==> estimates_fit(
            listing_text(bytes_view(output)),
            0,
        ),
        forall|n: usize| call_ensures(*sysinfo_processes, (), n) ==> estimates_fit(
            listing_text(bytes_view(output)),
            n as nat,
        ),
    ensures
        last_line_count(output_lines(listing_text(bytes_view(output)))) > 0 ==> (
        r.0 as nat,
        r.1 as nat,
        r.2 as nat,
        ) == process_counts(listing_text(bytes_view(output)), 0),
        last_line_count(output_lines(listing_text(bytes_view(output)))) == 0 ==> exists|n: usize|
            call_ensures(*sysinfo_processes, (), n) && (r.0 as nat, r.1 as nat, r.2 as nat)
                == process_counts(listing_text(bytes_view(output)), n as nat),
{
    let ghost text = listing_text(bytes_view(output));
    let ls: Vec<Vec<char>> = match &output {
        Some(b) => match utf8_decode(b) {
            Some(t) => split_lines(&to_chars(t.as_str())),
            None => Vec::new(),
        },
        None => Vec::new(),
    };
    let ghost lv = views(ls@);
    assert(lv == output_lines(text)) by {
        if text is None {
            assert(lv =~= seq![]);
        }
    }
    let p0: usize = if ls.len() > 0 {
        assert(lv.last() == ls@[ls@.len() - 1]@);
        match crate::text::parse_usize(&trim_chars(&ls[ls.len() - 1])) {
            Some(n) => n,
            None => 0,
        }
    } else {
        0
    };
    let mut t0: usize = 0;
    let mut h0: usize = 0;
    let mut i: usize = 0;
    while i < ls.len()
        invariant
            i <= ls.len(),
            lv == views(ls@),
            t0 == keyed_sum(lv.take(i as int), "ThreadCount="@),
            h0 == keyed_sum(lv.take(i as int), "HandleCount="@),
            forall|k: int| 0 <= k <= lv.len() ==> #[trigger] keyed_sum(lv.take(k), "ThreadCount="@) <= usize::MAX,
            forall|k: int| 0 <= k <= lv.len() ==> #[trigger] keyed_sum(lv.take(k), "HandleCount="@) <= usize::MAX,
        decreases ls.len() - i,
    {
        assert(lv.take(i + 1).drop_last() =~= lv.take(i as int));
        assert(lv.take(i + 1).last() == ls@[i as int]@);
        let line = &ls[i];
        let tc = keyed_count_exec(line, "ThreadCount=");
        let hc = keyed_count_exec(line, "HandleCount=");
        assert(keyed_sum(lv.take(i + 1), "ThreadCount="@) <= usize::MAX);
        assert(keyed_sum(lv.take(i + 1), "HandleCount="@) <= usize::MAX);
        t0 = t0 + tc;
        h0 = h0 + hc;
        i = i + 1;
    }
    assert(lv.take(lv.len() as int) =~= lv);
    assert(p0 as nat == last_line_count(lv));
    let p = if p0 == 0 {
        sysinfo_processes()
    } else {
        p0
    };
    proof {
        let pc = process_counts(text, if p0 == 0 { p as nat } else { 0 });
        assert(pc.0 == p as nat);
        assert(estimates_fit(text, if p0 == 0 { p as nat } else { 0 }));
    }
    let t = if t0 == 0 && p > 0 {
        p * 10
    } else {
        t0
    };
    let h = if h0 == 0 && t > 0 {
        t * 30
    } else {
        h0
    };
    (p, t, h)
}

/// Whether the counts of an output fit in `usize` when `sysinfo_processes`
/// is the number of processes that `sysinfo` lists: what a caller of
/// `get_system_process_info_internal` tests first.
pub fn process_counts_fit_check(output: &Option<Vec<u8>>, sysinfo_processes: usize) -> (r: bool)
    ensures
        r == ({
            let text = listing_text(bytes_view(*output));
            &&& keyed_sums_fit(text)
            &&& estimates_fit(text, sysinfo_processes as nat)
            &&& (last_line_count(output_lines(text)) > 0 ==> estimates_fit(text, 0))
        }),
{
    let ghost text = listing_text(bytes_view(*output));
    let ls: Vec<Vec<char>> = match output {
        Some(b) => match utf8_decode(b) {
            Some(t) => split_lines(&to_chars(t.as_str())),
            None => Vec::new(),
        },
        None => Vec::new(),
    };
    let ghost lv = views(ls@);
    assert(lv == output_lines(text)) by {
        if text is None {
            assert(lv =~= seq![]);
        }
    }
    let mut t0: usize = 0;
    let mut h0: usize = 0;
    let mut i: usize = 0;
    while i < ls.len()
        invariant
            i <= ls.len(),
            lv == views(ls@),
            t0 == keyed_sum(lv.take(i as int), "ThreadCount="@),
            h0 == keyed_sum(lv.take(i as int), "HandleCount="@),
            forall|k: int| 0 <= k <= i ==> #[trigger] keyed_sum(lv.take(k), "ThreadCount="@) <= usize::MAX,
            forall|k: int| 0 <= k <= i ==> #[trigger] keyed_sum(lv.take(k), "HandleCount="@) <= usize::MAX,
            lv == output_lines(text),
            text == listing_text(bytes_view(*output)),
        decreases ls.len() - i,
    {
        assert(lv.take(i + 1).drop_last() =~= lv.take(i as int));
        assert(lv.take(i + 1).last() == ls@[i as int]@);
        let line = &ls[i];
        let tc = keyed_count_exec(line, "ThreadCount=");
        let hc = keyed_count_exec(line, "HandleCount=");
        if t0 > usize::MAX - tc || h0 > usize::MAX - hc {
            proof {
                if t0 > usize::MAX - tc {
                    assert(keyed_sum(lv.take(i + 1), "ThreadCount="@) > usize::MAX);
                } else {
                    assert(keyed_sum(lv.take(i + 1), "HandleCount="@) > usize::MAX);
                }
            }
            return false;
        }
        t0 = t0 + tc;
        h0 = h0 + hc;
        i = i + 1;
    }
    assert(lv.take(lv.len() as int) =~= lv);
    let p0: usize = if ls.len() > 0 {
        assert(lv.last() == ls@[ls@.len() - 1]@);
        match crate::text::parse_usize(&trim_chars(&ls[ls.len() - 1])) {
            Some(n) => n,
            None => 0,
        }
    } else {
        0
    };
    let fits_with = |p: usize| -> (ok: bool)
        ensures
            ok == ({
                let t: int = if t0 == 0 && p > 0 { p * 10 } else { t0 as int };
                let h: int = if h0 == 0 && t > 0 { t * 30 } else { h0 as int };
                t <= usize::MAX && h <= usize::MAX
            }),
    {
        if t0 == 0 && p > 0 {
            if p > usize::MAX / 10 {
                return false;
            }
            let t = p * 10;
            h0 != 0 || t <= usize::MAX / 30
        } else {
            h0 != 0 || t0 == 0 || t0 <= usize::MAX / 30
        }
    };
    let with_sysinfo = fits_with(if p0 == 0 { sysinfo_processes } else { p0 });
    let with_zero = p0 == 0 || fits_with(p0);
    with_sysinfo && with_zero
}

/// The counts of processes, threads and handles from what
/// `Write-Output "$processCount,$threadCount,$handleCount"` printed: each of
/// the three comma-separated fields that reads as a number, 0 for the
/// others and where there are not exactly three fields.
pub open spec fn csv_counts(text: Option<Seq<char>>) -> (nat, nat, nat) {
    match text {
        Some(t) => {
            let parts = crate::text::split_on(trim(t), ',');
            if parts.len() == 3 {
                (
                    match crate::text::parse_usize_spec(parts[0]) {
                        Some(n) => n as nat,
                        None => 0,
                    },
                    match crate::text::parse_usize_spec(parts[1]) {
                        Some(n) => n as nat,
                        None => 0,
                    },
                    match crate::text::parse_usize_spec(parts[2]) {
                        Some(n) => n as nat,
                        None => 0,
                    },
                )
            } else {
                (0, 0, 0)
            }
        },
        None => (0, 0, 0),
    }
}

/// The count that the trimmed output of a fallback query reads as, or 0.
pub open spec fn fallback_count(o: Option<Seq<u8>>) -> nat {
    match listing_text(o) {
        Some(t) => match crate::text::parse_usize_spec(trim(t)) {
            Some(n) => n as nat,
            None => 0,
        },
        None => 0,
    }
}

/// Reads the three counts of the combined query.
fn csv_counts_exec(output: &Option<Vec<u8>>) -> (r: (usize, usize, usize))
    ensures
        (r.0 as nat, r.1 as nat, r.2 as nat) == csv_counts(listing_text(bytes_view(*output))),
{
    match output {
        Some(b) => match utf8_decode(b) {
            Some(t) => {
                let tc = trim_chars(&to_chars(t.as_str()));
                let parts = crate::text::split_char(&tc, ',');
                if parts.len() == 3 {
                    assert(views(parts@)[0] == parts@[0]@);
                    assert(views(parts@)[1] == parts@[1]@);
                    assert(views(parts@)[2] == parts@[2]@);
                    let a = match crate::text::parse_usize(&parts[0]) {
                        Some(n) => n,
                        None => 0,
                    };
                    let b = match crate::text::parse_usize(&parts[1]) {
                        Some(n) => n,
                        None => 0,
                    };
                    let c = match crate::text::parse_usize(&parts[2]) {
                        Some(n) => n,
                        None => 0,
                    };
                    (a, b, c)
                } else {
                    (0, 0, 0)
                }
            },
            None => (0, 0, 0),
        },
        None => (0, 0, 0),
    }
}

/// The count of a fallback query.
fn fallback_count_exec(output: Option<Vec<u8>>) -> (r: usize)
    ensures
        r as nat == fallback_count(bytes_view(output)),
{
    match output {
        Some(b) => match utf8_decode(&b) {
            Some(t) => match crate::text::parse_usize(&trim_chars(&to_chars(t.as_str()))) {
                Some(n) => n,
                None => 0,
            },
            None => 0,
        },
        None => 0,
    }
}

/// The counts of processes, threads and handles on Windows: those of the
/// combined query, and for each that it leaves at 0, what its own query
/// (`threads`, then `processes`, then `handles`, each asked only then)
/// gives.
pub fn get_system_process_info<FT: Fn() -> Option<Vec<u8>>, FP: Fn() -> Option<Vec<u8>>, FH: Fn() -> Option<Vec<u8>>>(
    combined: Option<Vec<u8>>,
    threads: &FT,
    processes: &FP,
    handles: &FH,
) -> (r: (usize, usize, usize))
    requires
        csv_counts(listing_text(bytes_view(combined))).1 == 0 ==> call_requires(*threads, ()),
        csv_counts(listing_text(bytes_view(combined))).0 == 0 ==> call_requires(*processes, ()),
        csv_counts(listing_text(bytes_view(combined))).2 == 0 ==> call_requires(*handles, ()),
    ensures
        ({
            let c = csv_counts(listing_text(bytes_view(combined)));
            &&& c.0 > 0 ==> r.0 as nat == c.0
            &&& c.1 > 0 ==> r.1 as nat == c.1
            &&& c.2 > 0 ==> r.2 as nat == c.2
            &&& c.0 == 0 ==> exists|o: Option<Vec<u8>>| call_ensures(*processes, (), o) && r.0 as nat == fallback_count(bytes_view(o))
            &&& c.1 == 0 ==> exists|o: Option<Vec<u8>>| call_ensures(*threads, (), o) && r.1 as nat == fallback_count(bytes_view(o))
            &&& c.2 == 0 ==> exists|o: Option<Vec<u8>>| call_ensures(*handles, (), o) && r.2 as nat == fallback_count(bytes_view(o))
        }),
{
    let (mut p, mut t, mut h) = csv_counts_exec(&combined);
    if t == 0 {
        let o = threads();
        let ghost ov = bytes_view(o);
        t = fallback_count_exec(o);
    }
    if p == 0 {
        let o = processes();
        let ghost ov = bytes_view(o);
        p = fallback_count_exec(o);
    }
    if h == 0 {
        let o = handles();
        let ghost ov = bytes_view(o);
        h = fallback_count_exec(o);
    }
    (p, t, h)
}

/// The counts elsewhere than on Windows: the processes that `sysinfo`
/// lists, ten threads per process, and no handles.
pub fn process_info_elsewhere(processes: usize) -> (r: (usize, usize, usize))
    requires
        processes * 10 <= usize::MAX,
    ensures
        r == (processes, (processes * 10) as usize, 0usize),
{
    (processes, processes * 10, 0)
}


// ---------------------------------------------------------------------------
// The network adapter
// ---------------------------------------------------------------------------

/// The value of the field `key` in `Format-List` output, from line `i` on:
/// the first line that, trimmed, starts with the key; the rest of it
/// trimmed, its leading colons dropped, trimmed again.
pub open spec fn list_field_from(ls: Seq<Seq<char>>, key: Seq<char>, i: int) -> Option<Seq<char>>
    decreases ls.len() - i,
{
    if i < 0 || i >= ls.len() {
        None
    } else if starts_with(trim(ls[i]), key) {
        Some(trim(trim_start_matches(trim(trim(ls[i]).skip(key.len() as int)), ":"@)))
    } else {
        list_field_from(ls, key, i + 1)
    }
}

/// Reads the field `key` of `Format-List` output.
pub fn format_list_field(text: &str, key: &str) -> (r: Option<String>)
    ensures
        match r {
            Some(v) => list_field_from(lines(text@), key@, 0) == Some(v@),
            None => list_field_from(lines(text@), key@, 0) is None,
        },
{
    let c = to_chars(text);
    let ls = split_lines(&c);
    let ghost lv = views(ls@);
    let kl = to_chars(key).len();
    let mut i: usize = 0;
    while i < ls.len()
        invariant
            lv == views(ls@),
            lv == lines(text@),
            kl == key@.len(),
            list_field_from(lv, key@, i as int) == list_field_from(lv, key@, 0),
        decreases ls.len() - i,
    {
        assert(lv[i as int] == ls@[i as int]@);
        let t = trim_chars(&ls[i]);
        if starts_with_str(&t, key) {
            let rest = slice_chars(&t, kl, t.len());
            assert(rest@ =~= t@.skip(kl as int));
            let v = trim_chars(&trim_start_matching(&trim_chars(&rest), ":"));
            return Some(from_chars(&v));
        }
        i = i + 1;
    }
    None
}

/// The command that reads the byte counts of the adapter `name`.
pub fn adapter_statistics_command(name: &str) -> (r: String)
    ensures
        r@ == "Get-NetAdapterStatistics | Where-Object Name -eq '"@ + name@
            + "' | Select-Object ReceivedBytes,SentBytes | ConvertTo-Json"@,
{
    concat3(
        "Get-NetAdapterStatistics | Where-Object Name -eq '",
        name,
        "' | Select-Object ReceivedBytes,SentBytes | ConvertTo-Json",
    )
}

/// What `serde_json` makes of a text and a member name: `None` where the
/// text is not JSON; otherwise the member's value where the text is an
/// object with that member and the value is an unsigned integer.
pub uninterp spec fn json_unsigned_member(text: Seq<char>, key: Seq<char>) -> Option<Option<u64>>;

/// Parses `text` as JSON (`serde_json::from_str::<serde_json::Value>`) and
/// reads the member `key` as an unsigned integer (`Value::get`,
/// `Value::as_u64`).
#[verifier::external_body]
fn json_member_u64(text: &str, key: &str) -> (r: Option<Option<u64>>)
    ensures
        r == json_unsigned_member(text@, key@),
{
    match serde_json::from_str::<serde_json::Value>(text) {
        Ok(v) => match v.get(key) {
            Some(x) => Some(x.as_u64()),
            None => Some(None),
        },
        Err(_) => None,
    }
}

/// The byte counts that a statistics text gives: `None` where it is not
/// JSON; otherwise the received and the sent bytes where they are there.
pub open spec fn byte_counts_of(text: Seq<char>) -> Option<(Option<u64>, Option<u64>)> {
    match json_unsigned_member(text, "ReceivedBytes"@) {
        None => None,
        Some(received) => match json_unsigned_member(text, "SentBytes"@) {
            Some(sent) => Some((received, sent)),
            None => None,
        },
    }
}

/// Reads the byte counts from the output of the statistics command, where
/// it is UTF-8 and JSON.
pub fn adapter_byte_counts(output: &[u8]) -> (r: Option<(Option<u64>, Option<u64>)>)
    ensures
        !vstd::utf8::valid_utf8(output@) ==> r is None,
        vstd::utf8::valid_utf8(output@) ==> r == byte_counts_of(
            vstd::utf8::decode_utf8(output@),
        ),
{
    match utf8_decode(output) {
        None => None,
        Some(text) => match json_member_u64(text.as_str(), "ReceivedBytes") {
            None => None,
            Some(received) => match json_member_u64(text.as_str(), "SentBytes") {
                Some(sent) => Some((received, sent)),
                None => None,
            },
        },
    }
}

/// The bytes moved since the last reading, where the counter did not go
/// back (a restarted adapter counts from zero again).
pub fn bytes_since(previous: u64, current: u64) -> (r: Option<u64>)
    ensures
        current >= previous ==> r == Some((current - previous) as u64),
        current < previous ==> r is None,
{
    if current >= previous {
        Some(current - previous)
    } else {
        None
    }
}


/// The details of the memory that the monitor shows: fixed values, as no
/// query reads them yet.
pub fn get_memory_details() -> (r: Details)
    ensures
        r.wf(),
        r@ == Map::<Seq<char>, Seq<char>>::empty().insert("type"@, "DDR4"@).insert(
            "speed"@,
            "3200 MHz"@,
        ).insert("manufacturer"@, "OCPC 15 RGB BLACK"@).insert("total_capacity"@, "8 GB"@),
{
    let mut d = Details::new();
    d.insert(String::from_str("type"), String::from_str("DDR4"));
    d.insert(String::from_str("speed"), String::from_str("3200 MHz"));
    d.insert(String::from_str("manufacturer"), String::from_str("OCPC 15 RGB BLACK"));
    d.insert(String::from_str("total_capacity"), String::from_str("8 GB"));
    d
}

/// How long the details of the processor are reused, in nanoseconds.
pub const CPU_DETAILS_TTL_NS: u64 = 300_000_000_000;

/// Whether remembered processor details are still used: they are there and
/// younger than five minutes (times in nanoseconds; a clock that went back
/// counts as no time passed).
pub fn cpu_details_fresh(read_at_ns: Option<u64>, now_ns: u64) -> (r: bool)
    ensures
        r == match read_at_ns {
            Some(t) => now_ns < t || now_ns - t < CPU_DETAILS_TTL_NS,
            None => false,
        },
{
    match read_at_ns {
        Some(t) => now_ns < t || now_ns - t < CPU_DETAILS_TTL_NS,
        None => false,
    }
}

/// How many times the static data of the processor are read every ten
/// seconds before they are read every five minutes.
pub const FAST_STATIC_UPDATES: u32 = 5;

/// The schedule of the thread that reads the static data of the
/// processor: while the monitoring is on it reads them, then waits ten
/// seconds for the first five reads and five minutes after; while it is
/// off it only waits a second. The result: whether to read now, the reads
/// left at the quick pace, and how long to wait after, in milliseconds.
pub fn static_cpu_schedule(active: bool, fast_left: u32) -> (r: (bool, u32, u64))
    ensures
        !active ==> r == (false, fast_left, 1000u64),
        active && fast_left > 0 ==> r == (true, (fast_left - 1) as u32, 10000u64),
        active && fast_left == 0 ==> r == (true, 0u32, 300000u64),
{
    if !active {
        (false, fast_left, 1000)
    } else if fast_left > 0 {
        (true, fast_left - 1, 10000)
    } else {
        (true, 0, 300000)
    }
}

/// One second, in nanoseconds.
pub const SECOND_NS: u64 = 1_000_000_000;

/// Whether the network data are read again: at least a second after the
/// last read (times in nanoseconds).
pub fn network_read_due(last_read_ns: u64, now_ns: u64) -> (r: bool)
    ensures
        r == (now_ns >= last_read_ns && now_ns - last_read_ns >= SECOND_NS),
{
    now_ns >= last_read_ns && now_ns - last_read_ns >= SECOND_NS
}

/// The value field of the sample line that `typeperf ... -sc 1` prints:
/// the second comma-separated piece, trimmed and without its quotes.
pub open spec fn sample_field(text: Seq<char>) -> Option<Seq<char>> {
    let parts = split_on(text, ',');
    if parts.len() >= 2 {
        Some(strip_end(strip_start(trim(parts[1]), '"'), '"'))
    } else {
        None
    }
}

/// Reads the value field of the processor-time sample that `typeperf`
/// prints (the host parses it as a percentage).
pub fn typeperf_sample_field(text: &str) -> (r: Option<String>)
    ensures
        match r {
            Some(f) => sample_field(text@) == Some(f@),
            None => sample_field(text@) is None,
        },
{
    let parts = split_char(&to_chars(text), ',');
    if parts.len() >= 2 {
        let t = trim_chars(&parts[1]);
        let f = trim_end_char(&trim_start_char(&t, '"'), '"');
        Some(from_chars(&f))
    } else {
        None
    }
}

/// Whether a sensor reads the processor's temperature: its label, in
/// lower case, names the CPU, a core or the package.
pub open spec fn is_cpu_sensor(label: Seq<char>) -> bool {
    let l = lowercase(label);
    contains(l, "cpu"@) || contains(l, "core"@) || contains(l, "package"@)
}

/// Whether the sensor labelled `label` gives the processor's temperature
/// (the host takes the first such sensor).
pub fn cpu_sensor_label(label: &str) -> (r: bool)
    ensures
        r == is_cpu_sensor(label@),
{
    let l = to_chars(to_lowercase(label).as_str());
    contains_str(&l, "cpu") || contains_str(&l, "core") || contains_str(&l, "package")
}

/// Whether the counts of processes, threads and handles are read again
/// rather than the last ones shown: when none were read yet, or a second
/// or more has passed (times in nanoseconds).
pub fn process_counts_due(last_read_ns: Option<u64>, now_ns: u64) -> (r: bool)
    ensures
        r == match last_read_ns {
            Some(t) => now_ns >= t && now_ns - t >= SECOND_NS,
            None => true,
        },
{
    match last_read_ns {
        Some(t) => now_ns >= t && now_ns - t >= SECOND_NS,
        None => true,
    }
}

/// One mebibyte, the unit in which `Win32_PageFileUsage` gives its sizes.
pub const MEBIBYTE: u64 = 1048576;

/// Where the value of `AllocatedBaseSize` starts and ends in the page-file
/// report: past its key and one more character, up to the next comma.
pub open spec fn allocated_span(s: Seq<char>) -> Option<(int, int)> {
    let a = find_from(s, "\"AllocatedBaseSize\":"@, 0);
    if a < 0 {
        None
    } else {
        let c = first_index(s.skip(a), ',');
        if c < 0 {
            None
        } else {
            Some((a + 21, a + c))
        }
    }
}

/// The text of the `CurrentUsage` value: past its key, up to the end of
/// the line, trimmed and without surrounding commas and closing braces.
pub open spec fn current_usage_text(s: Seq<char>) -> Option<Seq<char>> {
    let b = find_from(s, "\"CurrentUsage\":"@, 0);
    if b < 0 {
        None
    } else {
        let d = first_index(s.skip(b), '\n');
        if d < 0 {
            None
        } else {
            Some(
                strip_end(
                    strip_start(strip_end(strip_start(trim(s.subrange(b + 15, b + d)), ','), ','), '}'),
                    '}',
                ),
            )
        }
    }
}

/// The page file's size and use, in mebibytes, as the report gives them.
pub open spec fn pagefile_mebibytes(s: Seq<char>) -> Option<(nat, nat)> {
    match allocated_span(s) {
        None => None,
        Some((from, to)) => match parse_u64_spec(trim(s.subrange(from, to))) {
            None => None,
            Some(allocated) => match current_usage_text(s) {
                None => None,
                Some(t) => match parse_u64_spec(t) {
                    None => None,
                    Some(used) => Some((allocated as nat, used as nat)),
                },
            },
        },
    }
}

/// Whether the page-file report can be read without a fault: the value of
/// `AllocatedBaseSize` is cut at character boundaries (the character after
/// the key is a one-byte one, and a comma comes later), and the sizes in
/// bytes fit in 64 bits.
pub open spec fn pagefile_readable(s: Seq<char>) -> bool {
    match allocated_span(s) {
        None => true,
        Some((from, to)) => {
            &&& from <= to
            &&& (s[from - 1] as u32) < 128
            &&& match parse_u64_spec(trim(s.subrange(from, to))) {
                None => true,
                Some(allocated) => {
                    &&& allocated * MEBIBYTE <= u64::MAX
                    &&& match current_usage_text(s) {
                        Some(t) => match parse_u64_spec(t) {
                            Some(used) => used * MEBIBYTE <= u64::MAX,
                            None => true,
                        },
                        None => true,
                    }
                },
            }
        },
    }
}

/// The key of the `CurrentUsage` value holds no line feed, so the line
/// that starts with it ends past it.
proof fn lemma_line_end_after_key(s: Seq<char>, b: int, d: int)
    requires
        occurs_at(s, "\"CurrentUsage\":"@, b),
        d == first_index(s.skip(b), '\n'),
        d >= 0,
    ensures
        d >= 15,
{
    reveal_strlit("\"CurrentUsage\":");
    crate::text::lemma_first_index_bounds(s.skip(b), '\n');
    if d < 15 {
        let k = "\"CurrentUsage\":"@;
        assert(s.subrange(b, b + 15)[d] == s.skip(b)[d]);
        assert(d == 0 || d == 1 || d == 2 || d == 3 || d == 4 || d == 5 || d == 6 || d == 7
            || d == 8 || d == 9 || d == 10 || d == 11 || d == 12 || d == 13 || d == 14);
        assert(k[d] != '\n');
    }
}

/// The page file's size and use in bytes, from what
/// `Get-CimInstance Win32_PageFileUsage ... | ConvertTo-Json` printed:
/// read where the swap space is otherwise unknown.
pub fn pagefile_usage(text: &str) -> (r: Option<(u64, u64)>)
    requires
        pagefile_readable(text@),
    ensures
        match pagefile_mebibytes(text@) {
            Some((allocated, used)) => r == Some(((allocated * MEBIBYTE) as u64, (used * MEBIBYTE) as u64)),
            None => r is None,
        },
{
    let v = to_chars(text);
    let a = match find_text(&v, "\"AllocatedBaseSize\":") {
        Some(a) => a,
        None => return None,
    };
    let rest = slice_chars(&v, a, v.len());
    assert(rest@ =~= v@.skip(a as int));
    let c = match find_char(&rest, ',') {
        Some(c) => c,
        None => return None,
    };
    let allocated = match parse_u64(&trim_chars(&slice_chars(&v, a + 21, a + c))) {
        Some(n) => n,
        None => return None,
    };
    let total = allocated * MEBIBYTE;
    let b = match find_text(&v, "\"CurrentUsage\":") {
        Some(b) => b,
        None => return None,
    };
    let rest2 = slice_chars(&v, b, v.len());
    assert(rest2@ =~= v@.skip(b as int));
    let d = match find_char(&rest2, '\n') {
        Some(d) => d,
        None => return None,
    };
    proof {
        lemma_line_end_after_key(v@, b as int, d as int);
    }
    let t = trim_chars(&slice_chars(&v, b + 15, b + d));
    let t = trim_end_char(&trim_start_char(&trim_end_char(&trim_start_char(&t, ','), ','), '}'), '}');
    let used = match parse_u64(&t) {
        Some(n) => n,
        None => return None,
    };
    Some((total, used * MEBIBYTE))
}

/// Whether `pagefile_usage` can read `text` (see `pagefile_readable`): the
/// host checks it first and fails as the system's own parsing would.
pub fn pagefile_check(text: &str) -> (r: bool)
    ensures
        r == pagefile_readable(text@),
{
    let v = to_chars(text);
    let a = match find_text(&v, "\"AllocatedBaseSize\":") {
        Some(a) => a,
        None => return true,
    };
    let rest = slice_chars(&v, a, v.len());
    assert(rest@ =~= v@.skip(a as int));
    let c = match find_char(&rest, ',') {
        Some(c) => c,
        None => return true,
    };
    if c < 21 || (v[a + 20] as u32) >= 128 {
        return false;
    }
    let allocated = match parse_u64(&trim_chars(&slice_chars(&v, a + 21, a + c))) {
        Some(n) => n,
        None => return true,
    };
    if allocated > u64::MAX / MEBIBYTE {
        return false;
    }
    let b = match find_text(&v, "\"CurrentUsage\":") {
        Some(b) => b,
        None => return true,
    };
    let rest2 = slice_chars(&v, b, v.len());
    assert(rest2@ =~= v@.skip(b as int));
    let d = match find_char(&rest2, '\n') {
        Some(d) => d,
        None => return true,
    };
    proof {
        lemma_line_end_after_key(v@, b as int, d as int);
    }
    let t = trim_chars(&slice_chars(&v, b + 15, b + d));
    let t = trim_end_char(&trim_start_char(&trim_end_char(&trim_start_char(&t, ','), ','), '}'), '}');
    match parse_u64(&t) {
        Some(n) => n <= u64::MAX / MEBIBYTE,
        None => true,
    }
}

/// The processor's name in the output of `systeminfo`: the second
/// colon-separated piece, trimmed, of the first line that mentions a
/// processor and has one.
pub open spec fn systeminfo_processor(ls: Seq<Seq<char>>) -> Option<Seq<char>>
    decreases ls.len(),
{
    if ls.len() == 0 {
        None
    } else if contains(ls[0], "Processor"@) && split_on(ls[0], ':').len() >= 2 {
        Some(trim(split_on(ls[0], ':')[1]))
    } else {
        systeminfo_processor(ls.skip(1))
    }
}

/// The details that the output of `systeminfo` gives: the processor's
/// `Name`, where it names one.
pub open spec fn systeminfo_details(o: Option<Seq<u8>>) -> Map<Seq<char>, Seq<char>> {
    match listing_text(o) {
        Some(t) => match systeminfo_processor(lines(t)) {
            Some(n) => Map::<Seq<char>, Seq<char>>::empty().insert("Name"@, n),
            None => Map::empty(),
        },
        None => Map::empty(),
    }
}

/// Reads the processor's name from the output of `systeminfo`.
fn systeminfo_name(output: Option<Vec<u8>>) -> (r: Details)
    ensures
        r.wf(),
        r@ == systeminfo_details(bytes_view(output)),
{
    let mut d = Details::new();
    let text = match &output {
        Some(b) => match utf8_decode(b) {
            Some(t) => t,
            None => return d,
        },
        None => return d,
    };
    assert(listing_text(bytes_view(output)) == Some(text@));
    let ls = split_lines(&to_chars(text.as_str()));
    let ghost lv = views(ls@);
    let mut i: usize = 0;
    assert(lv.skip(0) =~= lv);
    while i < ls.len()
        invariant
            i <= ls.len(),
            lv == views(ls@),
            lv == lines(text@),
            systeminfo_processor(lv) == systeminfo_processor(lv.skip(i as int)),
            listing_text(bytes_view(output)) == Some(text@),
            d.wf(),
            d@ == Map::<Seq<char>, Seq<char>>::empty(),
        decreases ls.len() - i,
    {
        assert(lv[i as int] == ls@[i as int]@);
        assert(lv.skip(i as int)[0] == lv[i as int]);
        if contains_str(&ls[i], "Processor") {
            let parts = split_char(&ls[i], ':');
            if parts.len() >= 2 {
                assert(views(parts@)[1] == parts@[1]@);
                let name = from_chars(&trim_chars(&parts[1]));
                proof {
                    assert(split_on(lv[i as int], ':') == views(parts@));
                    assert(systeminfo_processor(lv.skip(i as int)) == Some(name@));
                }
                d.insert(String::from_str("Name"), name);
                return d;
            }
        }
        assert(lv.skip(i as int).skip(1) =~= lv.skip(i + 1));
        i = i + 1;
    }
    d
}

/// The details of the processor read afresh: those of
/// [`get_cpu_details`]; on Windows, where these are none, the processor's
/// name that `systeminfo` reports (run only then).
pub fn get_cpu_details_fresh<F: Fn() -> Option<Vec<u8>>>(
    os: TargetOs,
    output: Option<Vec<u8>>,
    systeminfo: &F,
) -> (r: Details)
    requires
        os == TargetOs::Windows && cpu_details_of(os, bytes_view(output)) == Map::<
            Seq<char>,
            Seq<char>,
        >::empty() ==> call_requires(*systeminfo, ()),
    ensures
        r.wf(),
        os != TargetOs::Windows || cpu_details_of(os, bytes_view(output)) != Map::<
            Seq<char>,
            Seq<char>,
        >::empty() ==> r@ == cpu_details_of(os, bytes_view(output)),
        os == TargetOs::Windows && cpu_details_of(os, bytes_view(output)) == Map::<
            Seq<char>,
            Seq<char>,
        >::empty() ==> exists|o: Option<Vec<u8>>|
            call_ensures(*systeminfo, (), o) && r@ == systeminfo_details(bytes_view(o)),
{
    let is_windows = match os {
        TargetOs::Windows => true,
        _ => false,
    };
    let d = get_cpu_details(os, output);
    if is_windows && d.is_empty() {
        let o = systeminfo();
        systeminfo_name(o)
    } else {
        d
    }
}

/// The series of a processor as far as its brand string tells, which sets
/// the estimate of its boost clock from its base clock.
#[derive(Clone, Copy, PartialEq, Eq, Structural)]
pub enum TurboClass {
    CoreI9,
    CoreI7,
    /// A Core i5 of the twelfth or thirteenth generation.
    CoreI5Recent,
    CoreI5,
    CoreI3,
    OtherIntel,
    Ryzen9,
    Ryzen7,
    Ryzen5,
    OtherAmd,
    Other,
}

/// The series that a brand string names: Intel before AMD, and within each
/// the first series named in this order.
pub open spec fn turbo_class_of(brand: Seq<char>) -> TurboClass {
    if contains(brand, "Intel"@) {
        if contains(brand, "i9"@) {
            TurboClass::CoreI9
        } else if contains(brand, "i7"@) {
            TurboClass::CoreI7
        } else if contains(brand, "i5"@) {
            if contains(brand, "12th"@) || contains(brand, "13th"@) {
                TurboClass::CoreI5Recent
            } else {
                TurboClass::CoreI5
            }
        } else if contains(brand, "i3"@) {
            TurboClass::CoreI3
        } else {
            TurboClass::OtherIntel
        }
    } else if contains(brand, "AMD"@) {
        if contains(brand, "Ryzen 9"@) {
            TurboClass::Ryzen9
        } else if contains(brand, "Ryzen 7"@) {
            TurboClass::Ryzen7
        } else if contains(brand, "Ryzen 5"@) {
            TurboClass::Ryzen5
        } else {
            TurboClass::OtherAmd
        }
    } else {
        TurboClass::Other
    }
}

/// The series of the processor with the brand string `brand`.
pub fn turbo_class(brand: &str) -> (r: TurboClass)
    ensures
        r == turbo_class_of(brand@),
{
    let b = to_chars(brand);
    if contains_str(&b, "Intel") {
        if contains_str(&b, "i9") {
            TurboClass::CoreI9
        } else if contains_str(&b, "i7") {
            TurboClass::CoreI7
        } else if contains_str(&b, "i5") {
            if contains_str(&b, "12th") || contains_str(&b, "13th") {
                TurboClass::CoreI5Recent
            } else {
                TurboClass::CoreI5
            }
        } else if contains_str(&b, "i3") {
            TurboClass::CoreI3
        } else {
            TurboClass::OtherIntel
        }
    } else if contains_str(&b, "AMD") {
        if contains_str(&b, "Ryzen 9") {
            TurboClass::Ryzen9
        } else if contains_str(&b, "Ryzen 7") {
            TurboClass::Ryzen7
        } else if contains_str(&b, "Ryzen 5") {
            TurboClass::Ryzen5
        } else {
            TurboClass::OtherAmd
        }
    } else {
        TurboClass::Other
    }
}

/// What the vendor and the family and model of a processor tell of its
/// boost clock, where nothing else did.
#[derive(Clone, Copy, PartialEq, Eq, Structural)]
pub enum VendorBoost {
    /// Intel, family 6 or later, model 0x5E (Skylake) or later.
    IntelRecent,
    /// Intel, family 6 or later, an earlier model.
    IntelModern,
    /// Intel before family 6.
    IntelEarly,
    /// Intel, family and model unknown.
    IntelUnknown,
    Amd,
    Other,
}

/// The class for a vendor string and, where known, the family and model.
pub open spec fn vendor_boost_of(vendor: Seq<char>, family_model: Option<(u8, u8)>) -> VendorBoost {
    if contains(vendor, "Intel"@) {
        match family_model {
            Some((family, model)) => if family >= 6 {
                if model >= 0x5E {
                    VendorBoost::IntelRecent
                } else {
                    VendorBoost::IntelModern
                }
            } else {
                VendorBoost::IntelEarly
            },
            None => VendorBoost::IntelUnknown,
        }
    } else if contains(vendor, "AMD"@) {
        VendorBoost::Amd
    } else {
        VendorBoost::Other
    }
}

/// The boost class of a processor from its vendor string and, where CPUID
/// gives them, its family and model.
pub fn vendor_boost(vendor: &str, family_model: Option<(u8, u8)>) -> (r: VendorBoost)
    ensures
        r == vendor_boost_of(vendor@, family_model),
{
    let v = to_chars(vendor);
    if contains_str(&v, "Intel") {
        match family_model {
            Some((family, model)) => if family >= 6 {
                if model >= 0x5E {
                    VendorBoost::IntelRecent
                } else {
                    VendorBoost::IntelModern
                }
            } else {
                VendorBoost::IntelEarly
            },
            None => VendorBoost::IntelUnknown,
        }
    } else if contains_str(&v, "AMD") {
        VendorBoost::Amd
    } else {
        VendorBoost::Other
    }
}

/// The least time between two readings of the memory, in nanoseconds.
pub const MEMORY_UPDATE_NS: u64 = 100_000;

/// Whether the memory is read again: a tenth of a millisecond or more
/// after the last reading (times in nanoseconds; a clock that went back
/// counts as no time passed).
pub fn memory_update_due(last_ns: u64, now_ns: u64) -> (r: bool)
    ensures
        r == (now_ns >= last_ns && now_ns - last_ns >= MEMORY_UPDATE_NS),
{
    now_ns >= last_ns && now_ns - last_ns >= MEMORY_UPDATE_NS
}

} // verus!
