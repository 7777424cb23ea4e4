//! Network ports: the tables that `netstat -ano` and `ss -tunap` print, the processes that
//! own the ports, and the cache that the user interface reads from.
use vstd::prelude::*;
use crate::command::{
    args2, command_line, command_view, CommandLine, CommandLineView, CommandOutcome, OutcomeView,
};
use crate::kill::{first_csv_field, first_field, FieldCut, FieldCutView};
use crate::text::{
    chars_eq, concat2, first_index, find_char, find_from, find_text, slice_chars,
    contains, contains_str, eq_str, from_chars, push_str, split_lines, utf8_lossy,
    utf8_lossy_decoding, split_words, to_chars, trim, trim_chars, utf8_decode, views, words,
    lines,
};

verus! {

/// A network connection or listening socket.
pub struct Port {
    /// The protocol (TCP, UDP).
    pub protocol: String,
    /// The local address (IP:port).
    pub local_addr: String,
    /// The remote address (IP:port).
    pub foreign_addr: String,
    /// The connection state; empty for UDP.
    pub state: String,
    /// The identifier of the owning process.
    pub pid: String,
    /// The name of the owning process.
    pub name: String,
    /// The path of the owning process's executable.
    pub path: String,
}

impl Clone for Port {
    fn clone(&self) -> (r: Self)
        ensures
            r == *self,
    {
        Port {
            protocol: self.protocol.clone(),
            local_addr: self.local_addr.clone(),
            foreign_addr: self.foreign_addr.clone(),
            state: self.state.clone(),
            pid: self.pid.clone(),
            name: self.name.clone(),
            path: self.path.clone(),
        }
    }
}

/// The fields of a port as text.
pub ghost struct PortView {
    pub protocol: Seq<char>,
    pub local_addr: Seq<char>,
    pub foreign_addr: Seq<char>,
    pub state: Seq<char>,
    pub pid: Seq<char>,
    pub name: Seq<char>,
    pub path: Seq<char>,
}

impl View for Port {
    type V = PortView;

    open spec fn view(&self) -> PortView {
        PortView {
            protocol: self.protocol@,
            local_addr: self.local_addr@,
            foreign_addr: self.foreign_addr@,
            state: self.state@,
            pid: self.pid@,
            name: self.name@,
            path: self.path@,
        }
    }
}

/// The views of a sequence of ports.
pub open spec fn port_views(ps: Seq<Port>) -> Seq<PortView> {
    ps.map_values(|p: Port| p@)
}

/// Copies a list of ports.
pub fn clone_ports(ps: &Vec<Port>) -> (r: Vec<Port>)
    ensures
        r@ == ps@,
{
    let mut r: Vec<Port> = Vec::new();
    let mut i: usize = 0;
    while i < ps.len()
        invariant
            i <= ps.len(),
            r@ == ps@.take(i as int),
        decreases ps.len() - i,
    {
        r.push(ps[i].clone());
        assert(ps@.take(i + 1) =~= ps@.take(i as int).push(ps@[i as int]));
        i = i + 1;
    }
    assert(ps@.take(ps@.len() as int) =~= ps@);
    r
}

/// The last known list of ports, which the user interface reads.
pub struct PortsCache {
    ports: Vec<Port>,
}

impl View for PortsCache {
    type V = Seq<Port>;

    closed spec fn view(&self) -> Seq<Port> {
        self.ports@
    }
}

impl PortsCache {
    /// An empty cache.
    pub fn new() -> (r: PortsCache)
        ensures
            r@ == Seq::<Port>::empty(),
    {
        PortsCache { ports: Vec::new() }
    }

    /// The ports in the cache.
    pub fn ports(&self) -> (r: Vec<Port>)
        ensures
            r@ == self@,
    {
        clone_ports(&self.ports)
    }

    /// The number of ports in the cache.
    pub fn len(&self) -> (r: usize)
        ensures
            r == self@.len(),
    {
        self.ports.len()
    }

    /// Replaces the ports in the cache.
    pub fn replace(&mut self, ports: Vec<Port>)
        ensures
            final(self)@ == ports@,
    {
        self.ports = ports;
    }
}

/// What is known of a process from the system's tools: its name and the
/// path of its executable, each where a tool reported it.
pub struct ProcessLookup {
    pub name: Option<String>,
    pub path: Option<String>,
}

/// A remembered process: its identifier, name and executable path.
pub struct CachedProcess {
    pub pid: String,
    pub name: String,
    pub path: String,
}

/// Process names and paths by process identifier.
pub struct ProcessInfoCache {
    entries: Vec<CachedProcess>,
}

/// The map that a list of entries describes, later entries first.
pub open spec fn entries_map(es: Seq<CachedProcess>) -> Map<Seq<char>, (Seq<char>, Seq<char>)>
    decreases es.len(),
{
    if es.len() == 0 {
        Map::empty()
    } else {
        entries_map(es.drop_last()).insert(es.last().pid@, (es.last().name@, es.last().path@))
    }
}

/// No identifier occurs twice.
pub open spec fn unique_pids(es: Seq<CachedProcess>) -> bool {
    forall|i: int, j: int| 0 <= i < j < es.len() ==> es[i].pid@ != es[j].pid@
}

proof fn lemma_entries_domain(es: Seq<CachedProcess>, k: Seq<char>)
    ensures
        entries_map(es).contains_key(k) <==> exists|j: int| 0 <= j < es.len() && es[j].pid@ == k,
    decreases es.len(),
{
    if es.len() > 0 {
        lemma_entries_domain(es.drop_last(), k);
        if exists|j: int| 0 <= j < es.drop_last().len() && es.drop_last()[j].pid@ == k {
            let j = choose|j: int| 0 <= j < es.drop_last().len() && es.drop_last()[j].pid@ == k;
            assert(es[j].pid@ == k);
        }
        if exists|j: int| 0 <= j < es.len() && es[j].pid@ == k {
            let j = choose|j: int| 0 <= j < es.len() && es[j].pid@ == k;
            if j < es.len() - 1 {
                assert(es.drop_last()[j].pid@ == k);
            }
        }
    }
}

proof fn lemma_entries_value(es: Seq<CachedProcess>, j: int)
    requires
        unique_pids(es),
        0 <= j < es.len(),
    ensures
        entries_map(es).contains_key(es[j].pid@),
        entries_map(es)[es[j].pid@] == (es[j].name@, es[j].path@),
    decreases es.len(),
{
    if j < es.len() - 1 {
        let d = es.drop_last();
        assert(d[j] == es[j]);
        lemma_entries_value(d, j);
        assert(es.last().pid@ != es[j].pid@);
    }
}

proof fn lemma_entries_update(es: Seq<CachedProcess>, j: int, e: CachedProcess)
    requires
        unique_pids(es),
        0 <= j < es.len(),
        es[j].pid@ == e.pid@,
    ensures
        entries_map(es.update(j, e)) == entries_map(es).insert(e.pid@, (e.name@, e.path@)),
    decreases es.len(),
{
    let u = es.update(j, e);
    if j == es.len() - 1 {
        assert(u.drop_last() =~= es.drop_last());
        lemma_entries_domain(es.drop_last(), e.pid@);
        assert(entries_map(u) =~= entries_map(es).insert(e.pid@, (e.name@, e.path@)));
    } else {
        assert(u.drop_last() =~= es.drop_last().update(j, e));
        lemma_entries_update(es.drop_last(), j, e);
        assert(es.last().pid@ != e.pid@);
        assert(entries_map(u) =~= entries_map(es).insert(e.pid@, (e.name@, e.path@)));
    }
}

impl View for ProcessInfoCache {
    type V = Map<Seq<char>, (Seq<char>, Seq<char>)>;

    closed spec fn view(&self) -> Map<Seq<char>, (Seq<char>, Seq<char>)> {
        entries_map(self.entries@)
    }
}

impl ProcessInfoCache {
    /// The cache holds each identifier once.
    pub closed spec fn wf(&self) -> bool {
        unique_pids(self.entries@)
    }

    /// An empty cache.
    pub fn new() -> (r: ProcessInfoCache)
        ensures
            r@ == Map::<Seq<char>, (Seq<char>, Seq<char>)>::empty(),
            r.wf(),
    {
        ProcessInfoCache { entries: Vec::new() }
    }

    /// Forgets every process.
    pub fn clear(&mut self)
        ensures
            final(self)@ == Map::<Seq<char>, (Seq<char>, Seq<char>)>::empty(),
            final(self).wf(),
    {
        self.entries = Vec::new();
    }

    fn position(&self, pid: &str) -> (r: Option<usize>)
        requires
            self.wf(),
        ensures
            match r {
                Some(j) => j < self.entries@.len() && self.entries@[j as int].pid@ == pid@,
                None => forall|j: int|
                    0 <= j < self.entries@.len() ==> self.entries@[j].pid@ != pid@,
            },
    {
        let key = String::from_str(pid);
        let mut j: usize = 0;
        while j < self.entries.len()
            invariant
                j <= self.entries@.len(),
                key@ == pid@,
                forall|k: int| 0 <= k < j ==> self.entries@[k].pid@ != pid@,
            decreases self.entries.len() - j,
        {
            if self.entries[j].pid == key {
                return Some(j);
            }
            j = j + 1;
        }
        None
    }

    /// The name and path remembered for `pid`.
    pub fn get(&self, pid: &str) -> (r: Option<(String, String)>)
        requires
            self.wf(),
        ensures
            match r {
                Some(v) => self@.contains_key(pid@) && self@[pid@] == (v.0@, v.1@),
                None => !self@.contains_key(pid@),
            },
    {
        proof {
            lemma_entries_domain(self.entries@, pid@);
        }
        match self.position(pid) {
            Some(j) => {
                proof {
                    lemma_entries_value(self.entries@, j as int);
                }
                Some((self.entries[j].name.clone(), self.entries[j].path.clone()))
            },
            None => None,
        }
    }

    /// Remembers `name` and `path` for `pid`.
    pub fn insert(&mut self, pid: &str, name: String, path: String)
        requires
            old(self).wf(),
        ensures
            final(self).wf(),
            final(self)@ == old(self)@.insert(pid@, (name@, path@)),
    {
        let e = CachedProcess { pid: String::from_str(pid), name, path };
        match self.position(pid) {
            Some(j) => {
                proof {
                    lemma_entries_update(self.entries@, j as int, e);
                }
                self.entries.set(j, e);
                assert(unique_pids(self.entries@)) by {
                    assert forall|a: int, b: int| 0 <= a < b < self.entries@.len() implies self.entries@[a].pid@
                        != self.entries@[b].pid@ by {
                        if a != j && b != j {
                            assert(self.entries@[a] == old(self).entries@[a]);
                            assert(self.entries@[b] == old(self).entries@[b]);
                        } else if a == j {
                            assert(self.entries@[b] == old(self).entries@[b]);
                        } else {
                            assert(self.entries@[a] == old(self).entries@[a]);
                        }
                    }
                }
            },
            None => {
                self.entries.push(e);
                assert(self.entries@.drop_last() =~= old(self).entries@);
                assert(unique_pids(self.entries@)) by {
                    assert forall|a: int, b: int| 0 <= a < b < self.entries@.len() implies self.entries@[a].pid@
                        != self.entries@[b].pid@ by {
                        if b < self.entries@.len() - 1 {
                            assert(self.entries@[a] == old(self).entries@[a]);
                            assert(self.entries@[b] == old(self).entries@[b]);
                        } else {
                            assert(self.entries@[a] == old(self).entries@[a]);
                        }
                    }
                }
            },
        }
    }
}

// ---------------------------------------------------------------------------
// The netstat table
// ---------------------------------------------------------------------------

/// The characters that `encoding_rs::WINDOWS_1251.decode` makes of `bytes`.
pub uninterp spec fn windows_1251_decoding(bytes: Seq<u8>) -> Seq<char>;

/// `encoding_rs::Encoding::decode` on windows-1251, with its BOM sniffing
/// and with malformed sequences replaced by U+FFFD. It panics only when the
/// size of its output buffer overflows `usize`, which the bound excludes.
/// This is the encoding that `Encoding::for_label` gives for the label
/// "windows-1251".
#[verifier::external_body]
fn decode_windows_1251(bytes: &[u8]) -> (r: String)
    requires
        bytes@.len() <= usize::MAX / 4,
    ensures
        r@ == windows_1251_decoding(bytes@),
{
    let (text, _, _) = encoding_rs::WINDOWS_1251.decode(bytes);
    text.into_owned()
}

/// The text of netstat's output: UTF-8 where the bytes are valid UTF-8,
/// windows-1251 otherwise.
pub open spec fn netstat_text(bytes: Seq<u8>) -> Seq<char> {
    if vstd::utf8::valid_utf8(bytes) {
        vstd::utf8::decode_utf8(bytes)
    } else {
        windows_1251_decoding(bytes)
    }
}

/// Decodes netstat's output.
pub fn decode_netstat_output(bytes: &[u8]) -> (r: String)
    requires
        bytes@.len() <= usize::MAX / 4,
    ensures
        r@ == netstat_text(bytes@),
{
    match utf8_decode(bytes) {
        Some(s) => s,
        None => decode_windows_1251(bytes),
    }
}

/// The most table lines that are read after the header.
pub const MAX_TABLE_LINES: usize = 5000;

/// One row of the table.
pub ghost struct PortRow {
    pub protocol: Seq<char>,
    pub local_addr: Seq<char>,
    pub foreign_addr: Seq<char>,
    pub state: Seq<char>,
    pub pid: Seq<char>,
}

/// The line with the column titles.
pub open spec fn is_table_header(l: Seq<char>) -> bool {
    contains(l, "PID"@) && (contains(l, "Proto"@) || contains(l, "Протокол"@) || contains(
        l,
        "TCP"@,
    ) || contains(l, "UDP"@))
}

/// The index of the first header line, or -1.
pub open spec fn first_header(ls: Seq<Seq<char>>) -> int
    decreases ls.len(),
{
    if ls.len() == 0 {
        -1
    } else if is_table_header(ls[0]) {
        0
    } else {
        let r = first_header(ls.drop_first());
        if r < 0 {
            -1
        } else {
            r + 1
        }
    }
}

/// The lines of the table that are read: those after the header (after
/// the first line when there is none), at most five thousand.
pub open spec fn table_body(ls: Seq<Seq<char>>) -> Seq<Seq<char>> {
    let h = if first_header(ls) >= 0 {
        first_header(ls)
    } else {
        0
    };
    let b = if h + 1 <= ls.len() {
        ls.skip(h + 1)
    } else {
        seq![]
    };
    if b.len() > MAX_TABLE_LINES {
        b.take(MAX_TABLE_LINES as int)
    } else {
        b
    }
}

/// The row that a table line holds: a TCP line has protocol, local and
/// remote address, state and process; a UDP line has no state.
pub open spec fn netstat_row(line: Seq<char>) -> Option<PortRow> {
    let parts = words(trim(line));
    if trim(line).len() == 0 || parts.len() < 4 {
        None
    } else {
        let proto = parts[0];
        if proto != "TCP"@ && proto != "UDP"@ {
            None
        } else if proto == "TCP"@ && parts.len() < 5 {
            None
        } else {
            Some(
                PortRow {
                    protocol: proto,
                    local_addr: parts[1],
                    foreign_addr: parts[2],
                    state: if proto == "TCP"@ {
                        parts[3]
                    } else {
                        seq![]
                    },
                    pid: if proto == "TCP"@ {
                        parts[4]
                    } else {
                        parts[3]
                    },
                },
            )
        }
    }
}

/// The rows of the lines `ls`, in order.
pub open spec fn netstat_rows(ls: Seq<Seq<char>>) -> Seq<PortRow>
    decreases ls.len(),
{
    if ls.len() == 0 {
        seq![]
    } else {
        netstat_rows(ls.drop_last()) + match netstat_row(ls.last()) {
            Some(r) => seq![r],
            None => seq![],
        }
    }
}

/// The rows of netstat's output.
pub open spec fn parse_netstat(text: Seq<char>) -> Seq<PortRow> {
    netstat_rows(table_body(lines(text)))
}

/// One row of the table.
pub struct NetstatEntry {
    pub protocol: String,
    pub local_addr: String,
    pub foreign_addr: String,
    pub state: String,
    pub pid: String,
}

impl View for NetstatEntry {
    type V = PortRow;

    open spec fn view(&self) -> PortRow {
        PortRow {
            protocol: self.protocol@,
            local_addr: self.local_addr@,
            foreign_addr: self.foreign_addr@,
            state: self.state@,
            pid: self.pid@,
        }
    }
}

/// The views of a sequence of rows.
pub open spec fn entry_views(es: Seq<NetstatEntry>) -> Seq<PortRow> {
    es.map_values(|e: NetstatEntry| e@)
}

fn find_header(ls: &Vec<Vec<char>>) -> (r: Option<usize>)
    ensures
        match r {
            Some(h) => h < ls.len() && h == first_header(views(ls@)),
            None => first_header(views(ls@)) < 0,
        },
{
    let ghost v = views(ls@);
    let mut i: usize = 0;
    assert(v.skip(0) =~= v);
    while i < ls.len()
        invariant
            i <= ls.len(),
            v == views(ls@),
            first_header(v) == (if first_header(v.skip(i as int)) < 0 {
                -1
            } else {
                first_header(v.skip(i as int)) + i
            }),
        decreases ls.len() - i,
    {
        let l = &ls[i];
        proof {
            assert(v.skip(i as int)[0] == l@);
            assert(v.skip(i as int).drop_first() =~= v.skip(i + 1));
        }
        let hit = contains_str(l, "PID") && (contains_str(l, "Proto") || contains_str(
            l,
            "Протокол",
        ) || contains_str(l, "TCP") || contains_str(l, "UDP"));
        if hit {
            return Some(i);
        }
        i = i + 1;
    }
    assert(v.skip(i as int) =~= Seq::<Seq<char>>::empty());
    None
}

/// The row that a table line holds, if any.
pub fn parse_netstat_line(line: &[char]) -> (r: Option<NetstatEntry>)
    ensures
        match r {
            Some(e) => netstat_row(line@) == Some(e@),
            None => netstat_row(line@) is None,
        },
{
    let t = trim_chars(line);
    if t.len() == 0 {
        return None;
    }
    let parts = split_words(&t);
    if parts.len() < 4 {
        return None;
    }
    assert(views(parts@)[0] == parts@[0]@);
    assert(views(parts@)[1] == parts@[1]@);
    assert(views(parts@)[2] == parts@[2]@);
    assert(views(parts@)[3] == parts@[3]@);
    let is_tcp = eq_str(&parts[0], "TCP");
    let is_udp = eq_str(&parts[0], "UDP");
    if !is_tcp && !is_udp {
        return None;
    }
    if is_tcp && parts.len() < 5 {
        return None;
    }
    let (state, pid) = if is_tcp {
        assert(views(parts@)[4] == parts@[4]@);
        (from_chars(&parts[3]), from_chars(&parts[4]))
    } else {
        (String::new(), from_chars(&parts[3]))
    };
    Some(
        NetstatEntry {
            protocol: from_chars(&parts[0]),
            local_addr: from_chars(&parts[1]),
            foreign_addr: from_chars(&parts[2]),
            state,
            pid,
        },
    )
}

/// The rows of netstat's output.
pub fn parse_netstat_table(text: &str) -> (r: Vec<NetstatEntry>)
    ensures
        entry_views(r@) == parse_netstat(text@),
{
    let chars = to_chars(text);
    let ls = split_lines(&chars);
    let ghost lv = views(ls@);
    let h: usize = match find_header(&ls) {
        Some(h) => h,
        None => 0,
    };
    let mut end = if h + 1 <= ls.len() {
        ls.len()
    } else {
        h + 1
    };
    if end - (h + 1) > MAX_TABLE_LINES {
        end = h + 1 + MAX_TABLE_LINES;
    }
    let ghost body = table_body(lv);
    proof {
        if h + 1 <= ls.len() {
            assert(body =~= lv.subrange(h + 1, end as int));
        } else {
            assert(body =~= seq![]);
        }
    }
    let mut rows: Vec<NetstatEntry> = Vec::new();
    let mut i = h + 1;
    while i < end
        invariant
            h + 1 <= i <= end,
            end <= ls.len() || i == end,
            lv == views(ls@),
            body == lv.subrange(h + 1, end as int) || (body == Seq::<Seq<char>>::empty() && i
                == end),
            entry_views(rows@) == netstat_rows(body.take(i - h - 1)),
        decreases end - i,
    {
        let ghost before = rows@;
        proof {
            assert(body.take(i - h) .drop_last() =~= body.take(i - h - 1));
            assert(body.take(i - h).last() == ls@[i as int]@);
        }
        match parse_netstat_line(&ls[i]) {
            Some(e) => {
                rows.push(e);
                assert(entry_views(rows@) =~= entry_views(before).push(e@));
            },
            None => {},
        }
        i = i + 1;
    }
    proof {
        if body.len() > 0 {
            assert(body.take(i - h - 1) =~= body);
        } else {
            assert(body.take(i - h - 1) =~= body);
        }
    }
    rows
}

// ---------------------------------------------------------------------------
// Process names
// ---------------------------------------------------------------------------

/// What a lookup reported: the name and the path, where known.
pub open spec fn lookup_view(l: ProcessLookup) -> (Option<Seq<char>>, Option<Seq<char>>) {
    (
        match l.name {
            Some(n) => Some(n@),
            None => None,
        },
        match l.path {
            Some(p) => Some(p@),
            None => None,
        },
    )
}

/// The name and path of a process after a lookup: "Unknown" where no name
/// was reported, "PID:<pid>" where the reported name is empty, and an empty
/// path where none was reported.
pub open spec fn finish_lookup(pid: Seq<char>, l: (Option<Seq<char>>, Option<Seq<char>>)) -> (
    Seq<char>,
    Seq<char>,
) {
    let name = match l.0 {
        Some(n) => n,
        None => "Unknown"@,
    };
    let path = match l.1 {
        Some(p) => p,
        None => seq![],
    };
    (
        if name.len() == 0 {
            "PID:"@ + pid
        } else {
            name
        },
        path,
    )
}

/// The identifiers of the idle and the kernel process.
pub open spec fn is_system_pid(pid: Seq<char>) -> bool {
    pid == "0"@ || pid == "4"@
}

/// Whether `pid` is the idle ("0") or the kernel ("4") process.
pub fn system_pid(pid: &str) -> (r: bool)
    ensures
        r == is_system_pid(pid@),
{
    let c = to_chars(pid);
    eq_str(&c, "0") || eq_str(&c, "4")
}

/// What a name lookup does with the cache: a remembered answer is given
/// back and the cache kept; otherwise the answer is remembered.
pub open spec fn remembers(
    before: Map<Seq<char>, (Seq<char>, Seq<char>)>,
    pid: Seq<char>,
    answer: (Seq<char>, Seq<char>),
    after: Map<Seq<char>, (Seq<char>, Seq<char>)>,
) -> bool {
    &&& before.contains_key(pid) ==> answer == before[pid] && after == before
    &&& !before.contains_key(pid) ==> after == before.insert(pid, answer)
}

/// Asking twice for the same process: the second answer is the first, it
/// comes from the cache, and the cache stays as the first call left it.
pub proof fn lemma_name_remembered(
    c0: Map<Seq<char>, (Seq<char>, Seq<char>)>,
    pid: Seq<char>,
    a1: (Seq<char>, Seq<char>),
    c1: Map<Seq<char>, (Seq<char>, Seq<char>)>,
    a2: (Seq<char>, Seq<char>),
    c2: Map<Seq<char>, (Seq<char>, Seq<char>)>,
)
    requires
        remembers(c0, pid, a1, c1),
        remembers(c1, pid, a2, c2),
    ensures
        c1.contains_key(pid),
        c1[pid] == a1,
        a2 == a1,
        c2 == c1,
{
}

/// The name and path of process `pid`: from the cache when it is there;
/// otherwise "System Idle Process" for the system identifiers, or what
/// `lookup` reports; the answer is remembered. `lookup` is needed (and can
/// be called) only for an identifier that is neither remembered nor a
/// system one.
pub fn get_process_name<F: Fn(&str) -> ProcessLookup>(
    pid: &str,
    process_cache: &mut ProcessInfoCache,
    lookup: &F,
) -> (r: (String, String))
    requires
        old(process_cache).wf(),
        !old(process_cache)@.contains_key(pid@) && !is_system_pid(pid@) ==> call_requires(
            *lookup,
            (pid,),
        ),
    ensures
        final(process_cache).wf(),
        remembers(old(process_cache)@, pid@, (r.0@, r.1@), final(process_cache)@),
        !old(process_cache)@.contains_key(pid@) && is_system_pid(pid@) ==> (r.0@, r.1@) == (
            "System Idle Process"@,
            "Windows System"@,
        ),
        !old(process_cache)@.contains_key(pid@) && !is_system_pid(pid@) ==> exists|l: ProcessLookup|
            call_ensures(*lookup, (pid,), l) && (r.0@, r.1@) == finish_lookup(pid@, lookup_view(l)),
{
    match process_cache.get(pid) {
        Some(v) => {
            return v;
        },
        None => {},
    }
    if system_pid(pid) {
        let name = String::from_str("System Idle Process");
        let path = String::from_str("Windows System");
        process_cache.insert(pid, name.clone(), path.clone());
        return (name, path);
    }
    let l = lookup(pid);
    let ghost lv = lookup_view(l);
    let name0 = match l.name {
        Some(n) => n,
        None => String::from_str("Unknown"),
    };
    let path = match l.path {
        Some(p) => p,
        None => String::new(),
    };
    let name = if name0.as_str().is_empty() {
        let mut v = to_chars("PID:");
        push_str(&mut v, pid);
        from_chars(&v)
    } else {
        name0
    };
    assert((name@, path@) == finish_lookup(pid@, lv));
    process_cache.insert(pid, name.clone(), path.clone());
    (name, path)
}

/// The owner of a port: the kernel for the system identifiers, otherwise
/// the process that the cache names.
pub open spec fn port_owner(pid: Seq<char>, cache: Map<Seq<char>, (Seq<char>, Seq<char>)>) -> (
    Seq<char>,
    Seq<char>,
) {
    if is_system_pid(pid) {
        ("System"@, "Windows System"@)
    } else {
        cache[pid]
    }
}

/// `ports` are the rows `rows`, each with its owner from `cache`.
pub open spec fn ports_match(
    ports: Seq<PortView>,
    rows: Seq<PortRow>,
    cache: Map<Seq<char>, (Seq<char>, Seq<char>)>,
) -> bool {
    &&& ports.len() == rows.len()
    &&& forall|i: int|
        0 <= i < rows.len() ==> {
            &&& (#[trigger] ports[i]).protocol == rows[i].protocol
            &&& ports[i].local_addr == rows[i].local_addr
            &&& ports[i].foreign_addr == rows[i].foreign_addr
            &&& ports[i].state == rows[i].state
            &&& ports[i].pid == rows[i].pid
            &&& (!is_system_pid(rows[i].pid) ==> cache.contains_key(rows[i].pid))
            &&& (ports[i].name, ports[i].path) == port_owner(rows[i].pid, cache)
        }
}

/// The cache `new` keeps every entry of `old`, and each entry it adds is
/// the owner of one of `rows`, as `lookup` reported it.
pub open spec fn cache_extends<F: Fn(&str) -> ProcessLookup>(
    old: Map<Seq<char>, (Seq<char>, Seq<char>)>,
    new: Map<Seq<char>, (Seq<char>, Seq<char>)>,
    rows: Seq<PortRow>,
    lookup: F,
) -> bool {
    &&& forall|k: Seq<char>| #[trigger]
        old.contains_key(k) ==> new.contains_key(k) && new[k] == old[k]
    &&& forall|k: Seq<char>| #[trigger]
        new.contains_key(k) && !old.contains_key(k) ==> {
            &&& exists|i: int| 0 <= i < rows.len() && #[trigger] rows[i].pid == k
            &&& !is_system_pid(k)
            &&& exists|p: &str, l: ProcessLookup|
                p@ == k && call_ensures(lookup, (p,), l) && new[k] == finish_lookup(
                    k,
                    lookup_view(l),
                )
        }
}

/// What a listing of the ports gives for the rows `rows`: `ports` are the
/// rows with their owners named from the cache `new`, which keeps all of
/// `old` and adds what `lookup` reported for the other processes.
pub open spec fn lists_ports<F: Fn(&str) -> ProcessLookup>(
    rows: Seq<PortRow>,
    old: Map<Seq<char>, (Seq<char>, Seq<char>)>,
    new: Map<Seq<char>, (Seq<char>, Seq<char>)>,
    ports: Seq<PortView>,
    lookup: F,
) -> bool {
    ports_match(ports, rows, new) && cache_extends(old, new, rows, lookup)
}

/// Whether `lookup` reports the same for the same process identifier.
pub open spec fn lookup_deterministic<F: Fn(&str) -> ProcessLookup>(lookup: F) -> bool {
    forall|p1: &str, p2: &str, l1: ProcessLookup, l2: ProcessLookup|
        p1@ == p2@ && #[trigger] call_ensures(lookup, (p1,), l1) && #[trigger] call_ensures(
            lookup,
            (p2,),
            l2,
        ) ==> lookup_view(l1) == lookup_view(l2)
}

/// Where the lookup of processes reports the same for the same
/// identifier, a listing of the same rows from the same cache has one
/// outcome: the ports and the cache after it are fixed. So the ports that
/// `get_ports_internal` gives for a listing are those that
/// `get_windows_ports` (on Windows) or `get_unix_ports` (elsewhere) give
/// for it, and so is the cache that it leaves.
pub proof fn lemma_listing_determined<F: Fn(&str) -> ProcessLookup>(
    rows: Seq<PortRow>,
    old: Map<Seq<char>, (Seq<char>, Seq<char>)>,
    new1: Map<Seq<char>, (Seq<char>, Seq<char>)>,
    ports1: Seq<PortView>,
    new2: Map<Seq<char>, (Seq<char>, Seq<char>)>,
    ports2: Seq<PortView>,
    lookup: F,
)
    requires
        lookup_deterministic(lookup),
        lists_ports(rows, old, new1, ports1, lookup),
        lists_ports(rows, old, new2, ports2, lookup),
    ensures
        new1 == new2,
        ports1 == ports2,
{
    assert forall|k: Seq<char>| #[trigger] new1.contains_key(k) implies new2.contains_key(k) by {
        if !old.contains_key(k) {
            let i = choose|i: int| 0 <= i < rows.len() && #[trigger] rows[i].pid == k;
            assert(ports2[i].pid == rows[i].pid);
        }
    }
    assert forall|k: Seq<char>| #[trigger] new2.contains_key(k) implies new1.contains_key(k) by {
        if !old.contains_key(k) {
            let i = choose|i: int| 0 <= i < rows.len() && #[trigger] rows[i].pid == k;
            assert(ports1[i].pid == rows[i].pid);
        }
    }
    assert forall|k: Seq<char>| #[trigger] new1.contains_key(k) implies new1[k] == new2[k] by {
        if !old.contains_key(k) {
            assert(new2.contains_key(k));
            let (q1, l1) = choose|p: &str, l: ProcessLookup|
                p@ == k && call_ensures(lookup, (p,), l) && new1[k] == finish_lookup(
                    k,
                    lookup_view(l),
                );
            let (q2, l2) = choose|p: &str, l: ProcessLookup|
                p@ == k && call_ensures(lookup, (p,), l) && new2[k] == finish_lookup(
                    k,
                    lookup_view(l),
                );
            assert(lookup_view(l1) == lookup_view(l2));
        }
    }
    assert(new1 =~= new2);
    assert forall|i: int| 0 <= i < ports1.len() implies ports1[i] == ports2[i] by {
        assert(ports1[i].pid == rows[i].pid);
        assert(ports2[i].pid == rows[i].pid);
    }
    assert(ports1 =~= ports2);
}

/// The ports of the rows `rows`, in order, with each process named from
/// the cache or, where it is not there yet, by `lookup`.
pub fn ports_from_rows<F: Fn(&str) -> ProcessLookup>(
    rows: &Vec<NetstatEntry>,
    process_cache: &mut ProcessInfoCache,
    lookup: &F,
) -> (r: Vec<Port>)
    requires
        old(process_cache).wf(),
        forall|p: &str| call_requires(*lookup, (p,)),
    ensures
        final(process_cache).wf(),
        ports_match(port_views(r@), entry_views(rows@), final(process_cache)@),
        cache_extends(old(process_cache)@, final(process_cache)@, entry_views(rows@), *lookup),
{
    let ghost rv = entry_views(rows@);
    let mut ports: Vec<Port> = Vec::new();
    let mut i: usize = 0;
    while i < rows.len()
        invariant
            i <= rows.len(),
            rv == entry_views(rows@),
            process_cache.wf(),
            forall|p: &str| call_requires(*lookup, (p,)),
            ports_match(port_views(ports@), rv.take(i as int), process_cache@),
            cache_extends(old(process_cache)@, process_cache@, rv.take(i as int), *lookup),
        decreases rows.len() - i,
    {
        let row = &rows[i];
        let ghost before = process_cache@;
        let ghost before_ports = ports@;
        assert(rv[i as int] == row@);
        let pid_str = row.pid.as_str();
        let (name, path) = if system_pid(pid_str) {
            (String::from_str("System"), String::from_str("Windows System"))
        } else {
            get_process_name(pid_str, process_cache, lookup)
        };
        let port = Port {
            protocol: row.protocol.clone(),
            local_addr: row.local_addr.clone(),
            foreign_addr: row.foreign_addr.clone(),
            state: row.state.clone(),
            pid: row.pid.clone(),
            name,
            path,
        };
        ports.push(port);
        proof {
            let t = rv.take(i + 1);
            assert(t.drop_last() =~= rv.take(i as int));
            assert forall|k: Seq<char>| #[trigger] before.contains_key(k) implies process_cache@.contains_key(k)
                && process_cache@[k] == before[k] by {
                if k != row.pid@ {
                } else {
                }
            }
            assert(port_views(ports@) =~= port_views(before_ports).push(port@));
            assert forall|j: int| 0 <= j < t.len() implies {
                &&& (#[trigger] port_views(ports@)[j]).protocol == t[j].protocol
                &&& port_views(ports@)[j].local_addr == t[j].local_addr
                &&& port_views(ports@)[j].foreign_addr == t[j].foreign_addr
                &&& port_views(ports@)[j].state == t[j].state
                &&& port_views(ports@)[j].pid == t[j].pid
                &&& (!is_system_pid(t[j].pid) ==> process_cache@.contains_key(t[j].pid))
                &&& (port_views(ports@)[j].name, port_views(ports@)[j].path) == port_owner(
                    t[j].pid,
                    process_cache@,
                )
            } by {
                if j < i {
                    assert(port_views(ports@)[j] == port_views(before_ports)[j]);
                    assert(t[j] == rv.take(i as int)[j]);
                    if !is_system_pid(t[j].pid) {
                        assert(before.contains_key(t[j].pid));
                    }
                } else {
                    assert(t[j] == row@);
                }
            }
            assert forall|k: Seq<char>| #[trigger]
                process_cache@.contains_key(k) && !old(process_cache)@.contains_key(k) implies {
                &&& exists|m: int| 0 <= m < t.len() && #[trigger] t[m].pid == k
                &&& !is_system_pid(k)
                &&& exists|p: &str, l: ProcessLookup|
                    p@ == k && call_ensures(*lookup, (p,), l) && process_cache@[k] == finish_lookup(
                        k,
                        lookup_view(l),
                    )
            } by {
                if before.contains_key(k) {
                    let m = choose|m: int| 0 <= m < rv.take(i as int).len() && #[trigger] rv.take(i as int)[m].pid == k;
                    assert(t[m] == rv.take(i as int)[m]);
                } else {
                    assert(k == row@.pid);
                    assert(t[i as int].pid == k);
                    assert(pid_str@ == k);
                }
            }
        }
        i = i + 1;
    }
    assert(rv.take(rows.len() as int) =~= rv);
    ports
}


/// The open ports of a Windows host, from the output of `netstat -ano`,
/// with each process named from the cache or, where it is not there yet,
/// by `lookup`.
pub fn get_windows_ports<F: Fn(&str) -> ProcessLookup>(
    netstat_output: &[u8],
    process_cache: &mut ProcessInfoCache,
    lookup: &F,
) -> (r: Vec<Port>)
    requires
        old(process_cache).wf(),
        forall|p: &str| call_requires(*lookup, (p,)),
        netstat_output@.len() <= usize::MAX / 4,
    ensures
        final(process_cache).wf(),
        lists_ports(
            parse_netstat(netstat_text(netstat_output@)),
            old(process_cache)@,
            final(process_cache)@,
            port_views(r@),
            *lookup,
        ),
{
    let text = decode_netstat_output(netstat_output);
    let rows = parse_netstat_table(text.as_str());
    ports_from_rows(&rows, process_cache, lookup)
}

// ---------------------------------------------------------------------------
// The socket table of `ss`
// ---------------------------------------------------------------------------

/// The ASCII digits at the start of `s`.
pub open spec fn digits_prefix(s: Seq<char>) -> Seq<char>
    decreases s.len(),
{
    if s.len() > 0 && '0' <= s[0] && s[0] <= '9' {
        seq![s[0]] + digits_prefix(s.skip(1))
    } else {
        seq![]
    }
}

/// The process of a line of `ss -p`: the number after its first `pid=`,
/// empty where the line names no process.
pub open spec fn ss_pid(line: Seq<char>) -> Seq<char> {
    let i = find_from(line, "pid="@, 0);
    if i < 0 {
        seq![]
    } else {
        digits_prefix(line.skip(i + 4))
    }
}

/// The socket that a line of `ss -tunap` describes: its columns are the
/// kind (`tcp` or `udp`), the state, the two queues, the local and the peer
/// address, and the processes; any other line (the header) holds none.
pub open spec fn ss_row(line: Seq<char>) -> Option<PortRow> {
    let parts = words(line);
    if parts.len() < 6 || (parts[0] != "tcp"@ && parts[0] != "udp"@) {
        None
    } else {
        Some(
            PortRow {
                protocol: if parts[0] == "tcp"@ {
                    "TCP"@
                } else {
                    "UDP"@
                },
                local_addr: parts[4],
                foreign_addr: parts[5],
                state: parts[1],
                pid: ss_pid(line),
            },
        )
    }
}

/// The sockets of the lines `ls`, in order.
pub open spec fn ss_rows(ls: Seq<Seq<char>>) -> Seq<PortRow>
    decreases ls.len(),
{
    if ls.len() == 0 {
        seq![]
    } else {
        ss_rows(ls.drop_last()) + match ss_row(ls.last()) {
            Some(r) => seq![r],
            None => seq![],
        }
    }
}

/// The sockets that the output of `ss -tunap` lists.
pub open spec fn parse_ss(text: Seq<char>) -> Seq<PortRow> {
    ss_rows(lines(text))
}

/// The digits at the start of `v`.
fn digits_prefix_exec(v: &[char]) -> (r: Vec<char>)
    ensures
        r@ == digits_prefix(v@),
{
    let mut k: usize = 0;
    while k < v.len() && '0' <= v[k] && v[k] <= '9'
        invariant
            k <= v.len(),
            forall|m: int| 0 <= m < k ==> '0' <= #[trigger] v@[m] && v@[m] <= '9',
        decreases v.len() - k,
    {
        k = k + 1;
    }
    proof {
        lemma_digits_prefix(v@, k as int);
    }
    slice_chars(v, 0, k)
}

/// The digit prefix of `s` is its first `k` characters, where they are
/// digits and the next is not.
proof fn lemma_digits_prefix(s: Seq<char>, k: int)
    requires
        0 <= k <= s.len(),
        forall|m: int| 0 <= m < k ==> '0' <= #[trigger] s[m] && s[m] <= '9',
        k < s.len() ==> !('0' <= s[k] && s[k] <= '9'),
    ensures
        digits_prefix(s) == s.subrange(0, k),
    decreases k,
{
    if k == 0 {
        assert(s.subrange(0, 0) =~= Seq::<char>::empty());
    } else {
        assert(s.skip(1).len() == s.len() - 1);
        assert forall|m: int| 0 <= m < k - 1 implies '0' <= #[trigger] s.skip(1)[m] && s.skip(1)[m]
            <= '9' by {
            assert(s.skip(1)[m] == s[m + 1]);
        }
        if k - 1 < s.skip(1).len() {
            assert(s.skip(1)[k - 1] == s[k]);
        }
        lemma_digits_prefix(s.skip(1), k - 1);
        assert(seq![s[0]] + s.skip(1).subrange(0, k - 1) =~= s.subrange(0, k));
    }
}

/// The socket that a line of `ss -tunap` describes, if any.
pub fn parse_ss_line(line: &[char]) -> (r: Option<NetstatEntry>)
    ensures
        match r {
            Some(e) => ss_row(line@) == Some(e@),
            None => ss_row(line@) is None,
        },
{
    let parts = split_words(line);
    if parts.len() < 6 {
        return None;
    }
    assert(views(parts@)[0] == parts@[0]@);
    assert(views(parts@)[1] == parts@[1]@);
    assert(views(parts@)[4] == parts@[4]@);
    assert(views(parts@)[5] == parts@[5]@);
    let is_tcp = eq_str(&parts[0], "tcp");
    let is_udp = eq_str(&parts[0], "udp");
    if !is_tcp && !is_udp {
        return None;
    }
    let n = line.len();
    let pid = match find_text(line, "pid=") {
        Some(i) => {
            proof {
                reveal_strlit("pid=");
                assert("pid="@.len() == 4);
                assert(i + 4 <= n);
            }
            let rest = slice_chars(line, i + 4, n);
            assert(rest@ =~= line@.skip(i + 4));
            from_chars(&digits_prefix_exec(&rest))
        },
        None => String::new(),
    };
    Some(
        NetstatEntry {
            protocol: if is_tcp {
                String::from_str("TCP")
            } else {
                String::from_str("UDP")
            },
            local_addr: from_chars(&parts[4]),
            foreign_addr: from_chars(&parts[5]),
            state: from_chars(&parts[1]),
            pid,
        },
    )
}

/// The sockets that the output of `ss -tunap` lists.
pub fn parse_ss_table(text: &str) -> (r: Vec<NetstatEntry>)
    ensures
        entry_views(r@) == parse_ss(text@),
{
    let ls = split_lines(&to_chars(text));
    let ghost lv = views(ls@);
    let mut rows: Vec<NetstatEntry> = Vec::new();
    let mut i: usize = 0;
    while i < ls.len()
        invariant
            i <= ls.len(),
            lv == views(ls@),
            lv == lines(text@),
            entry_views(rows@) == ss_rows(lv.take(i as int)),
        decreases ls.len() - i,
    {
        let ghost before = rows@;
        proof {
            assert(lv.take(i + 1).drop_last() =~= lv.take(i as int));
            assert(lv.take(i + 1).last() == ls@[i as int]@);
        }
        match parse_ss_line(&ls[i]) {
            Some(e) => {
                rows.push(e);
                assert(entry_views(rows@) =~= entry_views(before).push(e@));
            },
            None => {},
        }
        i = i + 1;
    }
    assert(lv.take(ls.len() as int) =~= lv);
    rows
}

/// The open sockets of a host other than Windows, from the output of
/// `ss -tunap` (read as UTF-8, invalid bytes replaced), with each process
/// named from the cache or, where it is not there yet, by `lookup`.
pub fn get_unix_ports<F: Fn(&str) -> ProcessLookup>(
    ss_output: &[u8],
    process_cache: &mut ProcessInfoCache,
    lookup: &F,
) -> (r: Vec<Port>)
    requires
        old(process_cache).wf(),
        forall|p: &str| call_requires(*lookup, (p,)),
    ensures
        final(process_cache).wf(),
        lists_ports(
            parse_ss(utf8_lossy_decoding(ss_output@)),
            old(process_cache)@,
            final(process_cache)@,
            port_views(r@),
            *lookup,
        ),
{
    let text = utf8_lossy(ss_output);
    let rows = parse_ss_table(text.as_str());
    ports_from_rows(&rows, process_cache, lookup)
}

/// The open ports of the host, from the output of the listing command
/// (`listing`, or the message of the failure to run it): `netstat -ano`
/// on Windows, `ss -tunap` elsewhere.
pub fn get_ports_internal<F: Fn(&str) -> ProcessLookup>(
    process_cache: &mut ProcessInfoCache,
    is_windows: bool,
    listing: Result<Vec<u8>, String>,
    lookup: &F,
) -> (r: Result<Vec<Port>, String>)
    requires
        old(process_cache).wf(),
        forall|p: &str| call_requires(*lookup, (p,)),
        is_windows && listing is Ok ==> listing->Ok_0@.len() <= usize::MAX / 4,
    ensures
        final(process_cache).wf(),
        listing is Err ==> (r matches Err(e) && e@ == listing->Err_0@ && final(process_cache)@
            == old(process_cache)@),
        is_windows && listing is Ok ==> (r matches Ok(v) && lists_ports(
            parse_netstat(netstat_text(listing->Ok_0@)),
            old(process_cache)@,
            final(process_cache)@,
            port_views(v@),
            *lookup,
        )),
        !is_windows && listing is Ok ==> (r matches Ok(v) && lists_ports(
            parse_ss(utf8_lossy_decoding(listing->Ok_0@)),
            old(process_cache)@,
            final(process_cache)@,
            port_views(v@),
            *lookup,
        )),
{
    match listing {
        Ok(bytes) => if is_windows {
            Ok(get_windows_ports(&bytes, process_cache, lookup))
        } else {
            Ok(get_unix_ports(&bytes, process_cache, lookup))
        },
        Err(e) => Err(e),
    }
}


// ---------------------------------------------------------------------------
// Running netstat
// ---------------------------------------------------------------------------

/// The ways of running `netstat -ano`, tried in turn.
#[derive(Clone, Copy, PartialEq, Eq, Structural)]
pub enum NetstatStage {
    /// Through `cmd`, with the UTF-8 code page.
    Cmd,
    /// Through PowerShell, with the UTF-8 code page, after `cmd` failed.
    PowerShell,
    /// Directly, after `cmd` could not be started.
    DirectAfterCmd,
    /// Directly, after PowerShell failed.
    DirectAfterPowerShellFailed,
    /// Directly, after PowerShell could not be started.
    DirectAfterPowerShellError,
    /// The output, or the failure, is known.
    Done,
}

/// The running of `netstat -ano`: where it stands and the message of the
/// first start that failed.
pub struct NetstatRun {
    pub stage: NetstatStage,
    pub error: String,
}

/// What the host is to do next for `netstat`.
pub enum NetstatAction {
    /// Run the command and report what came of it.
    Run(CommandLine),
    /// The output of `netstat`, or why there is none.
    Done(Result<Vec<u8>, String>),
}

/// An action for `netstat` as plain values.
pub ghost enum NetstatActionView {
    Run(CommandLineView),
    Done(Result<Seq<u8>, Seq<char>>),
}

impl View for NetstatAction {
    type V = NetstatActionView;

    open spec fn view(&self) -> NetstatActionView {
        match self {
            NetstatAction::Run(c) => NetstatActionView::Run(c@),
            NetstatAction::Done(Ok(b)) => NetstatActionView::Done(Ok(b@)),
            NetstatAction::Done(Err(e)) => NetstatActionView::Done(Err(e@)),
        }
    }
}

/// The command of a stage.
pub open spec fn netstat_command(stage: NetstatStage) -> CommandLineView {
    match stage {
        NetstatStage::Cmd => command_view("cmd"@, seq!["/c"@, "chcp 65001 > nul && netstat -ano"@]),
        NetstatStage::PowerShell => command_view(
            "powershell"@,
            seq!["-Command"@, "chcp 65001 | Out-Null; netstat -ano"@],
        ),
        _ => command_view("netstat"@, seq!["-ano"@]),
    }
}

/// The step of running `netstat` from `stage` (with `error`, the message
/// of the first start that failed) on the outcome `o`: the next stage, the
/// message to keep, and the action.
pub open spec fn netstat_next(stage: NetstatStage, error: Seq<char>, o: OutcomeView) -> (
    NetstatStage,
    Seq<char>,
    NetstatActionView,
) {
    match stage {
        NetstatStage::Cmd => match o {
            OutcomeView::Finished { success: true, stdout } => (
                NetstatStage::Done,
                error,
                NetstatActionView::Done(Ok(stdout)),
            ),
            OutcomeView::Finished { success: false, .. } => (
                NetstatStage::PowerShell,
                error,
                NetstatActionView::Run(netstat_command(NetstatStage::PowerShell)),
            ),
            OutcomeView::NotStarted { error: e } => (
                NetstatStage::DirectAfterCmd,
                e,
                NetstatActionView::Run(netstat_command(NetstatStage::DirectAfterCmd)),
            ),
        },
        NetstatStage::PowerShell => match o {
            OutcomeView::Finished { success: true, stdout } => (
                NetstatStage::Done,
                error,
                NetstatActionView::Done(Ok(stdout)),
            ),
            OutcomeView::Finished { success: false, .. } => (
                NetstatStage::DirectAfterPowerShellFailed,
                error,
                NetstatActionView::Run(netstat_command(NetstatStage::DirectAfterPowerShellFailed)),
            ),
            OutcomeView::NotStarted { error: e } => (
                NetstatStage::DirectAfterPowerShellError,
                e,
                NetstatActionView::Run(netstat_command(NetstatStage::DirectAfterPowerShellError)),
            ),
        },
        NetstatStage::Done => (stage, error, NetstatActionView::Done(Err(error))),
        _ => match o {
            OutcomeView::Finished { stdout, .. } => (
                NetstatStage::Done,
                error,
                NetstatActionView::Done(Ok(stdout)),
            ),
            OutcomeView::NotStarted { error: de } => (
                NetstatStage::Done,
                error,
                NetstatActionView::Done(
                    Err(
                        match stage {
                            NetstatStage::DirectAfterCmd => "Не удалось выполнить netstat ни через cmd, ни напрямую: "@
                                + error + " и "@ + de,
                            NetstatStage::DirectAfterPowerShellFailed => "Все методы выполнения netstat завершились с ошибкой: "@
                                + de,
                            _ => "Все методы выполнения netstat завершились с ошибкой: "@ + error
                                + " и "@ + de,
                        },
                    ),
                ),
            ),
        },
    }
}

/// The command of a stage.
fn netstat_command_exec(stage: NetstatStage) -> (r: CommandLine)
    ensures
        r@ == netstat_command(stage),
{
    match stage {
        NetstatStage::Cmd => command_line(
            "cmd",
            args2(String::from_str("/c"), String::from_str("chcp 65001 > nul && netstat -ano")),
        ),
        NetstatStage::PowerShell => command_line(
            "powershell",
            args2(
                String::from_str("-Command"),
                String::from_str("chcp 65001 | Out-Null; netstat -ano"),
            ),
        ),
        _ => {
            let args = vec![String::from_str("-ano")];
            assert(crate::command::string_views(args@) =~= seq!["-ano"@]);
            command_line("netstat", args)
        },
    }
}

impl NetstatRun {
    /// Starts running `netstat`, through `cmd` first.
    pub fn begin() -> (r: (NetstatRun, NetstatAction))
        ensures
            r.0.stage == NetstatStage::Cmd,
            r.0.error@ == Seq::<char>::empty(),
            r.1@ == NetstatActionView::Run(netstat_command(NetstatStage::Cmd)),
    {
        (
            NetstatRun { stage: NetstatStage::Cmd, error: String::new() },
            NetstatAction::Run(netstat_command_exec(NetstatStage::Cmd)),
        )
    }

    /// The next step, given what came of the command that ran.
    pub fn step(&mut self, outcome: CommandOutcome) -> (a: NetstatAction)
        requires
            old(self).stage != NetstatStage::Done,
        ensures
            (final(self).stage, final(self).error@, a@) == netstat_next(
                old(self).stage,
                old(self).error@,
                outcome@,
            ),
    {
        match self.stage {
            NetstatStage::Cmd => match outcome {
                CommandOutcome::Finished { success: true, stdout } => {
                    self.stage = NetstatStage::Done;
                    NetstatAction::Done(Ok(stdout))
                },
                CommandOutcome::Finished { success: false, .. } => {
                    self.stage = NetstatStage::PowerShell;
                    NetstatAction::Run(netstat_command_exec(NetstatStage::PowerShell))
                },
                CommandOutcome::NotStarted { error } => {
                    self.stage = NetstatStage::DirectAfterCmd;
                    self.error = error;
                    NetstatAction::Run(netstat_command_exec(NetstatStage::DirectAfterCmd))
                },
            },
            NetstatStage::PowerShell => match outcome {
                CommandOutcome::Finished { success: true, stdout } => {
                    self.stage = NetstatStage::Done;
                    NetstatAction::Done(Ok(stdout))
                },
                CommandOutcome::Finished { success: false, .. } => {
                    self.stage = NetstatStage::DirectAfterPowerShellFailed;
                    NetstatAction::Run(
                        netstat_command_exec(NetstatStage::DirectAfterPowerShellFailed),
                    )
                },
                CommandOutcome::NotStarted { error } => {
                    self.stage = NetstatStage::DirectAfterPowerShellError;
                    self.error = error;
                    NetstatAction::Run(netstat_command_exec(NetstatStage::DirectAfterPowerShellError))
                },
            },
            NetstatStage::Done => NetstatAction::Done(Err(String::from_str(self.error.as_str()))),
            _ => {
                let stage = self.stage;
                self.stage = NetstatStage::Done;
                match outcome {
                    CommandOutcome::Finished { stdout, .. } => NetstatAction::Done(Ok(stdout)),
                    CommandOutcome::NotStarted { error } => {
                        let m = match stage {
                            NetstatStage::DirectAfterCmd => crate::text::concat4(
                                "Не удалось выполнить netstat ни через cmd, ни напрямую: ",
                                self.error.as_str(),
                                " и ",
                                error.as_str(),
                            ),
                            NetstatStage::DirectAfterPowerShellFailed => concat2(
                                "Все методы выполнения netstat завершились с ошибкой: ",
                                error.as_str(),
                            ),
                            _ => crate::text::concat4(
                                "Все методы выполнения netstat завершились с ошибкой: ",
                                self.error.as_str(),
                                " и ",
                                error.as_str(),
                            ),
                        };
                        NetstatAction::Done(Err(m))
                    },
                }
            },
        }
    }
}

/// The order of the stages: each step moves to a later one.
pub open spec fn netstat_stage_order(stage: NetstatStage) -> int {
    match stage {
        NetstatStage::Cmd => 0,
        NetstatStage::PowerShell | NetstatStage::DirectAfterCmd => 1,
        NetstatStage::DirectAfterPowerShellFailed | NetstatStage::DirectAfterPowerShellError => 2,
        NetstatStage::Done => 3,
    }
}

/// Running `netstat` ends after at most three commands: each step moves to
/// a later stage, and the step that reaches the end hands over the output
/// or the failure. A command that could be started and exited with success
/// ends it with what it printed.
pub proof fn lemma_netstat_progress(stage: NetstatStage, error: Seq<char>, o: OutcomeView)
    requires
        stage != NetstatStage::Done,
    ensures
        netstat_stage_order(netstat_next(stage, error, o).0) > netstat_stage_order(stage),
        netstat_next(stage, error, o).0 == NetstatStage::Done <==> netstat_next(
            stage,
            error,
            o,
        ).2 is Done,
        o matches OutcomeView::Finished { success: true, stdout } ==> netstat_next(stage, error, o).2
            == NetstatActionView::Done(Ok(stdout)),
{
}

// ---------------------------------------------------------------------------
// Reading what the system's tools say of a process
// ---------------------------------------------------------------------------

/// The image name in a listing of `tasklist /FO CSV`: the first field of
/// the first line after the header that has a comma.
pub open spec fn csv_name_from(ls: Seq<Seq<char>>, i: int) -> FieldCutView
    decreases ls.len() - i,
{
    if i < 1 || i >= ls.len() {
        FieldCutView::Missing
    } else if first_index(ls[i], ',') >= 0 {
        first_field(ls[i])
    } else {
        csv_name_from(ls, i + 1)
    }
}

/// The image name that a `tasklist /FO CSV` listing gives for a process.
pub open spec fn tasklist_name(listing: Seq<char>) -> FieldCutView {
    csv_name_from(lines(listing), 1)
}

/// Reads the image name of a process from a `tasklist /FO CSV` listing.
pub fn tasklist_image_name(listing: &str) -> (r: FieldCut)
    ensures
        r@ == tasklist_name(listing@),
{
    let c = to_chars(listing);
    let ls = split_lines(&c);
    let ghost lv = views(ls@);
    let mut i: usize = 1;
    while i < ls.len()
        invariant
            1 <= i,
            lv == views(ls@),
            lv == lines(listing@),
            csv_name_from(lv, i as int) == csv_name_from(lv, 1),
        decreases ls.len() - i,
    {
        assert(lv[i as int] == ls@[i as int]@);
        match find_char(&ls[i], ',') {
            Some(_) => {
                proof {
                    crate::text::lemma_first_index_bounds(lv[i as int], ',');
                }
                return first_csv_field(&ls[i]);
            },
            None => {},
        }
        i = i + 1;
    }
    FieldCut::Missing
}

/// The path of a process in what `Get-Process | Select-Object Path`
/// printed: the first line that, trimmed, is neither empty, nor the header,
/// nor its underline.
pub open spec fn path_from(ls: Seq<Seq<char>>, i: int) -> Option<Seq<char>>
    decreases ls.len() - i,
{
    if i < 0 || i >= ls.len() {
        None
    } else {
        let t = trim(ls[i]);
        if t.len() > 0 && !contains(t, "Path"@) && !contains(t, "----"@) {
            Some(t)
        } else {
            path_from(ls, i + 1)
        }
    }
}

/// Reads the path of a process from what PowerShell printed.
pub fn powershell_path(listing: &str) -> (r: Option<String>)
    ensures
        match r {
            Some(p) => path_from(lines(listing@), 0) == Some(p@),
            None => path_from(lines(listing@), 0) is None,
        },
{
    let c = to_chars(listing);
    let ls = split_lines(&c);
    let ghost lv = views(ls@);
    let mut i: usize = 0;
    while i < ls.len()
        invariant
            lv == views(ls@),
            lv == lines(listing@),
            path_from(lv, i as int) == path_from(lv, 0),
        decreases ls.len() - i,
    {
        assert(lv[i as int] == ls@[i as int]@);
        let t = trim_chars(&ls[i]);
        if t.len() > 0 && !contains_str(&t, "Path") && !contains_str(&t, "----") {
            return Some(from_chars(&t));
        }
        i = i + 1;
    }
    None
}

// ---------------------------------------------------------------------------
// The ports command
// ---------------------------------------------------------------------------

/// The ports for the user interface: with `force_update`, read afresh by
/// `fetch` and put in the cache; otherwise the cache, which is filled by
/// `fetch` first where it is empty and `fetch` finds ports. `fetch` is
/// needed (and can be called) only when forced or when the cache is empty.
pub fn get_network_ports<F: Fn() -> Result<Vec<Port>, String>>(
    ports_cache: &mut PortsCache,
    force_update: Option<bool>,
    fetch: &F,
) -> (r: Result<Vec<Port>, String>)
    requires
        force_update == Some(true) || old(ports_cache)@.len() == 0 ==> call_requires(*fetch, ()),
    ensures
        force_update == Some(true) ==> exists|f: Result<Vec<Port>, String>|
            #[trigger] call_ensures(*fetch, (), f) && match f {
                Ok(ps) => (r matches Ok(v) && v@ == ps@) && final(ports_cache)@ == ps@,
                Err(e) => (r matches Err(m) && m@ == "Ошибка при принудительном обновлении: "@ + e@)
                    && final(ports_cache)@ == old(ports_cache)@,
            },
        force_update != Some(true) && old(ports_cache)@.len() > 0 ==> (r matches Ok(v) && v@ == old(
            ports_cache,
        )@) && final(ports_cache)@ == old(ports_cache)@,
        force_update != Some(true) && old(ports_cache)@.len() == 0 ==> exists|
            f: Result<Vec<Port>, String>,
        |
            #[trigger] call_ensures(*fetch, (), f) && match f {
                Ok(ps) => (r matches Ok(v) && v@ == ps@) && (ps@.len() > 0 ==> final(ports_cache)@
                    == ps@) && (ps@.len() == 0 ==> final(ports_cache)@ == old(ports_cache)@),
                Err(e) => (r matches Err(m) && m@ == "Ошибка при прямом запросе портов: "@ + e@)
                    && final(ports_cache)@ == old(ports_cache)@,
            },
{
    let force = match force_update {
        Some(b) => b,
        None => false,
    };
    if force {
        let f = fetch();
        match f {
            Ok(ports) => {
                let copy = clone_ports(&ports);
                ports_cache.replace(copy);
                return Ok(ports);
            },
            Err(e) => {
                return Err(concat2("Ошибка при принудительном обновлении: ", e.as_str()));
            },
        }
    }
    if ports_cache.len() == 0 {
        let f = fetch();
        match f {
            Ok(direct) => {
                if direct.len() > 0 {
                    let copy = clone_ports(&direct);
                    ports_cache.replace(copy);
                    return Ok(direct);
                }
                assert(direct@ =~= ports_cache@);
                return Ok(direct);
            },
            Err(e) => {
                return Err(concat2("Ошибка при прямом запросе портов: ", e.as_str()));
            },
        }
    }
    Ok(ports_cache.ports())
}


// ---------------------------------------------------------------------------
// The background refresh of the cache
// ---------------------------------------------------------------------------

/// The key by which two lists of ports are compared: the owner, and
/// "protocol:local address".
pub open spec fn port_key(p: Port) -> (Seq<char>, Seq<char>) {
    (p.pid@, p.protocol@ + ":"@ + p.local_addr@)
}

/// The keys of a list of ports.
pub open spec fn port_keys(ps: Seq<Port>) -> Set<(Seq<char>, Seq<char>)> {
    Set::new(|k: (Seq<char>, Seq<char>)| exists|i: int| 0 <= i < ps.len() && port_key(#[trigger] ps[i]) == k)
}

/// Whether some port of `b` has the owner, protocol and local address of
/// the port `p`.
pub open spec fn has_port_like(b: Seq<Port>, p: Port) -> bool {
    exists|j: int|
        0 <= j < b.len() && (#[trigger] b[j]).pid@ == p.pid@ && b[j].protocol@ + ":"@
            + b[j].local_addr@ == p.protocol@ + ":"@ + p.local_addr@
}

/// Two lists of ports count as the same for the refresh exactly when each
/// port of either has a port in the other with the same owning process and
/// the same "protocol:local address": a port taken over by another process
/// is a change.
pub proof fn lemma_keys_compare_owner_and_address(a: Seq<Port>, b: Seq<Port>)
    ensures
        port_keys(a) == port_keys(b) <==> ((forall|i: int| 0 <= i < a.len() ==> has_port_like(b, #[trigger] a[i]))
            && (forall|i: int| 0 <= i < b.len() ==> has_port_like(a, #[trigger] b[i]))),
{
    if port_keys(a) == port_keys(b) {
        assert forall|i: int| 0 <= i < a.len() implies has_port_like(b, #[trigger] a[i]) by {
            assert(port_keys(a).contains(port_key(a[i])));
            let j = choose|j: int| 0 <= j < b.len() && port_key(#[trigger] b[j]) == port_key(a[i]);
            assert(b[j].pid@ == a[i].pid@);
        }
        assert forall|i: int| 0 <= i < b.len() implies has_port_like(a, #[trigger] b[i]) by {
            assert(port_keys(b).contains(port_key(b[i])));
            let j = choose|j: int| 0 <= j < a.len() && port_key(#[trigger] a[j]) == port_key(b[i]);
            assert(a[j].pid@ == b[i].pid@);
        }
    }
    if (forall|i: int| 0 <= i < a.len() ==> has_port_like(b, #[trigger] a[i])) && (forall|i: int|
        0 <= i < b.len() ==> has_port_like(a, #[trigger] b[i])) {
        assert forall|k: (Seq<char>, Seq<char>)| port_keys(a).contains(k) implies port_keys(b).contains(k) by {
            let i = choose|i: int| 0 <= i < a.len() && port_key(#[trigger] a[i]) == k;
            assert(has_port_like(b, a[i]));
            let j = choose|j: int|
                0 <= j < b.len() && (#[trigger] b[j]).pid@ == a[i].pid@ && b[j].protocol@ + ":"@
                    + b[j].local_addr@ == a[i].protocol@ + ":"@ + a[i].local_addr@;
            assert(port_key(b[j]) == k);
        }
        assert forall|k: (Seq<char>, Seq<char>)| port_keys(b).contains(k) implies port_keys(a).contains(k) by {
            let i = choose|i: int| 0 <= i < b.len() && port_key(#[trigger] b[i]) == k;
            assert(has_port_like(a, b[i]));
            let j = choose|j: int|
                0 <= j < a.len() && (#[trigger] a[j]).pid@ == b[i].pid@ && a[j].protocol@ + ":"@
                    + a[j].local_addr@ == b[i].protocol@ + ":"@ + b[i].local_addr@;
            assert(port_key(a[j]) == k);
        }
        assert(port_keys(a) =~= port_keys(b));
    }
}

/// The keys of a list of ports, as character vectors.
fn key_list(ps: &Vec<Port>) -> (r: Vec<(Vec<char>, Vec<char>)>)
    ensures
        r@.len() == ps@.len(),
        forall|i: int| 0 <= i < ps@.len() ==> (#[trigger] r@[i].0@, r@[i].1@) == port_key(ps@[i]),
{
    let mut r: Vec<(Vec<char>, Vec<char>)> = Vec::new();
    let mut i: usize = 0;
    while i < ps.len()
        invariant
            i <= ps.len(),
            r@.len() == i,
            forall|j: int| 0 <= j < i ==> (#[trigger] r@[j].0@, r@[j].1@) == port_key(ps@[j]),
        decreases ps.len() - i,
    {
        let mut k = to_chars(ps[i].protocol.as_str());
        crate::text::push_str(&mut k, ":");
        crate::text::push_str(&mut k, ps[i].local_addr.as_str());
        r.push((to_chars(ps[i].pid.as_str()), k));
        i = i + 1;
    }
    r
}

/// A key as plain values.
pub open spec fn key_of(e: (Vec<char>, Vec<char>)) -> (Seq<char>, Seq<char>) {
    (e.0@, e.1@)
}

/// Whether `k` is one of the keys `b`.
pub open spec fn has_key(b: Seq<(Vec<char>, Vec<char>)>, k: (Seq<char>, Seq<char>)) -> bool {
    exists|j: int| 0 <= j < b.len() && key_of(b[j]) == k
}

/// The keys of a list, built by `key_list`, are its `port_keys`.
proof fn lemma_key_list(ps: Seq<Port>, kl: Seq<(Vec<char>, Vec<char>)>, k: (Seq<char>, Seq<char>))
    requires
        kl.len() == ps.len(),
        forall|i: int| 0 <= i < ps.len() ==> (#[trigger] kl[i].0@, kl[i].1@) == port_key(ps[i]),
    ensures
        port_keys(ps).contains(k) <==> has_key(kl, k),
{
    if port_keys(ps).contains(k) {
        let i = choose|i: int| 0 <= i < ps.len() && port_key(#[trigger] ps[i]) == k;
        assert((kl[i].0@, kl[i].1@) == port_key(ps[i]));
        assert(key_of(kl[i]) == k);
    }
    if has_key(kl, k) {
        let j = choose|j: int| 0 <= j < kl.len() && key_of(kl[j]) == k;
        assert((kl[j].0@, kl[j].1@) == port_key(ps[j]));
        assert(port_key(ps[j]) == k);
    }
}

/// Whether every key of `a` is a key of `b`.
fn keys_within(a: &Vec<(Vec<char>, Vec<char>)>, b: &Vec<(Vec<char>, Vec<char>)>) -> (r: bool)
    ensures
        r == forall|i: int| 0 <= i < a@.len() ==> has_key(b@, #[trigger] key_of(a@[i])),
{
    let mut i: usize = 0;
    while i < a.len()
        invariant
            i <= a.len(),
            forall|m: int| 0 <= m < i ==> has_key(b@, #[trigger] key_of(a@[m])),
        decreases a.len() - i,
    {
        let mut found = false;
        let mut j: usize = 0;
        while j < b.len()
            invariant
                i < a.len(),
                j <= b.len(),
                found ==> has_key(b@, key_of(a@[i as int])),
                !found ==> forall|n: int| 0 <= n < j ==> key_of(#[trigger] b@[n]) != key_of(a@[i as int]),
            decreases b.len() - j,
        {
            if chars_eq(&a[i].0, &b[j].0) && chars_eq(&a[i].1, &b[j].1) {
                found = true;
                assert(key_of(b@[j as int]) == key_of(a@[i as int]));
            }
            j = j + 1;
        }
        if !found {
            assert(!has_key(b@, key_of(a@[i as int])));
            return false;
        }
        i = i + 1;
    }
    true
}

/// Whether two lists of ports differ in their keys.
pub fn port_keys_differ(old: &Vec<Port>, new: &Vec<Port>) -> (r: bool)
    ensures
        r == (port_keys(old@) != port_keys(new@)),
{
    let ka = key_list(old);
    let kb = key_list(new);
    let ab = keys_within(&ka, &kb);
    let ba = keys_within(&kb, &ka);
    proof {
        assert forall|k: (Seq<char>, Seq<char>)| #[trigger] port_keys(old@).contains(k) <==> has_key(ka@, k) by {
            lemma_key_list(old@, ka@, k);
        }
        assert forall|k: (Seq<char>, Seq<char>)| #[trigger] port_keys(new@).contains(k) <==> has_key(kb@, k) by {
            lemma_key_list(new@, kb@, k);
        }
        if ab && ba {
            assert forall|k: (Seq<char>, Seq<char>)| port_keys(old@).contains(k) implies port_keys(new@).contains(k) by {
                let i = choose|i: int| 0 <= i < ka@.len() && key_of(ka@[i]) == k;
                assert(has_key(kb@, key_of(ka@[i])));
            }
            assert forall|k: (Seq<char>, Seq<char>)| port_keys(new@).contains(k) implies port_keys(old@).contains(k) by {
                let i = choose|i: int| 0 <= i < kb@.len() && key_of(kb@[i]) == k;
                assert(has_key(ka@, key_of(kb@[i])));
            }
            assert(port_keys(old@) =~= port_keys(new@));
        } else if !ab {
            let i = choose|i: int| 0 <= i < ka@.len() && !has_key(kb@, #[trigger] key_of(ka@[i]));
            let k = key_of(ka@[i]);
            assert(has_key(ka@, k));
            assert(port_keys(old@).contains(k));
            assert(!port_keys(new@).contains(k));
        } else {
            let i = choose|i: int| 0 <= i < kb@.len() && !has_key(ka@, #[trigger] key_of(kb@[i]));
            let k = key_of(kb@[i]);
            assert(has_key(kb@, k));
            assert(port_keys(new@).contains(k));
            assert(!port_keys(old@).contains(k));
        }
    }
    !(ab && ba)
}

/// How many ports the cache takes at a time when it is first filled.
pub const FIRST_LOAD_BATCH: usize = 50;

/// What a refresh does with the ports it read.
pub enum RefreshPlan {
    /// The keys did not change: the cache stays.
    Keep,
    /// The cache takes the new list.
    Replace,
    /// The first load: the cache takes each of these ranges of the list in
    /// turn, then the whole list.
    LoadInBatches(Vec<(usize, usize)>),
}

/// The ranges of the first load of `len` ports: `[50 i, min(50 i + 50, len))`.
pub open spec fn batch_ranges_ok(r: Seq<(usize, usize)>, len: nat) -> bool {
    &&& r.len() == (len + 49) / 50
    &&& forall|i: int| 0 <= i < r.len() ==> #[trigger] r[i] == ((50 * i) as usize, if 50 * i + 50 <= len {
        (50 * i + 50) as usize
    } else {
        len as usize
    })
}

/// The ranges in which the first load fills the cache.
pub fn first_load_batches(len: usize) -> (r: Vec<(usize, usize)>)
    ensures
        batch_ranges_ok(r@, len as nat),
{
    let n: usize = len / FIRST_LOAD_BATCH + if len % FIRST_LOAD_BATCH == 0 {
        0
    } else {
        1
    };
    assert(n == (len + 49) / 50) by (nonlinear_arith)
        requires
            n == len / 50 + if len % 50 == 0 {
                0int
            } else {
                1int
            },
    ;
    let mut r: Vec<(usize, usize)> = Vec::new();
    let mut b: usize = 0;
    while b < n
        invariant
            b <= n,
            n == (len + 49) / 50,
            r@.len() == b,
            forall|i: int| 0 <= i < r@.len() ==> #[trigger] r@[i] == ((50 * i) as usize, if 50 * i + 50 <= len {
                (50 * i + 50) as usize
            } else {
                len as usize
            }),
        decreases n - b,
    {
        assert(50 * b < len) by (nonlinear_arith)
            requires
                b < n,
                n == (len + 49) / 50,
        ;
        let start = FIRST_LOAD_BATCH * b;
        let end = if len - start >= FIRST_LOAD_BATCH {
            start + FIRST_LOAD_BATCH
        } else {
            len
        };
        r.push((start, end));
        b = b + 1;
    }
    r
}

/// What the background refresh does with a new list: on the first run the
/// cache is loaded in batches; later it is replaced only where the keys
/// changed.
pub fn ports_refresh_plan(cache: &PortsCache, ports: &Vec<Port>, first_run: bool) -> (r: RefreshPlan)
    ensures
        first_run ==> (r matches RefreshPlan::LoadInBatches(b) && batch_ranges_ok(b@, ports@.len())),
        !first_run && port_keys(cache@) != port_keys(ports@) ==> r is Replace,
        !first_run && port_keys(cache@) == port_keys(ports@) ==> r is Keep,
{
    if first_run {
        return RefreshPlan::LoadInBatches(first_load_batches(ports.len()));
    }
    let current = cache.ports();
    if port_keys_differ(&current, ports) {
        RefreshPlan::Replace
    } else {
        RefreshPlan::Keep
    }
}

/// The least time between two readings of the background refresh, in
/// nanoseconds.
pub const PORTS_SCAN_INTERVAL_NS: u64 = 30_000_000_000;

/// Whether the background refresh reads the ports now: at once on its
/// first run, then thirty seconds or more after the last reading began
/// (times in nanoseconds).
pub fn ports_scan_due(first_run: bool, last_scan_ns: u64, now_ns: u64) -> (r: bool)
    ensures
        r == (first_run || (now_ns >= last_scan_ns && now_ns - last_scan_ns
            >= PORTS_SCAN_INTERVAL_NS)),
{
    first_run || (now_ns >= last_scan_ns && now_ns - last_scan_ns >= PORTS_SCAN_INTERVAL_NS)
}

/// The ranges of the first load follow one another from the start of the
/// list to its end, so the cache holds consecutive slices of the list and
/// every port is in one of them.
pub proof fn lemma_batches_cover(r: Seq<(usize, usize)>, len: nat)
    requires
        batch_ranges_ok(r, len),
        len <= usize::MAX,
    ensures
        len > 0 ==> r.len() > 0 && r[0].0 == 0 && r[r.len() - 1].1 == len,
        len == 0 ==> r.len() == 0,
        forall|i: int| 0 <= i < r.len() - 1 ==> #[trigger] r[i].1 == r[i + 1].0,
        forall|i: int| 0 <= i < r.len() ==> #[trigger] r[i].0 < r[i].1 && r[i].1 - r[i].0 <= 50,
{
    if len > 0 {
        let n = r.len() as int;
        assert(n == (len + 49) / 50);
        assert(n >= 1) by (nonlinear_arith)
            requires
                n == (len + 49) / 50,
                len > 0,
        ;
        assert(50 * (n - 1) < len && len <= 50 * (n - 1) + 50) by (nonlinear_arith)
            requires
                n == (len + 49) / 50,
                len > 0,
        ;
        assert(r[0] == ((50 * 0) as usize, if 50 * 0 + 50 <= len {
            (50 * 0 + 50) as usize
        } else {
            len as usize
        }));
        assert(r[n - 1].1 == len);
    } else {
        assert(r.len() == (len + 49) / 50);
    }
    assert forall|i: int| 0 <= i < r.len() - 1 implies #[trigger] r[i].1 == r[i + 1].0 by {
        let n = r.len() as int;
        assert(50 * (i + 1) < len) by (nonlinear_arith)
            requires
                n == (len + 49) / 50,
                0 <= i < n - 1,
        ;
        assert(r[i + 1].0 == (50 * (i + 1)) as usize);
    }
    assert forall|i: int| 0 <= i < r.len() implies #[trigger] r[i].0 < r[i].1 && r[i].1 - r[i].0
        <= 50 by {
        let n = r.len() as int;
        assert(50 * i < len) by (nonlinear_arith)
            requires
                n == (len + 49) / 50,
                0 <= i < n,
        ;
    }
}

/// The step of the background refresh's clock: at `now` a reading begins
/// if it is due, and then it is the last one; otherwise the last stays.
pub open spec fn scan_step(first_run: bool, last_ns: u64, now_ns: u64) -> (bool, u64) {
    if first_run || (now_ns >= last_ns && now_ns - last_ns >= PORTS_SCAN_INTERVAL_NS) {
        (true, now_ns)
    } else {
        (false, last_ns)
    }
}

/// The schedule of the background refresh of the ports: whether its first
/// load is still to come, and when its last reading began (nanoseconds).
pub struct PortsRefresher {
    pub first_run: bool,
    pub last_scan_ns: u64,
}

impl PortsRefresher {
    /// The refresh before its first load, started at time zero.
    pub fn new() -> (r: PortsRefresher)
        ensures
            r.first_run,
            r.last_scan_ns == 0,
    {
        PortsRefresher { first_run: true, last_scan_ns: 0 }
    }

    /// Whether a reading begins at `now_ns`: at once before the first load,
    /// then thirty seconds or more after the last one began.
    pub fn begin_scan(&mut self, now_ns: u64) -> (r: bool)
        ensures
            (r, final(self).last_scan_ns) == scan_step(old(self).first_run, old(self).last_scan_ns, now_ns),
            final(self).first_run == old(self).first_run,
    {
        let due = ports_scan_due(self.first_run, self.last_scan_ns, now_ns);
        if due {
            self.last_scan_ns = now_ns;
        }
        due
    }

    /// What is done with the ports read: loaded in batches before the
    /// first load, afterwards taken only where their keys changed.
    pub fn plan(&self, cache: &PortsCache, ports: &Vec<Port>) -> (r: RefreshPlan)
        ensures
            self.first_run ==> (r matches RefreshPlan::LoadInBatches(b) && batch_ranges_ok(
                b@,
                ports@.len(),
            )),
            !self.first_run && port_keys(cache@) != port_keys(ports@) ==> r is Replace,
            !self.first_run && port_keys(cache@) == port_keys(ports@) ==> r is Keep,
    {
        ports_refresh_plan(cache, ports, self.first_run)
    }

    /// One batch of the first load: the cache holds the ports from `start`
    /// up to `end`.
    pub fn load_batch(cache: &mut PortsCache, ports: &Vec<Port>, start: usize, end: usize)
        requires
            start <= end <= ports@.len(),
        ensures
            final(cache)@ == ports@.subrange(start as int, end as int),
    {
        let mut batch: Vec<Port> = Vec::new();
        let mut i: usize = start;
        while i < end
            invariant
                start <= i <= end <= ports@.len(),
                batch@ == ports@.subrange(start as int, i as int),
            decreases end - i,
        {
            batch.push(ports[i].clone());
            assert(ports@.subrange(start as int, i + 1) =~= ports@.subrange(start as int, i as int).push(
                ports@[i as int],
            ));
            i = i + 1;
        }
        cache.replace(batch);
    }

    /// The end of the first load: the cache holds the whole list, and later
    /// readings replace it only where their keys changed.
    pub fn finish_first_load(&mut self, cache: &mut PortsCache, ports: Vec<Port>)
        ensures
            final(cache)@ == ports@,
            !final(self).first_run,
            final(self).last_scan_ns == old(self).last_scan_ns,
    {
        cache.replace(ports);
        self.first_run = false;
    }
}

/// When the last reading began after the steps at the times `ts`, the
/// first load being over.
pub open spec fn last_scan_after(last_ns: u64, ts: Seq<u64>) -> u64
    decreases ts.len(),
{
    if ts.len() == 0 {
        last_ns
    } else {
        scan_step(false, last_scan_after(last_ns, ts.drop_last()), ts.last()).1
    }
}

/// Whether a reading begins at the step at `ts[i]`, the first load being
/// over.
pub open spec fn scan_begins_at(last_ns: u64, ts: Seq<u64>, i: int) -> bool {
    scan_step(false, last_scan_after(last_ns, ts.take(i)), ts[i]).0
}

proof fn lemma_last_scan_not_before(last_ns: u64, ts: Seq<u64>, i: int, k: int)
    requires
        0 <= i < k <= ts.len(),
        forall|a: int, b: int| 0 <= a <= b < ts.len() ==> ts[a] <= ts[b],
        scan_begins_at(last_ns, ts, i),
    ensures
        last_scan_after(last_ns, ts.take(k)) >= ts[i],
    decreases k - i,
{
    assert(ts.take(k).drop_last() =~= ts.take(k - 1));
    assert(ts.take(k).last() == ts[k - 1]);
    if k == i + 1 {
    } else {
        lemma_last_scan_not_before(last_ns, ts, i, k - 1);
    }
}

/// Once the first load is over, the readings of the background refresh
/// begin thirty seconds or more apart: of the steps at the times `ts` (in
/// order), any two at which a reading begins are that far apart.
pub proof fn lemma_scans_spaced(last_ns: u64, ts: Seq<u64>, i: int, j: int)
    requires
        0 <= i < j < ts.len(),
        forall|a: int, b: int| 0 <= a <= b < ts.len() ==> ts[a] <= ts[b],
        scan_begins_at(last_ns, ts, i),
        scan_begins_at(last_ns, ts, j),
    ensures
        ts[j] - ts[i] >= PORTS_SCAN_INTERVAL_NS,
{
    lemma_last_scan_not_before(last_ns, ts, i, j);
}

/// How often the window's refresh loop forgets the names of processes.
pub const NAME_CACHE_ROUNDS: u32 = 20;

/// The counter of the window's refresh loop after one more round, and
/// whether the names of processes are forgotten in this round (after more
/// than twenty rounds, when the counter starts again).
pub fn next_refresh_round(counter: u32) -> (r: (u32, bool))
    requires
        counter <= NAME_CACHE_ROUNDS,
    ensures
        counter + 1 > NAME_CACHE_ROUNDS ==> r == (0u32, true),
        counter + 1 <= NAME_CACHE_ROUNDS ==> r == ((counter + 1) as u32, false),
        r.0 <= NAME_CACHE_ROUNDS,
{
    let c = counter + 1;
    if c > NAME_CACHE_ROUNDS {
        (0, true)
    } else {
        (c, false)
    }
}

} // verus!
