//! The output side of an interactive PowerShell terminal: which parts of the
//! bytes read from the pseudo-terminal are passed on to the user interface,
//! and when.
//!
//! PowerShell repeats error records and sometimes echoes whole chunks more
//! than once. The filter keeps the last lines it passed on and drops lines
//! that repeat them, never dropping a command prompt. Output without a line
//! end is held back until it grows large or has waited long enough.
use vstd::prelude::*;
use crate::text::{
    utf8_lossy, utf8_lossy_decoding, chars_eq, contains, contains_chars, contains_str, ends_with, ends_with_str, find_char,
    first_index, from_chars, lemma_first_index_bounds, push_all, slice_chars, split_char,
    split_on, to_chars, trim, trim_chars, utf8_len, utf8_len_of, views,
};

verus! {

/// How many lines the filter remembers.
pub const HISTORY_LIMIT: usize = 20;

/// Held-back output larger than this many bytes is passed on at once.
pub const MAX_BUFFER_SIZE: usize = 4096;

/// The abstract state of a terminal's output filter.
pub ghost struct OutputState {
    /// The lines most recently passed on, oldest first.
    pub last_lines: Seq<Seq<char>>,
    /// Output received but not yet passed on.
    pub buffer: Seq<char>,
    /// When output was last passed on, in nanoseconds on the host's clock.
    pub last_send_ns: u64,
    /// Whether the next chunk is passed on as it is.
    pub always_send_next: bool,
    /// How many error records were seen since the last prompt.
    pub error_count: u64,
    /// Whether a prompt was shown and input is awaited.
    pub pending_input: bool,
    /// The last chunk that was not a repetition.
    pub last_raw_chunk: Seq<char>,
    /// How many times in a row that chunk came again.
    pub repeats: u64,
}

/// The state of a scan over complete lines.
pub ghost struct LineScan {
    /// What the scan passes on.
    pub send: Seq<char>,
    pub last_lines: Seq<Seq<char>>,
    pub error_count: u64,
    pub always_send_next: bool,
    pub pending_input: bool,
}

/// `x + 1`, staying at the largest value.
pub open spec fn sat_inc(x: u64) -> u64 {
    if x < u64::MAX {
        (x + 1) as u64
    } else {
        x
    }
}

/// The text of the greeting that marks a ready terminal.
pub open spec fn ready_marker() -> Seq<char> {
    "готов к работе"@
}

/// A line that belongs to a command prompt or the greeting.
pub open spec fn is_prompt_line(line: Seq<char>) -> bool {
    contains(line, "PS "@) || contains(line, "> "@) || contains(line, ready_marker())
}

/// A line that the duplicate check never treats as a repetition.
pub open spec fn prompt_like(line: Seq<char>) -> bool {
    contains(line, "PS "@) || ends_with(line, ">"@) || ends_with(line, "> "@) || contains(
        line,
        ready_marker(),
    )
}

/// The texts that mark PowerShell error records, in the order they are checked.
pub open spec fn error_marker(k: int) -> Seq<char> {
    if k == 0 {
        "CommandNotFoundException"@
    } else if k == 1 {
        "ObjectNotFound"@
    } else if k == 2 {
        "CategoryInfo"@
    } else if k == 3 {
        "FullyQualifiedErrorId"@
    } else if k == 4 {
        "+ CategoryInfo"@
    } else if k == 5 {
        "+ FullyQualifiedErrorId"@
    } else if k == 6 {
        "не распознано как имя"@
    } else if k == 7 {
        "Проверьте правильность"@
    } else {
        "строка:"@
    }
}

/// The number of error markers.
pub open spec fn marker_count() -> int {
    9
}

/// The first index of the last `n` entries of a sequence of length `len`.
pub open spec fn window_start(len: int, n: int) -> int {
    if len > n {
        len - n
    } else {
        0
    }
}

/// One of the last ten lines passed on echoes an error record `m` of `line`.
pub open spec fn marker_echo(line: Seq<char>, sent: Seq<Seq<char>>, m: Seq<char>) -> bool {
    exists|j: int|
        window_start(sent.len() as int, 10) <= j < sent.len() && #[trigger] echoes(line, sent[j], m)
}

/// `last` contains the marker `m`, or one of `line` and `last`, both longer
/// than ten bytes, contains the other.
pub open spec fn echoes(line: Seq<char>, last: Seq<char>, m: Seq<char>) -> bool {
    contains(last, m) || (utf8_len(line) > 10 && utf8_len(last) > 10 && (contains(last, line)
        || contains(line, last)))
}

/// `sent` equals `line`, or one of them, both longer than fifteen bytes,
/// contains the other.
pub open spec fn repeats_line(line: Seq<char>, sent: Seq<char>) -> bool {
    sent == line || (utf8_len(sent) > 15 && utf8_len(line) > 15 && (contains(sent, line)
        || contains(line, sent)))
}

/// One of the last five lines passed on repeats `line`.
pub open spec fn recent_repeat(line: Seq<char>, sent: Seq<Seq<char>>) -> bool {
    exists|j: int|
        window_start(sent.len() as int, 5) <= j < sent.len() && #[trigger] repeats_line(
            line,
            sent[j],
        )
}

/// The error markers from the `k`-th on: each one that `line` contains
/// counts one more error record; the scan stops with `true` at the first
/// such marker seen after more than five error records that the recent
/// lines echo.
pub open spec fn scan_markers(line: Seq<char>, sent: Seq<Seq<char>>, ec: u64, k: int) -> (
    bool,
    u64,
)
    decreases marker_count() - k,
{
    if k >= marker_count() || k < 0 {
        (false, ec)
    } else if contains(line, error_marker(k)) {
        let ec1 = sat_inc(ec);
        if ec1 > 5 && marker_echo(line, sent, error_marker(k)) {
            (true, ec1)
        } else {
            scan_markers(line, sent, ec1, k + 1)
        }
    } else {
        scan_markers(line, sent, ec, k + 1)
    }
}

/// Whether `line` repeats what was recently passed on, and the error count
/// after looking at it.
pub open spec fn duplicate_check(line: Seq<char>, sent: Seq<Seq<char>>, ec: u64) -> (bool, u64) {
    let t = trim(line);
    if t.len() == 0 || utf8_len(t) < 2 {
        (false, ec)
    } else if prompt_like(line) {
        (false, ec)
    } else {
        let (found, ec2) = scan_markers(line, sent, ec, 0);
        if found {
            (true, ec2)
        } else {
            (recent_repeat(line, sent), ec2)
        }
    }
}

/// `l` with `x` added at the end, keeping at most the last twenty entries.
pub open spec fn bounded_push(l: Seq<Seq<char>>, x: Seq<char>) -> Seq<Seq<char>> {
    if l.len() + 1 > HISTORY_LIMIT {
        l.push(x).drop_first()
    } else {
        l.push(x)
    }
}

/// A line that is passed on: its text and, unless it ends in a carriage
/// return, a line feed; a line that is not blank is remembered.
pub open spec fn pass_line(st: LineScan, line: Seq<char>) -> LineScan {
    LineScan {
        send: st.send + line + (if ends_with(line, "\r"@) {
            seq![]
        } else {
            seq!['\n']
        }),
        last_lines: if trim(line).len() > 0 {
            bounded_push(st.last_lines, line)
        } else {
            st.last_lines
        },
        ..st
    }
}

/// A line that is about a command that PowerShell did not find.
pub open spec fn unknown_command_line(line: Seq<char>) -> bool {
    contains(line, "не распознано"@) || contains(line, "CommandNotFound"@) || contains(
        line,
        "ObjectNotFound"@,
    )
}

/// One complete line of output.
pub open spec fn line_step(st: LineScan, line: Seq<char>) -> LineScan {
    if is_prompt_line(line) {
        pass_line(
            LineScan { always_send_next: true, pending_input: true, error_count: 0, ..st },
            line,
        )
    } else {
        let (dup, ec) = duplicate_check(line, st.last_lines, st.error_count);
        if dup {
            LineScan {
                error_count: ec,
                always_send_next: if unknown_command_line(line) {
                    true
                } else {
                    st.always_send_next
                },
                ..st
            }
        } else {
            pass_line(LineScan { error_count: ec, ..st }, line)
        }
    }
}

/// The lines `ls`, first to last.
pub open spec fn scan_lines(st: LineScan, ls: Seq<Seq<char>>) -> LineScan
    decreases ls.len(),
{
    if ls.len() == 0 {
        st
    } else {
        line_step(scan_lines(st, ls.drop_last()), ls.last())
    }
}

/// Whether the `i`-th emission was delivered.
pub open spec fn ack(acks: Seq<bool>, i: int) -> bool {
    0 <= i < acks.len() && acks[i]
}

/// Complete lines in the buffer are scanned and what passes is sent; the
/// unfinished last line stays.
pub open spec fn flush_lines(st: OutputState, now: u64, acks: Seq<bool>, i: int) -> (
    OutputState,
    Seq<Seq<char>>,
) {
    if first_index(st.buffer, '\n') >= 0 {
        let parts = split_on(st.buffer, '\n');
        let open_end = !ends_with(st.buffer, "\n"@);
        let ls = if open_end {
            parts.drop_last()
        } else {
            parts
        };
        let rest = if open_end {
            parts.last()
        } else {
            seq![]
        };
        let scan = scan_lines(
            LineScan {
                send: seq![],
                last_lines: st.last_lines,
                error_count: st.error_count,
                always_send_next: st.always_send_next,
                pending_input: st.pending_input,
            },
            ls,
        );
        let st2 = OutputState {
            last_lines: scan.last_lines,
            error_count: scan.error_count,
            always_send_next: scan.always_send_next,
            pending_input: scan.pending_input,
            buffer: rest,
            ..st
        };
        if scan.send.len() > 0 {
            (
                if ack(acks, i) {
                    OutputState { last_send_ns: now, ..st2 }
                } else {
                    st2
                },
                seq![scan.send],
            )
        } else {
            (st2, seq![])
        }
    } else {
        (st, seq![])
    }
}

/// A buffer larger than the limit is sent as it is.
pub open spec fn flush_overflow(st: OutputState, now: u64, acks: Seq<bool>, i: int) -> (
    OutputState,
    Seq<Seq<char>>,
) {
    if utf8_len(st.buffer) > MAX_BUFFER_SIZE {
        (
            if ack(acks, i) {
                OutputState { last_send_ns: now, buffer: seq![], ..st }
            } else {
                st
            },
            seq![st.buffer],
        )
    } else {
        (st, seq![])
    }
}

/// Whole milliseconds since output was last passed on.
pub open spec fn elapsed_ms(st: OutputState, now: u64) -> int {
    if now >= st.last_send_ns {
        (now - st.last_send_ns) / 1_000_000
    } else {
        0
    }
}

/// A waiting buffer is sent after 100 ms when input is awaited, after 200 ms
/// in any case.
pub open spec fn flush_timed(st: OutputState, now: u64, acks: Seq<bool>, i: int) -> (
    OutputState,
    Seq<Seq<char>>,
) {
    let ms = elapsed_ms(st, now);
    if (ms > 100 && st.buffer.len() > 0 && st.pending_input) || (ms > 200 && st.buffer.len()
        > 0) {
        (
            if ack(acks, i) {
                OutputState { last_send_ns: now, buffer: seq![], ..st }
            } else {
                st
            },
            seq![st.buffer],
        )
    } else {
        (st, seq![])
    }
}

/// The chunk carries a command prompt.
pub open spec fn chunk_has_prompt(chunk: Seq<char>) -> bool {
    contains(chunk, "PS "@) || contains(chunk, "> "@)
}

/// The chunk repeats the last one and is neither a prompt nor the greeting.
pub open spec fn chunk_repeated(st: OutputState, chunk: Seq<char>) -> bool {
    chunk == st.last_raw_chunk && !chunk_has_prompt(chunk) && !contains(chunk, ready_marker())
}

/// The state after the repetition check, for a chunk that is not dropped.
pub open spec fn after_repeat_check(st: OutputState, chunk: Seq<char>) -> OutputState {
    if chunk_repeated(st, chunk) {
        OutputState { repeats: sat_inc(st.repeats), ..st }
    } else {
        OutputState { repeats: 0, last_raw_chunk: chunk, ..st }
    }
}

/// A chunk with a prompt, or one that follows a prompt or an unknown
/// command, is passed on at once; every chunk joins the buffer.
pub open spec fn take_chunk(st: OutputState, chunk: Seq<char>, now: u64, acks: Seq<bool>) -> (
    OutputState,
    Seq<Seq<char>>,
) {
    if chunk_has_prompt(chunk) || st.always_send_next {
        let st2 = if ack(acks, 0) {
            OutputState {
                last_send_ns: now,
                always_send_next: false,
                pending_input: true,
                ..st
            }
        } else {
            st
        };
        (OutputState { buffer: st.buffer + chunk, ..st2 }, seq![chunk])
    } else {
        (OutputState { buffer: st.buffer + chunk, ..st }, seq![])
    }
}

/// What one chunk of output does: the new state and the texts passed on,
/// given which of the emissions were delivered (`acks`, in order).
pub open spec fn chunk_outcome(st: OutputState, chunk: Seq<char>, now: u64, acks: Seq<bool>) -> (
    OutputState,
    Seq<Seq<char>>,
) {
    if chunk_repeated(st, chunk) && sat_inc(st.repeats) > 2 {
        (OutputState { repeats: sat_inc(st.repeats), ..st }, seq![])
    } else {
        let s1 = after_repeat_check(st, chunk);
        let (s2, e1) = take_chunk(s1, chunk, now, acks);
        let (s3, e2) = flush_lines(s2, now, acks, e1.len() as int);
        let (s4, e3) = flush_overflow(s3, now, acks, (e1.len() + e2.len()) as int);
        let (s5, e4) = flush_timed(s4, now, acks, (e1.len() + e2.len() + e3.len()) as int);
        (s5, e1 + e2 + e3 + e4)
    }
}

/// The filter of one terminal.
pub struct TerminalOutput {
    last_lines: Vec<Vec<char>>,
    current_buffer: Vec<char>,
    last_send_ns: u64,
    always_send_next: bool,
    error_count: u64,
    pending_input: bool,
    last_raw_chunk: Vec<char>,
    repeats: u64,
}

impl View for TerminalOutput {
    type V = OutputState;

    closed spec fn view(&self) -> OutputState {
        OutputState {
            last_lines: views(self.last_lines@),
            buffer: self.current_buffer@,
            last_send_ns: self.last_send_ns,
            always_send_next: self.always_send_next,
            error_count: self.error_count,
            pending_input: self.pending_input,
            last_raw_chunk: self.last_raw_chunk@,
            repeats: self.repeats,
        }
    }
}

/// The state's history holds at most twenty lines.
pub open spec fn output_wf(st: OutputState) -> bool {
    st.last_lines.len() <= HISTORY_LIMIT
}

/// The text of error marker `k`.
fn error_marker_text(k: usize) -> (r: &'static str)
    requires
        k < 9,
    ensures
        r@ == error_marker(k as int),
{
    match k {
        0 => "CommandNotFoundException",
        1 => "ObjectNotFound",
        2 => "CategoryInfo",
        3 => "FullyQualifiedErrorId",
        4 => "+ CategoryInfo",
        5 => "+ FullyQualifiedErrorId",
        6 => "не распознано как имя",
        7 => "Проверьте правильность",
        _ => "строка:",
    }
}

fn sat_inc_exec(x: u64) -> (r: u64)
    ensures
        r == sat_inc(x),
{
    if x < u64::MAX {
        x + 1
    } else {
        x
    }
}

/// Whether one of the last ten remembered lines echoes the marker `m` of `line`.
fn has_marker_echo(line: &[char], sent: &[Vec<char>], m: &[char]) -> (r: bool)
    ensures
        r == marker_echo(line@, views(sent@), m@),
{
    let line_len = utf8_len_of(line);
    let start = if sent.len() > 10 {
        sent.len() - 10
    } else {
        0
    };
    let mut j = start;
    while j < sent.len()
        invariant
            start <= j <= sent.len(),
            start == window_start(sent@.len() as int, 10),
            line_len == utf8_len(line@),
            forall|k: int| start <= k < j ==> !echoes(line@, #[trigger] views(sent@)[k], m@),
        decreases sent.len() - j,
    {
        let last = &sent[j];
        let last_len = utf8_len_of(last);
        let hit = contains_chars(last, m) || (line_len > 10 && last_len > 10 && (contains_chars(
            last,
            line,
        ) || contains_chars(line, last)));
        assert(views(sent@)[j as int] == last@);
        if hit {
            assert(echoes(line@, views(sent@)[j as int], m@));
            return true;
        }
        j = j + 1;
    }
    false
}

/// Whether one of the last five remembered lines repeats `line`.
fn has_recent_repeat(line: &[char], sent: &[Vec<char>]) -> (r: bool)
    ensures
        r == recent_repeat(line@, views(sent@)),
{
    let line_len = utf8_len_of(line);
    let start = if sent.len() > 5 {
        sent.len() - 5
    } else {
        0
    };
    let mut j = start;
    while j < sent.len()
        invariant
            start <= j <= sent.len(),
            start == window_start(sent@.len() as int, 5),
            line_len == utf8_len(line@),
            forall|k: int| start <= k < j ==> !repeats_line(line@, #[trigger] views(sent@)[k]),
        decreases sent.len() - j,
    {
        let s = &sent[j];
        let s_len = utf8_len_of(s);
        let hit = chars_eq(s, line) || (s_len > 15 && line_len > 15 && (contains_chars(s, line)
            || contains_chars(line, s)));
        assert(views(sent@)[j as int] == s@);
        if hit {
            assert(repeats_line(line@, views(sent@)[j as int]));
            return true;
        }
        j = j + 1;
    }
    false
}

/// Whether `line` repeats what was recently passed on (`sent_lines`, oldest
/// first), counting the error records it carries into `error_count`.
pub fn is_duplicate_line(line: &[char], sent_lines: &[Vec<char>], error_count: &mut u64) -> (r:
    bool)
    ensures
        (r, *final(error_count)) == duplicate_check(line@, views(sent_lines@), *old(error_count)),
{
    let t = trim_chars(line);
    if t.len() == 0 || utf8_len_of(&t) < 2 {
        return false;
    }
    if contains_str(line, "PS ") || ends_with_str(line, ">") || ends_with_str(line, "> ")
        || contains_str(line, "готов к работе") {
        return false;
    }
    let ghost sent = views(sent_lines@);
    let ghost ec0 = *error_count;
    let mut k: usize = 0;
    while k < 9
        invariant
            k <= 9,
            sent == views(sent_lines@),
            ec0 == *old(error_count),
            trim(line@).len() != 0,
            utf8_len(trim(line@)) >= 2,
            !prompt_like(line@),
            scan_markers(line@, sent, ec0, 0) == scan_markers(line@, sent, *error_count, k as int),
        decreases 9 - k,
    {
        let m = to_chars(error_marker_text(k));
        let ghost ecb = *error_count;
        if contains_chars(line, &m) {
            *error_count = sat_inc_exec(*error_count);
            if *error_count > 5 && has_marker_echo(line, sent_lines, &m) {
                assert(scan_markers(line@, sent, ecb, k as int) == (true, *error_count));
                return true;
            }
        }
        k = k + 1;
    }
    has_recent_repeat(line, sent_lines)
}

/// Appends `x` to `l`, keeping at most the last twenty entries.
fn bounded_push_exec(l: &mut Vec<Vec<char>>, x: Vec<char>)
    ensures
        views(final(l)@) == bounded_push(views(old(l)@), x@),
{
    l.push(x);
    assert(views(l@) =~= views(old(l)@).push(x@));
    if l.len() > HISTORY_LIMIT {
        l.remove(0);
        assert(views(l@) =~= views(old(l)@).push(x@).drop_first());
    }
}

impl TerminalOutput {
    /// The filter of a terminal that was just started at time `now_ns`: the
    /// first chunk is passed on as it is.
    pub fn new(now_ns: u64) -> (r: TerminalOutput)
        ensures
            r@ == (OutputState {
                last_lines: seq![],
                buffer: seq![],
                last_send_ns: now_ns,
                always_send_next: true,
                error_count: 0,
                pending_input: false,
                last_raw_chunk: seq![],
                repeats: 0,
            }),
    {
        let r = TerminalOutput {
            last_lines: Vec::new(),
            current_buffer: Vec::new(),
            last_send_ns: now_ns,
            always_send_next: true,
            error_count: 0,
            pending_input: false,
            last_raw_chunk: Vec::new(),
            repeats: 0,
        };
        assert(views(r.last_lines@) =~= seq![]);
        r
    }

    /// Scans the complete lines `ls`, returning what passes.
    fn scan(&mut self, ls: &Vec<Vec<char>>) -> (send: Vec<char>)
        ensures
            ({
                let s = scan_lines(
                    LineScan {
                        send: seq![],
                        last_lines: old(self)@.last_lines,
                        error_count: old(self)@.error_count,
                        always_send_next: old(self)@.always_send_next,
                        pending_input: old(self)@.pending_input,
                    },
                    views(ls@),
                );
                &&& send@ == s.send
                &&& final(self)@ == OutputState {
                    last_lines: s.last_lines,
                    error_count: s.error_count,
                    always_send_next: s.always_send_next,
                    pending_input: s.pending_input,
                    ..old(self)@
                }
            }),
    {
        let ghost st0 = LineScan {
            send: seq![],
            last_lines: self@.last_lines,
            error_count: self@.error_count,
            always_send_next: self@.always_send_next,
            pending_input: self@.pending_input,
        };
        let mut send: Vec<char> = Vec::new();
        let mut i: usize = 0;
        while i < ls.len()
            invariant
                i <= ls.len(),
                scan_lines(st0, views(ls@).take(i as int)) == (LineScan {
                    send: send@,
                    last_lines: self@.last_lines,
                    error_count: self@.error_count,
                    always_send_next: self@.always_send_next,
                    pending_input: self@.pending_input,
                }),
                self.current_buffer == old(self).current_buffer,
                self.last_send_ns == old(self).last_send_ns,
                self.last_raw_chunk == old(self).last_raw_chunk,
                self.repeats == old(self).repeats,
            decreases ls.len() - i,
        {
            let line = &ls[i];
            let ghost prev = LineScan {
                send: send@,
                last_lines: self@.last_lines,
                error_count: self@.error_count,
                always_send_next: self@.always_send_next,
                pending_input: self@.pending_input,
            };
            proof {
                assert(views(ls@).take(i + 1).drop_last() =~= views(ls@).take(i as int));
                assert(views(ls@).take(i + 1).last() == line@);
            }
            let is_prompt = contains_str(line, "PS ") || contains_str(line, "> ") || contains_str(
                line,
                "готов к работе",
            );
            let mut pass = true;
            if !is_prompt {
                let dup = is_duplicate_line(line, &self.last_lines, &mut self.error_count);
                if dup {
                    if contains_str(line, "не распознано") || contains_str(line, "CommandNotFound")
                        || contains_str(line, "ObjectNotFound") {
                        self.always_send_next = true;
                    }
                    pass = false;
                }
            } else {
                self.always_send_next = true;
                self.pending_input = true;
                self.error_count = 0;
            }
            let ghost mid = LineScan {
                send: send@,
                last_lines: self@.last_lines,
                error_count: self@.error_count,
                always_send_next: self@.always_send_next,
                pending_input: self@.pending_input,
            };
            if pass {
                push_all(&mut send, line);
                if !ends_with_str(line, "\r") {
                    send.push('\n');
                    assert(send@ =~= mid.send + line@ + seq!['\n']);
                } else {
                    assert(send@ =~= mid.send + line@ + seq![]);
                }
                let t = trim_chars(line);
                if t.len() > 0 {
                    let copy = slice_chars(line, 0, line.len());
                    assert(copy@ =~= line@);
                    bounded_push_exec(&mut self.last_lines, copy);
                }
                assert(pass_line(mid, line@) == (LineScan {
                    send: send@,
                    last_lines: self@.last_lines,
                    error_count: self@.error_count,
                    always_send_next: self@.always_send_next,
                    pending_input: self@.pending_input,
                }));
            }
            assert(line_step(prev, line@) == (LineScan {
                send: send@,
                last_lines: self@.last_lines,
                error_count: self@.error_count,
                always_send_next: self@.always_send_next,
                pending_input: self@.pending_input,
            }));
            i = i + 1;
        }
        assert(views(ls@).take(ls@.len() as int) =~= views(ls@));
        send
    }

    /// Scans the complete lines of the buffer; what passes is the text to
    /// send, and the unfinished last line stays in the buffer. The state
    /// is the one for a text that was not delivered.
    fn flush_lines_exec(&mut self, now_ns: u64) -> (r: Option<Vec<char>>)
        requires
            output_wf(old(self)@),
        ensures
            output_wf(final(self)@),
            final(self)@ == flush_lines(old(self)@, now_ns, seq![false], 0).0,
            opt_texts(r) == flush_lines(old(self)@, now_ns, seq![false], 0).1,
    {
        match find_char(&self.current_buffer, '\n') {
            None => None,
            Some(_) => {
                let parts = split_char(&self.current_buffer, '\n');
                let open_end = !ends_with_str(&self.current_buffer, "\n");
                let mut ls = parts;
                let rest: Vec<char> = if open_end {
                    match ls.pop() {
                        Some(r) => r,
                        None => Vec::new(),
                    }
                } else {
                    Vec::new()
                };
                proof {
                    let p = split_on(old(self)@.buffer, '\n');
                    lemma_split_on_nonempty(old(self)@.buffer, '\n');
                    if open_end {
                        assert(views(ls@) =~= p.drop_last());
                        assert(rest@ == p.last());
                    } else {
                        assert(views(ls@) =~= p);
                        assert(rest@ =~= seq![]);
                    }
                }
                let send = self.scan(&ls);
                proof {
                    lemma_scan_bounded(
                        LineScan {
                            send: seq![],
                            last_lines: old(self)@.last_lines,
                            error_count: old(self)@.error_count,
                            always_send_next: old(self)@.always_send_next,
                            pending_input: old(self)@.pending_input,
                        },
                        views(ls@),
                    );
                }
                self.current_buffer = rest;
                if send.len() > 0 {
                    Some(send)
                } else {
                    None
                }
            },
        }
    }

    /// A chunk with a prompt, or one that follows a prompt or an unknown
    /// command, is the text to send at once; every chunk joins the buffer.
    /// The state is the one for a text that was not delivered.
    fn take_chunk_exec(&mut self, chunk: &[char], now_ns: u64) -> (r: Option<Vec<char>>)
        ensures
            final(self)@.last_lines == old(self)@.last_lines,
            final(self)@ == take_chunk(old(self)@, chunk@, now_ns, seq![false]).0,
            opt_texts(r) == take_chunk(old(self)@, chunk@, now_ns, seq![false]).1,
    {
        let has_prompt = contains_str(chunk, "PS ") || contains_str(chunk, "> ");
        let r = if has_prompt || self.always_send_next {
            Some(slice_chars(chunk, 0, chunk.len()))
        } else {
            None
        };
        assert(chunk@.subrange(0, chunk@.len() as int) =~= chunk@);
        push_all(&mut self.current_buffer, chunk);
        r
    }

    /// The buffer as it is, to send when it has grown past the limit.
    fn flush_overflow_exec(&self, now_ns: u64) -> (r: Option<Vec<char>>)
        ensures
            self@ == flush_overflow(self@, now_ns, seq![false], 0).0,
            opt_texts(r) == flush_overflow(self@, now_ns, seq![false], 0).1,
    {
        assert(self.current_buffer@.subrange(0, self.current_buffer@.len() as int)
            =~= self.current_buffer@);
        if utf8_len_of(&self.current_buffer) > MAX_BUFFER_SIZE as u128 {
            Some(slice_chars(&self.current_buffer, 0, self.current_buffer.len()))
        } else {
            None
        }
    }

    /// A waiting buffer, to send after 100 ms when input is awaited, after
    /// 200 ms in any case.
    fn flush_timed_exec(&self, now_ns: u64) -> (r: Option<Vec<char>>)
        ensures
            self@ == flush_timed(self@, now_ns, seq![false], 0).0,
            opt_texts(r) == flush_timed(self@, now_ns, seq![false], 0).1,
    {
        let ms: u64 = if now_ns >= self.last_send_ns {
            (now_ns - self.last_send_ns) / 1_000_000
        } else {
            0
        };
        let waiting = self.current_buffer.len() > 0;
        assert(self.current_buffer@.subrange(0, self.current_buffer@.len() as int)
            =~= self.current_buffer@);
        if (ms > 100 && waiting && self.pending_input) || (ms > 200 && waiting) {
            Some(slice_chars(&self.current_buffer, 0, self.current_buffer.len()))
        } else {
            None
        }
    }

    /// Starts on a chunk of bytes read from the terminal at time `now_ns`:
    /// a chunk that comes a fourth time in a row is dropped (the run is
    /// done at once); any other starts its phases.
    pub fn begin_chunk(&mut self, bytes: &[u8], now_ns: u64) -> (run: ChunkRun)
        requires
            output_wf(old(self)@),
        ensures
            output_wf(final(self)@),
            run.chunk@ == utf8_lossy_decoding(bytes@),
            run.now_ns == now_ns,
            !run.awaiting,
            chunk_repeated(old(self)@, run.chunk@) && sat_inc(old(self)@.repeats) > 2 ==> run.stage
                == ChunkStage::Done && final(self)@ == (OutputState {
                repeats: sat_inc(old(self)@.repeats),
                ..old(self)@
            }),
            !(chunk_repeated(old(self)@, run.chunk@) && sat_inc(old(self)@.repeats) > 2)
                ==> run.stage == ChunkStage::Take && final(self)@ == after_repeat_check(
                old(self)@,
                run.chunk@,
            ),
    {
        let text = utf8_lossy(bytes);
        let chunk = to_chars(text.as_str());
        let has_prompt = contains_str(&chunk, "PS ") || contains_str(&chunk, "> ");
        let repeated = chars_eq(&chunk, &self.last_raw_chunk) && !has_prompt && !contains_str(
            &chunk,
            "готов к работе",
        );
        if repeated {
            self.repeats = sat_inc_exec(self.repeats);
            if self.repeats > 2 {
                return ChunkRun { stage: ChunkStage::Done, awaiting: false, chunk, now_ns };
            }
        } else {
            self.repeats = 0;
            self.last_raw_chunk = slice_chars(&chunk, 0, chunk.len());
            assert(self.last_raw_chunk@ =~= chunk@);
        }
        ChunkRun { stage: ChunkStage::Take, awaiting: false, chunk, now_ns }
    }

    /// Runs the current phase of `run` up to its text: gives the text to
    /// send now, if the phase has one. The state is the one for a text that
    /// was not delivered; [`TerminalOutput::phase_delivered`] then records
    /// the delivery and moves to the next phase.
    pub fn phase_text(&mut self, run: &mut ChunkRun) -> (r: Option<String>)
        requires
            output_wf(old(self)@),
            old(run).stage != ChunkStage::Done,
            !old(run).awaiting,
        ensures
            output_wf(final(self)@),
            final(self)@ == phase_out(
                old(run).stage,
                old(self)@,
                old(run).chunk@,
                old(run).now_ns,
                false,
            ).0,
            opt_string_texts(r) == phase_out(
                old(run).stage,
                old(self)@,
                old(run).chunk@,
                old(run).now_ns,
                false,
            ).1,
            final(run).awaiting == r is Some,
            final(run).stage == old(run).stage,
            final(run).chunk@ == old(run).chunk@,
            final(run).now_ns == old(run).now_ns,
    {
        let t = match run.stage {
            ChunkStage::Take => self.take_chunk_exec(&run.chunk, run.now_ns),
            ChunkStage::Lines => self.flush_lines_exec(run.now_ns),
            ChunkStage::Overflow => self.flush_overflow_exec(run.now_ns),
            _ => self.flush_timed_exec(run.now_ns),
        };
        match t {
            Some(v) => {
                run.awaiting = true;
                Some(from_chars(&v))
            },
            None => None,
        }
    }

    /// Records whether the text of the current phase was delivered (a
    /// delivered text counts as sent: its time is kept and, for a buffer,
    /// the buffer is emptied) and moves to the next phase.
    pub fn phase_delivered(&mut self, run: &mut ChunkRun, delivered: bool)
        requires
            output_wf(old(self)@),
            old(run).stage != ChunkStage::Done,
        ensures
            output_wf(final(self)@),
            final(self)@ == if old(run).awaiting && delivered {
                delivered_update(old(run).stage, old(self)@, old(run).now_ns)
            } else {
                old(self)@
            },
            final(run).stage == next_stage(old(run).stage),
            !final(run).awaiting,
            final(run).chunk@ == old(run).chunk@,
            final(run).now_ns == old(run).now_ns,
    {
        if run.awaiting && delivered {
            match run.stage {
                ChunkStage::Take => {
                    self.last_send_ns = run.now_ns;
                    self.always_send_next = false;
                    self.pending_input = true;
                },
                ChunkStage::Lines => {
                    self.last_send_ns = run.now_ns;
                },
                _ => {
                    self.last_send_ns = run.now_ns;
                    self.current_buffer.clear();
                    assert(self.current_buffer@ =~= seq![]);
                },
            }
        }
        run.awaiting = false;
        run.stage = match run.stage {
            ChunkStage::Take => ChunkStage::Lines,
            ChunkStage::Lines => ChunkStage::Overflow,
            ChunkStage::Overflow => ChunkStage::Timed,
            _ => ChunkStage::Done,
        };
    }
}

/// The phases of one chunk, in order.
#[derive(Clone, Copy, PartialEq, Eq, Structural)]
pub enum ChunkStage {
    /// The chunk itself, sent at once after a prompt.
    Take,
    /// The complete lines of the buffer that pass the filter.
    Lines,
    /// The buffer, when it has grown past its limit.
    Overflow,
    /// The buffer, when it has waited long enough.
    Timed,
    Done,
}

/// A chunk on its way through the phases.
pub struct ChunkRun {
    pub stage: ChunkStage,
    /// The text of the current phase was handed out and awaits its answer.
    pub awaiting: bool,
    pub chunk: Vec<char>,
    pub now_ns: u64,
}

/// The phase after `stage`.
pub open spec fn next_stage(stage: ChunkStage) -> ChunkStage {
    match stage {
        ChunkStage::Take => ChunkStage::Lines,
        ChunkStage::Lines => ChunkStage::Overflow,
        ChunkStage::Overflow => ChunkStage::Timed,
        _ => ChunkStage::Done,
    }
}

/// What a phase does: the new state and the texts it sends (none or one),
/// given whether its text was delivered.
pub open spec fn phase_out(
    stage: ChunkStage,
    st: OutputState,
    chunk: Seq<char>,
    now: u64,
    delivered: bool,
) -> (OutputState, Seq<Seq<char>>) {
    match stage {
        ChunkStage::Take => take_chunk(st, chunk, now, seq![delivered]),
        ChunkStage::Lines => flush_lines(st, now, seq![delivered], 0),
        ChunkStage::Overflow => flush_overflow(st, now, seq![delivered], 0),
        ChunkStage::Timed => flush_timed(st, now, seq![delivered], 0),
        ChunkStage::Done => (st, seq![]),
    }
}

/// What a delivered text changes in the state that its phase left.
pub open spec fn delivered_update(stage: ChunkStage, st: OutputState, now: u64) -> OutputState {
    match stage {
        ChunkStage::Take => OutputState {
            last_send_ns: now,
            always_send_next: false,
            pending_input: true,
            ..st
        },
        ChunkStage::Lines => OutputState { last_send_ns: now, ..st },
        _ => OutputState { last_send_ns: now, buffer: seq![], ..st },
    }
}

/// The texts of an optional character vector.
pub open spec fn opt_texts(r: Option<Vec<char>>) -> Seq<Seq<char>> {
    match r {
        Some(v) => seq![v@],
        None => seq![],
    }
}

/// The texts of an optional string.
pub open spec fn opt_string_texts(r: Option<String>) -> Seq<Seq<char>> {
    match r {
        Some(v) => seq![v@],
        None => seq![],
    }
}

/// Handing out a phase's text and then recording its delivery gives what
/// the phase does for that delivery: a phase without a text ignores the
/// answer, and a delivered text adds exactly the delivery update.
pub proof fn lemma_phase_then_delivery(
    stage: ChunkStage,
    st: OutputState,
    chunk: Seq<char>,
    now: u64,
    delivered: bool,
)
    requires
        stage != ChunkStage::Done,
    ensures
        ({
            let (pre, texts) = phase_out(stage, st, chunk, now, false);
            &&& texts == phase_out(stage, st, chunk, now, delivered).1
            &&& texts.len() <= 1
            &&& phase_out(stage, st, chunk, now, delivered).0 == if texts.len() == 1 && delivered {
                delivered_update(stage, pre, now)
            } else {
                pre
            }
        }),
{
}

/// The phases in order, each given the answer for its own text, make what
/// the whole chunk does (`chunk_outcome`, where `acks` are the answers to
/// the texts in the order they were sent).
pub proof fn lemma_phases_make_outcome(st: OutputState, chunk: Seq<char>, now: u64, acks: Seq<bool>)
    requires
        !(chunk_repeated(st, chunk) && sat_inc(st.repeats) > 2),
    ensures
        ({
            let s1 = after_repeat_check(st, chunk);
            let (s2, e1) = phase_out(ChunkStage::Take, s1, chunk, now, ack(acks, 0));
            let (s3, e2) = phase_out(ChunkStage::Lines, s2, chunk, now, ack(acks, e1.len() as int));
            let (s4, e3) = phase_out(
                ChunkStage::Overflow,
                s3,
                chunk,
                now,
                ack(acks, (e1.len() + e2.len()) as int),
            );
            let (s5, e4) = phase_out(
                ChunkStage::Timed,
                s4,
                chunk,
                now,
                ack(acks, (e1.len() + e2.len() + e3.len()) as int),
            );
            chunk_outcome(st, chunk, now, acks) == (s5, e1 + e2 + e3 + e4)
        }),
{
    let s1 = after_repeat_check(st, chunk);
    let a0 = ack(acks, 0);
    assert(ack(seq![a0], 0) == a0);
    let (s2, e1) = take_chunk(s1, chunk, now, acks);
    let i1 = e1.len() as int;
    assert(ack(seq![ack(acks, i1)], 0) == ack(acks, i1));
    let (s3, e2) = flush_lines(s2, now, acks, i1);
    let i2 = (e1.len() + e2.len()) as int;
    assert(ack(seq![ack(acks, i2)], 0) == ack(acks, i2));
    let (s4, e3) = flush_overflow(s3, now, acks, i2);
    let i3 = (e1.len() + e2.len() + e3.len()) as int;
    assert(ack(seq![ack(acks, i3)], 0) == ack(acks, i3));
}

/// Scanning lines keeps the history within its limit.
pub proof fn lemma_scan_bounded(st: LineScan, ls: Seq<Seq<char>>)
    requires
        st.last_lines.len() <= HISTORY_LIMIT,
    ensures
        scan_lines(st, ls).last_lines.len() <= HISTORY_LIMIT,
    decreases ls.len(),
{
    if ls.len() > 0 {
        lemma_scan_bounded(st, ls.drop_last());
    }
}

/// `split_on` always yields at least one piece.
pub proof fn lemma_split_on_nonempty(s: Seq<char>, c: char)
    ensures
        split_on(s, c).len() >= 1,
    decreases s.len(),
{
    let i = first_index(s, c);
    if i >= 0 {
        lemma_first_index_bounds(s, c);
        lemma_split_on_nonempty(s.skip(i + 1), c);
    }
}


/// A command prompt is never dropped: a prompt line is passed on in full,
/// and input is then awaited.
pub proof fn lemma_prompt_line_passes(st: LineScan, line: Seq<char>)
    requires
        is_prompt_line(line),
    ensures
        line_step(st, line).send == st.send + line + (if ends_with(line, "\r"@) {
            seq![]
        } else {
            seq!['\n']
        }),
        line_step(st, line).pending_input,
        line_step(st, line).error_count == 0,
{
}

/// A chunk that carries a prompt is passed on at once, in full, before
/// anything else of it.
pub proof fn lemma_prompt_chunk_passes(st: OutputState, chunk: Seq<char>, now: u64, acks: Seq<bool>)
    requires
        chunk_has_prompt(chunk),
    ensures
        chunk_outcome(st, chunk, now, acks).1.len() >= 1,
        chunk_outcome(st, chunk, now, acks).1[0] == chunk,
{
    let s1 = after_repeat_check(st, chunk);
    let (s2, e1) = take_chunk(s1, chunk, now, acks);
    let (s3, e2) = flush_lines(s2, now, acks, e1.len() as int);
    let (s4, e3) = flush_overflow(s3, now, acks, (e1.len() + e2.len()) as int);
    let (s5, e4) = flush_timed(s4, now, acks, (e1.len() + e2.len() + e3.len()) as int);
    assert(e1 == seq![chunk]);
    assert((e1 + e2 + e3 + e4)[0] == chunk);
}

/// A chunk that comes a fourth time in a row (and is neither a prompt nor
/// the greeting) is dropped, and the state only counts it.
pub proof fn lemma_repeated_chunk_dropped(st: OutputState, chunk: Seq<char>, now: u64, acks: Seq<bool>)
    requires
        chunk_repeated(st, chunk),
        st.repeats >= 2,
    ensures
        chunk_outcome(st, chunk, now, acks).1.len() == 0,
        chunk_outcome(st, chunk, now, acks).0 == (OutputState { repeats: sat_inc(st.repeats), ..st }),
{
}

/// The history of passed lines never holds more than twenty lines.
pub proof fn lemma_chunk_keeps_history_bounded(st: OutputState, chunk: Seq<char>, now: u64, acks: Seq<bool>)
    requires
        output_wf(st),
    ensures
        output_wf(chunk_outcome(st, chunk, now, acks).0),
{
    if !(chunk_repeated(st, chunk) && sat_inc(st.repeats) > 2) {
        let s1 = after_repeat_check(st, chunk);
        let (s2, e1) = take_chunk(s1, chunk, now, acks);
        if first_index(s2.buffer, '\n') >= 0 {
            let parts = split_on(s2.buffer, '\n');
            let open_end = !ends_with(s2.buffer, "\n"@);
            let ls = if open_end {
                parts.drop_last()
            } else {
                parts
            };
            lemma_scan_bounded(
                LineScan {
                    send: seq![],
                    last_lines: s2.last_lines,
                    error_count: s2.error_count,
                    always_send_next: s2.always_send_next,
                    pending_input: s2.pending_input,
                },
                ls,
            );
        }
    }
}

} // verus!
