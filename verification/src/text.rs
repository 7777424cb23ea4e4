//! Character-level text handling: the pieces of `str` that the parsers of
//! command output rely on, each with a specification over `Seq<char>`.
use vstd::prelude::*;

verus! {

// ---------------------------------------------------------------------------
// Specifications
// ---------------------------------------------------------------------------

/// The Unicode `White_Space` property, as `char::is_whitespace` decides it.
pub open spec fn is_ws(c: char) -> bool {
    ('\u{9}' <= c && c <= '\u{d}') || c == ' ' || c == '\u{85}' || c == '\u{a0}'
        || c == '\u{1680}' || ('\u{2000}' <= c && c <= '\u{200a}') || c == '\u{2028}'
        || c == '\u{2029}' || c == '\u{202f}' || c == '\u{205f}' || c == '\u{3000}'
}

/// `s` without its leading white space.
pub open spec fn trim_start(s: Seq<char>) -> Seq<char>
    decreases s.len(),
{
    if s.len() > 0 && is_ws(s[0]) {
        trim_start(s.drop_first())
    } else {
        s
    }
}

/// `s` without its trailing white space.
pub open spec fn trim_end(s: Seq<char>) -> Seq<char>
    decreases s.len(),
{
    if s.len() > 0 && is_ws(s.last()) {
        trim_end(s.drop_last())
    } else {
        s
    }
}

/// `s` without leading and trailing white space (`str::trim`).
pub open spec fn trim(s: Seq<char>) -> Seq<char> {
    trim_end(trim_start(s))
}

/// The index of the first occurrence of `c` in `s`, or -1.
pub open spec fn first_index(s: Seq<char>, c: char) -> int
    decreases s.len(),
{
    if s.len() == 0 {
        -1
    } else if s[0] == c {
        0
    } else {
        let r = first_index(s.drop_first(), c);
        if r < 0 {
            -1
        } else {
            r + 1
        }
    }
}

/// The index of the first white-space character of `s`, or -1.
pub open spec fn first_ws(s: Seq<char>) -> int
    decreases s.len(),
{
    if s.len() == 0 {
        -1
    } else if is_ws(s[0]) {
        0
    } else {
        let r = first_ws(s.drop_first());
        if r < 0 {
            -1
        } else {
            r + 1
        }
    }
}

/// `str::split` on one character: the pieces between occurrences of `c`.
pub open spec fn split_on(s: Seq<char>, c: char) -> Seq<Seq<char>>
    decreases s.len(),
{
    let i = first_index(s, c);
    if i < 0 {
        seq![s]
    } else {
        proof {
            lemma_first_index_bounds(s, c);
        }
        seq![s.take(i)] + split_on(s.skip(i + 1), c)
    }
}

/// A line without the carriage return that preceded its line feed.
pub open spec fn strip_cr(s: Seq<char>) -> Seq<char> {
    if s.len() > 0 && s.last() == '\r' {
        s.drop_last()
    } else {
        s
    }
}

/// `str::lines`: the text split at `\n` and `\r\n`, where a final line
/// ending adds no empty line.
pub open spec fn lines(s: Seq<char>) -> Seq<Seq<char>>
    decreases s.len(),
{
    if s.len() == 0 {
        seq![]
    } else {
        let i = first_index(s, '\n');
        if i < 0 {
            seq![s]
        } else {
            proof {
                lemma_first_index_bounds(s, '\n');
            }
            seq![strip_cr(s.take(i))] + lines(s.skip(i + 1))
        }
    }
}

/// `str::split_whitespace`: the non-empty runs of non-white-space characters.
pub open spec fn words(s: Seq<char>) -> Seq<Seq<char>>
    decreases s.len(),
{
    let t = trim_start(s);
    if t.len() == 0 {
        seq![]
    } else {
        let i = first_ws(t);
        if i < 0 {
            seq![t]
        } else {
            proof {
                lemma_trim_start_props(s);
                lemma_first_ws_props(t);
            }
            seq![t.take(i)] + words(t.skip(i))
        }
    }
}

/// `p` occurs in `s` at position `i`.
pub open spec fn occurs_at(s: Seq<char>, p: Seq<char>, i: int) -> bool {
    0 <= i && i + p.len() <= s.len() && s.subrange(i, i + p.len()) == p
}

/// `str::contains` with a string pattern.
pub open spec fn contains(s: Seq<char>, p: Seq<char>) -> bool {
    exists|i: int| occurs_at(s, p, i)
}

/// `str::starts_with` with a string pattern.
pub open spec fn starts_with(s: Seq<char>, p: Seq<char>) -> bool {
    p.len() <= s.len() && s.take(p.len() as int) == p
}

/// `str::ends_with` with a string pattern.
pub open spec fn ends_with(s: Seq<char>, p: Seq<char>) -> bool {
    p.len() <= s.len() && s.skip(s.len() - p.len()) == p
}

/// The views of a sequence of character vectors.
pub open spec fn views(v: Seq<Vec<char>>) -> Seq<Seq<char>> {
    v.map_values(|x: Vec<char>| x@)
}


/// Whether every character of `s` is an ASCII digit.
pub open spec fn all_digits(s: Seq<char>) -> bool {
    forall|i: int| 0 <= i < s.len() ==> '0' <= #[trigger] s[i] && s[i] <= '9'
}

/// The number that the ASCII digits `s` write in decimal.
pub open spec fn digits_value(s: Seq<char>) -> nat
    decreases s.len(),
{
    if s.len() == 0 {
        0
    } else {
        10 * digits_value(s.drop_last()) + ((s.last() as int - '0' as int) as nat)
    }
}

/// The number that `str::parse` reads from `s` for an unsigned type of
/// unbounded width: an optional `+`, then one or more ASCII digits.
pub open spec fn parse_nat(s: Seq<char>) -> Option<nat> {
    let body = if s.len() > 0 && s[0] == '+' {
        s.drop_first()
    } else {
        s
    };
    if body.len() > 0 && all_digits(body) {
        Some(digits_value(body))
    } else {
        None
    }
}

/// `str::parse::<u64>`.
pub open spec fn parse_u64_spec(s: Seq<char>) -> Option<u64> {
    match parse_nat(s) {
        Some(n) => if n <= u64::MAX {
            Some(n as u64)
        } else {
            None
        },
        None => None,
    }
}

/// `str::parse::<usize>`.
pub open spec fn parse_usize_spec(s: Seq<char>) -> Option<usize> {
    match parse_nat(s) {
        Some(n) => if n <= usize::MAX {
            Some(n as usize)
        } else {
            None
        },
        None => None,
    }
}

/// `str::parse::<u32>`.
pub open spec fn parse_u32_spec(s: Seq<char>) -> Option<u32> {
    match parse_nat(s) {
        Some(n) => if n <= u32::MAX {
            Some(n as u32)
        } else {
            None
        },
        None => None,
    }
}

// ---------------------------------------------------------------------------
// Lemmas
// ---------------------------------------------------------------------------

/// `first_index` is -1 or the position of the first `c`.
pub proof fn lemma_first_index_bounds(s: Seq<char>, c: char)
    ensures
        -1 <= first_index(s, c) < s.len(),
        first_index(s, c) >= 0 ==> s[first_index(s, c)] == c,
        forall|k: int| 0 <= k < s.len() && (first_index(s, c) < 0 || k < first_index(s, c))
            ==> #[trigger] s[k] != c,
    decreases s.len(),
{
    if s.len() > 0 && s[0] != c {
        lemma_first_index_bounds(s.drop_first(), c);
        assert forall|k: int|
            0 <= k < s.len() && (first_index(s, c) < 0 || k < first_index(s, c)) implies #[trigger] s[k]
            != c by {
            if k > 0 {
                assert(s[k] == s.drop_first()[k - 1]);
            }
        }
    }
}

/// `first_ws` is -1 or the position of the first white-space character.
pub proof fn lemma_first_ws_props(s: Seq<char>)
    ensures
        -1 <= first_ws(s) < s.len(),
        first_ws(s) >= 0 ==> is_ws(s[first_ws(s)]),
        forall|k: int| 0 <= k < s.len() && (first_ws(s) < 0 || k < first_ws(s))
            ==> !is_ws(#[trigger] s[k]),
    decreases s.len(),
{
    if s.len() > 0 && !is_ws(s[0]) {
        lemma_first_ws_props(s.drop_first());
        assert forall|k: int| 0 <= k < s.len() && (first_ws(s) < 0 || k < first_ws(s)) implies !is_ws(
            #[trigger] s[k],
        ) by {
            if k > 0 {
                assert(s[k] == s.drop_first()[k - 1]);
            }
        }
    }
}

/// `trim_start` drops a prefix of white space and leaves no white space in front.
pub proof fn lemma_trim_start_props(s: Seq<char>)
    ensures
        trim_start(s).len() <= s.len(),
        trim_start(s) == s.skip(s.len() - trim_start(s).len()),
        trim_start(s).len() > 0 ==> !is_ws(trim_start(s)[0]),
        forall|k: int| 0 <= k < s.len() - trim_start(s).len() ==> is_ws(#[trigger] s[k]),
    decreases s.len(),
{
    if s.len() > 0 && is_ws(s[0]) {
        lemma_trim_start_props(s.drop_first());
        assert(s.drop_first().skip(s.drop_first().len() - trim_start(s).len()) =~= s.skip(
            s.len() - trim_start(s).len(),
        ));
        assert forall|k: int| 0 <= k < s.len() - trim_start(s).len() implies is_ws(#[trigger] s[k]) by {
            if k > 0 {
                assert(s[k] == s.drop_first()[k - 1]);
            }
        }
    } else {
        assert(s.skip(0) =~= s);
    }
}

proof fn lemma_trim_start_skip(s: Seq<char>, i: int)
    requires
        0 <= i <= s.len(),
        forall|k: int| 0 <= k < i ==> is_ws(#[trigger] s[k]),
    ensures
        trim_start(s) == trim_start(s.skip(i)),
    decreases i,
{
    if i > 0 {
        assert(s.drop_first().skip(i - 1) =~= s.skip(i));
        lemma_trim_start_skip(s.drop_first(), i - 1);
    } else {
        assert(s.skip(0) =~= s);
    }
}

proof fn lemma_trim_end_take(s: Seq<char>, j: int)
    requires
        0 <= j <= s.len(),
        forall|k: int| j <= k < s.len() ==> is_ws(#[trigger] s[k]),
    ensures
        trim_end(s) == trim_end(s.take(j)),
    decreases s.len() - j,
{
    if j < s.len() {
        assert(s.drop_last().take(j) =~= s.take(j));
        lemma_trim_end_take(s.drop_last(), j);
    } else {
        assert(s.take(j) =~= s);
    }
}


/// A longer digit string reads as a number no smaller than its prefix.
pub proof fn lemma_digits_value_prefix(s: Seq<char>, k: int)
    requires
        0 <= k <= s.len(),
        all_digits(s),
    ensures
        digits_value(s.take(k)) <= digits_value(s),
    decreases s.len() - k,
{
    if k < s.len() {
        assert(s.drop_last().take(k) =~= s.take(k));
        assert(all_digits(s.drop_last())) by {
            assert forall|i: int| 0 <= i < s.drop_last().len() implies '0' <= #[trigger] s.drop_last()[i]
                && s.drop_last()[i] <= '9' by {
                assert(s.drop_last()[i] == s[i]);
            }
        }
        lemma_digits_value_prefix(s.drop_last(), k);
    } else {
        assert(s.take(k) =~= s);
    }
}

// ---------------------------------------------------------------------------
// Executable functions
// ---------------------------------------------------------------------------

/// `String::push` appends one character.
#[verifier::external_body]
fn string_push(s: &mut String, c: char)
    ensures
        final(s)@ == old(s)@.push(c),
{
    s.push(c);
}

/// The characters of `s`, in order.
pub fn to_chars(s: &str) -> (v: Vec<char>)
    ensures
        v@ == s@,
{
    let mut v: Vec<char> = Vec::new();
    for c in it: s.chars()
        invariant
            v@ == it.seq().take(it.index() as int),
    {
        v.push(c);
    }
    v
}

/// The string made of the characters of `v`.
pub fn from_chars(v: &[char]) -> (s: String)
    ensures
        s@ == v@,
{
    let mut s = String::new();
    let mut i: usize = 0;
    while i < v.len()
        invariant
            i <= v.len(),
            s@ == v@.take(i as int),
        decreases v.len() - i,
    {
        string_push(&mut s, v[i]);
        assert(v@.take(i + 1) =~= v@.take(i as int).push(v@[i as int]));
        i = i + 1;
    }
    assert(v@.take(v@.len() as int) =~= v@);
    s
}

/// Whether `c` is white space (`char::is_whitespace`).
pub fn is_whitespace(c: char) -> (r: bool)
    ensures
        r == is_ws(c),
{
    ('\u{9}' <= c && c <= '\u{d}') || c == ' ' || c == '\u{85}' || c == '\u{a0}'
        || c == '\u{1680}' || ('\u{2000}' <= c && c <= '\u{200a}') || c == '\u{2028}'
        || c == '\u{2029}' || c == '\u{202f}' || c == '\u{205f}' || c == '\u{3000}'
}

/// The characters `v[from..to]`.
pub fn slice_chars(v: &[char], from: usize, to: usize) -> (r: Vec<char>)
    requires
        from <= to <= v.len(),
    ensures
        r@ == v@.subrange(from as int, to as int),
{
    let mut r: Vec<char> = Vec::new();
    let mut i = from;
    while i < to
        invariant
            from <= i <= to <= v.len(),
            r@ == v@.subrange(from as int, i as int),
        decreases to - i,
    {
        r.push(v[i]);
        assert(v@.subrange(from as int, i + 1) =~= v@.subrange(from as int, i as int).push(
            v@[i as int],
        ));
        i = i + 1;
    }
    r
}

/// `v` without leading and trailing white space (`str::trim`).
pub fn trim_chars(v: &[char]) -> (r: Vec<char>)
    ensures
        r@ == trim(v@),
{
    let mut i: usize = 0;
    while i < v.len() && is_whitespace(v[i])
        invariant
            i <= v.len(),
            forall|k: int| 0 <= k < i ==> is_ws(#[trigger] v@[k]),
        decreases v.len() - i,
    {
        i = i + 1;
    }
    proof {
        lemma_trim_start_skip(v@, i as int);
    }
    let ghost t = v@.skip(i as int);
    assert(trim_start(t) == t);
    let mut j: usize = v.len();
    while j > i && is_whitespace(v[j - 1])
        invariant
            i <= j <= v.len(),
            forall|k: int| j <= k < v.len() ==> is_ws(#[trigger] v@[k]),
        decreases j,
    {
        j = j - 1;
    }
    proof {
        assert forall|k: int| j - i <= k < t.len() implies is_ws(#[trigger] t[k]) by {
            assert(t[k] == v@[k + i]);
        }
        lemma_trim_end_take(t, j - i);
        let u = t.take(j - i);
        if u.len() > 0 {
            assert(u.last() == v@[j - 1]);
        }
        assert(trim_end(u) == u);
        assert(u =~= v@.subrange(i as int, j as int));
    }
    slice_chars(v, i, j)
}

/// The position of the first `c` in `v` at or after `from`.
pub fn find_char_from(v: &[char], from: usize, c: char) -> (r: Option<usize>)
    requires
        from <= v.len(),
    ensures
        match r {
            Some(i) => from <= i < v.len() && i - from == first_index(v@.skip(from as int), c),
            None => first_index(v@.skip(from as int), c) < 0,
        },
{
    let ghost t = v@.skip(from as int);
    proof {
        lemma_first_index_bounds(t, c);
    }
    let mut i = from;
    while i < v.len()
        invariant
            from <= i <= v.len(),
            t == v@.skip(from as int),
            forall|k: int| from <= k < i ==> v@[k] != c,
        decreases v.len() - i,
    {
        if v[i] == c {
            proof {
                lemma_first_index_bounds(t, c);
                let fi = first_index(t, c);
                assert(t[i - from] == c);
                if fi >= 0 && fi < i - from {
                    assert(t[fi] == v@[fi + from]);
                }
            }
            return Some(i);
        }
        i = i + 1;
    }
    proof {
        lemma_first_index_bounds(t, c);
        let fi = first_index(t, c);
        if fi >= 0 {
            assert(t[fi] == v@[fi + from]);
        }
    }
    None
}

/// The position of the first `c` in `v` (`str::find` with a character).
pub fn find_char(v: &[char], c: char) -> (r: Option<usize>)
    ensures
        match r {
            Some(i) => i < v.len() && i == first_index(v@, c),
            None => first_index(v@, c) < 0,
        },
{
    assert(v@.skip(0) =~= v@);
    find_char_from(v, 0, c)
}

/// The position of the first white-space character of `v` at or after `from`.
fn find_ws_from(v: &[char], from: usize) -> (r: usize)
    requires
        from <= v.len(),
    ensures
        from <= r <= v.len(),
        r < v.len() ==> r - from == first_ws(v@.skip(from as int)),
        r == v.len() ==> first_ws(v@.skip(from as int)) < 0,
{
    let ghost t = v@.skip(from as int);
    proof {
        lemma_first_ws_props(t);
    }
    let mut i = from;
    while i < v.len()
        invariant
            from <= i <= v.len(),
            t == v@.skip(from as int),
            forall|k: int| from <= k < i ==> !is_ws(#[trigger] v@[k]),
        decreases v.len() - i,
    {
        if is_whitespace(v[i]) {
            proof {
                lemma_first_ws_props(t);
                let fi = first_ws(t);
                assert(t[i - from] == v@[i as int]);
                if fi >= 0 && fi < i - from {
                    assert(t[fi] == v@[fi + from]);
                }
            }
            return i;
        }
        i = i + 1;
    }
    proof {
        lemma_first_ws_props(t);
        let fi = first_ws(t);
        if fi >= 0 {
            assert(t[fi] == v@[fi + from]);
        }
    }
    i
}

/// `v` without a final carriage return.
pub fn strip_cr_chars(v: Vec<char>) -> (r: Vec<char>)
    ensures
        r@ == strip_cr(v@),
{
    let mut v = v;
    if v.len() > 0 && v[v.len() - 1] == '\r' {
        v.pop();
    }
    v
}

/// The lines of `v` (`str::lines`).
pub fn split_lines(v: &[char]) -> (r: Vec<Vec<char>>)
    ensures
        views(r@) == lines(v@),
{
    let mut res: Vec<Vec<char>> = Vec::new();
    let mut start: usize = 0;
    assert(v@.skip(0) =~= v@);
    assert(views(res@) + lines(v@) =~= lines(v@));
    while start < v.len()
        invariant
            start <= v.len(),
            lines(v@) == views(res@) + lines(v@.skip(start as int)),
        decreases v.len() - start,
    {
        let ghost t = v@.skip(start as int);
        let ghost old_res = res@;
        match find_char_from(v, start, '\n') {
            Some(i) => {
                let line = strip_cr_chars(slice_chars(v, start, i));
                proof {
                    lemma_first_index_bounds(t, '\n');
                    assert(t.take(i - start) =~= v@.subrange(start as int, i as int));
                    assert(t.skip(i - start + 1) =~= v@.skip(i + 1));
                    assert(lines(t) == seq![strip_cr(t.take(i - start))] + lines(t.skip(i - start + 1)));
                }
                res.push(line);
                proof {
                    assert(views(res@) =~= views(old_res) + seq![line@]);
                }
                start = i + 1;
            },
            None => {
                let line = slice_chars(v, start, v.len());
                proof {
                    assert(t =~= v@.subrange(start as int, v.len() as int));
                    assert(lines(t) == seq![t]);
                    assert(v@.skip(v.len() as int) =~= Seq::<char>::empty());
                }
                res.push(line);
                proof {
                    assert(views(res@) =~= views(old_res) + seq![line@]);
                }
                start = v.len();
            },
        }
    }
    proof {
        assert(v@.skip(start as int) =~= Seq::<char>::empty());
        assert(views(res@) + seq![] =~= views(res@));
    }
    res
}

/// The pieces of `v` between occurrences of `c` (`str::split` with a character).
pub fn split_char(v: &[char], c: char) -> (r: Vec<Vec<char>>)
    ensures
        views(r@) == split_on(v@, c),
{
    let mut res: Vec<Vec<char>> = Vec::new();
    let mut start: usize = 0;
    assert(v@.skip(0) =~= v@);
    assert(views(res@) + split_on(v@, c) =~= split_on(v@, c));
    loop
        invariant
            start <= v.len(),
            split_on(v@, c) == views(res@) + split_on(v@.skip(start as int), c),
        decreases v.len() - start,
    {
        let ghost t = v@.skip(start as int);
        let ghost old_res = res@;
        match find_char_from(v, start, c) {
            Some(i) => {
                let piece = slice_chars(v, start, i);
                proof {
                    lemma_first_index_bounds(t, c);
                    assert(t.take(i - start) =~= v@.subrange(start as int, i as int));
                    assert(t.skip(i - start + 1) =~= v@.skip(i + 1));
                }
                res.push(piece);
                proof {
                    assert(views(res@) =~= views(old_res) + seq![piece@]);
                }
                start = i + 1;
            },
            None => {
                let piece = slice_chars(v, start, v.len());
                proof {
                    assert(t =~= v@.subrange(start as int, v.len() as int));
                }
                res.push(piece);
                proof {
                    assert(views(res@) =~= views(old_res) + seq![piece@]);
                }
                return res;
            },
        }
    }
}

/// The white-space separated words of `v` (`str::split_whitespace`).
pub fn split_words(v: &[char]) -> (r: Vec<Vec<char>>)
    ensures
        views(r@) == words(v@),
{
    let mut res: Vec<Vec<char>> = Vec::new();
    let mut pos: usize = 0;
    assert(v@.skip(0) =~= v@);
    assert(views(res@) + words(v@) =~= words(v@));
    while pos < v.len()
        invariant
            pos <= v.len(),
            words(v@) == views(res@) + words(v@.skip(pos as int)),
        decreases v.len() - pos,
    {
        let ghost old_res = res@;
        let mut j = pos;
        while j < v.len() && is_whitespace(v[j])
            invariant
                pos <= j <= v.len(),
                forall|k: int| pos <= k < j ==> is_ws(#[trigger] v@[k]),
            decreases v.len() - j,
        {
            j = j + 1;
        }
        proof {
            let t0 = v@.skip(pos as int);
            assert forall|k: int| 0 <= k < j - pos implies is_ws(#[trigger] t0[k]) by {
                assert(t0[k] == v@[k + pos]);
            }
            lemma_trim_start_skip(t0, j - pos);
            assert(t0.skip(j - pos) =~= v@.skip(j as int));
            assert(trim_start(v@.skip(j as int)) == v@.skip(j as int));
        }
        if j == v.len() {
            proof {
                assert(v@.skip(j as int) =~= Seq::<char>::empty());
                assert(words(v@.skip(pos as int)) == Seq::<Seq<char>>::empty());
                assert(views(res@) + seq![] =~= views(res@));
                assert(v@.skip(v.len() as int) =~= Seq::<char>::empty());
            }
            pos = v.len();
        } else {
            let k = find_ws_from(v, j);
            let word = slice_chars(v, j, k);
            proof {
                let t = v@.skip(j as int);
                lemma_first_ws_props(t);
                assert(t.take(k - j) =~= v@.subrange(j as int, k as int));
                assert(t.skip(k - j) =~= v@.skip(k as int));
                if k == v.len() {
                    assert(t.take(k - j) =~= t);
                    assert(v@.skip(k as int) =~= Seq::<char>::empty());
                    assert(words(v@.skip(k as int)) == Seq::<Seq<char>>::empty());
                    assert(seq![t] + Seq::<Seq<char>>::empty() =~= seq![t]);
                }
            }
            res.push(word);
            proof {
                assert(views(res@) =~= views(old_res) + seq![word@]);
            }
            pos = k;
        }
    }
    proof {
        assert(v@.skip(pos as int) =~= Seq::<char>::empty());
        assert(views(res@) + seq![] =~= views(res@));
    }
    res
}

/// Whether `p` occurs in `s` at position `i`.
pub fn matches_at(s: &[char], p: &[char], i: usize) -> (r: bool)
    ensures
        r == occurs_at(s@, p@, i as int),
{
    if i > s.len() || p.len() > s.len() - i {
        return false;
    }
    let mut k: usize = 0;
    while k < p.len()
        invariant
            i + p.len() <= s.len(),
            k <= p.len(),
            forall|m: int| 0 <= m < k ==> s@[i + m] == p@[m],
        decreases p.len() - k,
    {
        if s[i + k] != p[k] {
            proof {
                assert(s@.subrange(i as int, i + p.len())[k as int] != p@[k as int]);
            }
            return false;
        }
        k = k + 1;
    }
    assert(s@.subrange(i as int, i + p.len()) =~= p@);
    true
}

/// Whether `p` occurs in `s` (`str::contains`).
pub fn contains_chars(s: &[char], p: &[char]) -> (r: bool)
    ensures
        r == contains(s@, p@),
{
    if p.len() > s.len() {
        return false;
    }
    let mut i: usize = 0;
    loop
        invariant
            p.len() <= s.len(),
            i <= s.len() - p.len(),
            forall|m: int| 0 <= m < i ==> !occurs_at(s@, p@, m),
        decreases s.len() - p.len() - i,
    {
        if matches_at(s, p, i) {
            return true;
        }
        if i == s.len() - p.len() {
            return false;
        }
        i = i + 1;
    }
}

/// The first position at or after `i` where `p` occurs in `s`, or -1
/// (`str::find` with a string pattern, from `i` on).
pub open spec fn find_from(s: Seq<char>, p: Seq<char>, i: nat) -> int
    decreases s.len() - i,
{
    if i + p.len() > s.len() || i >= s.len() + 1 {
        -1
    } else if occurs_at(s, p, i as int) {
        i as int
    } else {
        proof {
            if p.len() == 0 {
                assert(s.subrange(i as int, i as int) =~= p);
            }
        }
        find_from(s, p, i + 1)
    }
}

/// The first position of the text `p` in `v` (`str::find`).
pub fn find_text(v: &[char], p: &str) -> (r: Option<usize>)
    ensures
        match r {
            Some(i) => i as int == find_from(v@, p@, 0) && occurs_at(v@, p@, i as int),
            None => find_from(v@, p@, 0) == -1,
        },
{
    let pv = to_chars(p);
    if pv.len() == 0 {
        assert(v@.subrange(0, 0) =~= p@);
        return Some(0);
    }
    let mut i: usize = 0;
    while i <= v.len() && pv.len() <= v.len() - i
        invariant
            pv@ == p@,
            pv.len() >= 1,
            i <= v.len(),
            find_from(v@, p@, 0) == find_from(v@, p@, i as nat),
        decreases v.len() + 1 - i,
    {
        if matches_at(v, &pv, i) {
            return Some(i);
        }
        i = i + 1;
    }
    None
}

/// Whether `s` contains the text `p` (`str::contains`).
pub fn contains_str(s: &[char], p: &str) -> (r: bool)
    ensures
        r == contains(s@, p@),
{
    let pv = to_chars(p);
    contains_chars(s, &pv)
}

/// Whether `s` starts with `p` (`str::starts_with`).
pub fn starts_with_str(s: &[char], p: &str) -> (r: bool)
    ensures
        r == starts_with(s@, p@),
{
    let pv = to_chars(p);
    let r = matches_at(s, &pv, 0);
    proof {
        if pv@.len() <= s@.len() {
            assert(s@.subrange(0, pv@.len() as int) =~= s@.take(pv@.len() as int));
        }
    }
    r
}

/// Whether `s` ends with `p` (`str::ends_with`).
pub fn ends_with_str(s: &[char], p: &str) -> (r: bool)
    ensures
        r == ends_with(s@, p@),
{
    let pv = to_chars(p);
    if pv.len() > s.len() {
        return false;
    }
    let r = matches_at(s, &pv, s.len() - pv.len());
    proof {
        assert(s@.subrange(s@.len() - pv@.len(), s@.len() as int) =~= s@.skip(
            s@.len() - pv@.len(),
        ));
    }
    r
}

/// Whether `s` is exactly the text `p`.
pub fn eq_str(s: &[char], p: &str) -> (r: bool)
    ensures
        r == (s@ == p@),
{
    let pv = to_chars(p);
    if pv.len() != s.len() {
        return false;
    }
    let r = matches_at(s, &pv, 0);
    proof {
        assert(s@.subrange(0, s@.len() as int) =~= s@);
    }
    r
}

/// `str::parse::<u64>`.
pub fn parse_u64(s: &[char]) -> (r: Option<u64>)
    ensures
        r == parse_u64_spec(s@),
{
    let start: usize = if s.len() > 0 && s[0] == '+' {
        1
    } else {
        0
    };
    let ghost body = if s@.len() > 0 && s@[0] == '+' {
        s@.drop_first()
    } else {
        s@
    };
    assert(body =~= s@.skip(start as int));
    if start == s.len() {
        assert(body.len() == 0);
        return None;
    }
    let mut i = start;
    while i < s.len()
        invariant
            start <= i <= s.len(),
            body == s@.skip(start as int),
            body == (if s@.len() > 0 && s@[0] == '+' {
                s@.drop_first()
            } else {
                s@
            }),
            forall|k: int| start <= k < i ==> '0' <= #[trigger] s@[k] && s@[k] <= '9',
        decreases s.len() - i,
    {
        if !('0' <= s[i] && s[i] <= '9') {
            proof {
                assert(body[i - start] == s@[i as int]);
                assert(!all_digits(body));
            }
            return None;
        }
        i = i + 1;
    }
    assert(all_digits(body)) by {
        assert forall|k: int| 0 <= k < body.len() implies '0' <= #[trigger] body[k] && body[k] <= '9' by {
            assert(body[k] == s@[k + start]);
        }
    }
    let mut acc: u64 = 0;
    let mut j = start;
    while j < s.len()
        invariant
            start <= j <= s.len(),
            body == s@.skip(start as int),
            body == (if s@.len() > 0 && s@[0] == '+' {
                s@.drop_first()
            } else {
                s@
            }),
            all_digits(body),
            acc as nat == digits_value(body.take(j - start)),
        decreases s.len() - j,
    {
        proof {
            let pre = body.take(j - start + 1);
            assert(pre.drop_last() =~= body.take(j - start));
            assert(pre.last() == s@[j as int]);
            assert(body[j - start] == s@[j as int]);
        }
        let d = (s[j] as u32 - '0' as u32) as u64;
        match acc.checked_mul(10) {
            Some(m) => match m.checked_add(d) {
                Some(n) => {
                    acc = n;
                },
                None => {
                    proof {
                        lemma_digits_value_prefix(body, j - start + 1);
                    }
                    return None;
                },
            },
            None => {
                proof {
                    lemma_digits_value_prefix(body, j - start + 1);
                }
                return None;
            },
        }
        j = j + 1;
    }
    assert(body.take(s.len() - start) =~= body);
    Some(acc)
}

/// `str::parse::<usize>`.
pub fn parse_usize(s: &[char]) -> (r: Option<usize>)
    ensures
        r == parse_usize_spec(s@),
{
    match parse_u64(s) {
        Some(n) => if n as u128 <= usize::MAX as u128 {
            Some(n as usize)
        } else {
            None
        },
        None => None,
    }
}

/// `str::parse::<u32>`.
pub fn parse_u32(s: &[char]) -> (r: Option<u32>)
    ensures
        r == parse_u32_spec(s@),
{
    match parse_u64(s) {
        Some(n) => if n <= u32::MAX as u64 {
            Some(n as u32)
        } else {
            None
        },
        None => None,
    }
}

/// Whether `a` and `b` hold the same characters.
pub fn chars_eq(a: &[char], b: &[char]) -> (r: bool)
    ensures
        r == (a@ == b@),
{
    if a.len() != b.len() {
        return false;
    }
    let r = matches_at(a, b, 0);
    proof {
        assert(a@.subrange(0, a@.len() as int) =~= a@);
    }
    r
}

/// Appends the characters of `w` to `v`.
pub fn push_all(v: &mut Vec<char>, w: &[char])
    ensures
        final(v)@ == old(v)@ + w@,
{
    let mut i: usize = 0;
    while i < w.len()
        invariant
            i <= w.len(),
            v@ == old(v)@ + w@.take(i as int),
        decreases w.len() - i,
    {
        v.push(w[i]);
        assert(w@.take(i + 1) =~= w@.take(i as int).push(w@[i as int]));
        i = i + 1;
    }
    assert(w@.take(w@.len() as int) =~= w@);
}

/// Appends the characters of the text `w` to `v`.
pub fn push_str(v: &mut Vec<char>, w: &str)
    ensures
        final(v)@ == old(v)@ + w@,
{
    let wc = to_chars(w);
    push_all(v, &wc);
}

/// The text `a` followed by the text `b`.
pub fn concat2(a: &str, b: &str) -> (r: String)
    ensures
        r@ == a@ + b@,
{
    let mut v = to_chars(a);
    push_str(&mut v, b);
    from_chars(&v)
}

/// The texts `a`, `b` and `c` one after the other.
pub fn concat3(a: &str, b: &str, c: &str) -> (r: String)
    ensures
        r@ == a@ + b@ + c@,
{
    let mut v = to_chars(a);
    push_str(&mut v, b);
    push_str(&mut v, c);
    from_chars(&v)
}

/// The texts `a` to `d` one after the other.
pub fn concat4(a: &str, b: &str, c: &str, d: &str) -> (r: String)
    ensures
        r@ == a@ + b@ + c@ + d@,
{
    let mut v = to_chars(a);
    push_str(&mut v, b);
    push_str(&mut v, c);
    push_str(&mut v, d);
    from_chars(&v)
}

/// The texts `a` to `e` one after the other.
pub fn concat5(a: &str, b: &str, c: &str, d: &str, e: &str) -> (r: String)
    ensures
        r@ == a@ + b@ + c@ + d@ + e@,
{
    let mut v = to_chars(a);
    push_str(&mut v, b);
    push_str(&mut v, c);
    push_str(&mut v, d);
    push_str(&mut v, e);
    from_chars(&v)
}

/// `s` without the `c`s at its start (`str::trim_start_matches` with a
/// character).
pub open spec fn strip_start(s: Seq<char>, c: char) -> Seq<char>
    decreases s.len(),
{
    if s.len() > 0 && s[0] == c {
        strip_start(s.skip(1), c)
    } else {
        s
    }
}

/// `s` without the `c`s at its end (`str::trim_end_matches` with a
/// character).
pub open spec fn strip_end(s: Seq<char>, c: char) -> Seq<char>
    decreases s.len(),
{
    if s.len() > 0 && s.last() == c {
        strip_end(s.drop_last(), c)
    } else {
        s
    }
}

/// `v` without the `c`s at its start.
pub fn trim_start_char(v: &[char], c: char) -> (r: Vec<char>)
    ensures
        r@ == strip_start(v@, c),
{
    let mut i: usize = 0;
    assert(v@.skip(0) =~= v@);
    while i < v.len() && v[i] == c
        invariant
            i <= v.len(),
            strip_start(v@, c) == strip_start(v@.skip(i as int), c),
        decreases v.len() - i,
    {
        assert(v@.skip(i as int).skip(1) =~= v@.skip(i + 1));
        i = i + 1;
    }
    let r = slice_chars(v, i, v.len());
    assert(r@ =~= v@.skip(i as int));
    r
}

/// `v` without the `c`s at its end.
pub fn trim_end_char(v: &[char], c: char) -> (r: Vec<char>)
    ensures
        r@ == strip_end(v@, c),
{
    let mut k = v.len();
    assert(v@.take(k as int) =~= v@);
    while k > 0 && v[k - 1] == c
        invariant
            k <= v.len(),
            strip_end(v@, c) == strip_end(v@.take(k as int), c),
        decreases k,
    {
        assert(v@.take(k as int).drop_last() =~= v@.take(k - 1));
        k = k - 1;
    }
    let r = slice_chars(v, 0, k);
    assert(r@ =~= v@.take(k as int));
    r
}

/// The number of bytes that the UTF-8 encoding of `c` takes.
pub open spec fn char_utf8_len(c: char) -> nat {
    if (c as u32) < 0x80 {
        1
    } else if (c as u32) < 0x800 {
        2
    } else if (c as u32) < 0x10000 {
        3
    } else {
        4
    }
}

/// The number of bytes that the UTF-8 encoding of `s` takes (`str::len`).
pub open spec fn utf8_len(s: Seq<char>) -> nat
    decreases s.len(),
{
    if s.len() == 0 {
        0
    } else {
        utf8_len(s.drop_last()) + char_utf8_len(s.last())
    }
}

proof fn lemma_utf8_len_bound(s: Seq<char>)
    ensures
        utf8_len(s) <= 4 * s.len(),
    decreases s.len(),
{
    if s.len() > 0 {
        lemma_utf8_len_bound(s.drop_last());
    }
}

/// The UTF-8 length in bytes of `v` (`str::len`).
pub fn utf8_len_of(v: &[char]) -> (r: u128)
    ensures
        r == utf8_len(v@),
{
    let mut acc: u128 = 0;
    let mut i: usize = 0;
    while i < v.len()
        invariant
            i <= v.len(),
            acc == utf8_len(v@.take(i as int)),
        decreases v.len() - i,
    {
        proof {
            lemma_utf8_len_bound(v@.take(i as int));
            assert(v@.take(i + 1).drop_last() =~= v@.take(i as int));
        }
        let c = v[i] as u32;
        let w: u128 = if c < 0x80 {
            1
        } else if c < 0x800 {
            2
        } else if c < 0x10000 {
            3
        } else {
            4
        };
        acc = acc + w;
        i = i + 1;
    }
    assert(v@.take(v@.len() as int) =~= v@);
    acc
}

/// The decimal digit character for `d`.
pub open spec fn digit_char(d: nat) -> char {
    ((48 + d) as u8) as char
}

/// The decimal notation of `n`, as `Display` writes it for unsigned integers.
pub open spec fn decimal(n: nat) -> Seq<char>
    decreases n,
{
    if n < 10 {
        seq![digit_char(n)]
    } else {
        decimal(n / 10).push(digit_char(n % 10))
    }
}

/// The decimal notation of `n`.
pub fn decimal_chars(n: u64) -> (r: Vec<char>)
    ensures
        r@ == decimal(n as nat),
    decreases n,
{
    if n < 10 {
        let mut v: Vec<char> = Vec::new();
        v.push((48u8 + n as u8) as char);
        v
    } else {
        let mut v = decimal_chars(n / 10);
        v.push((48u8 + (n % 10) as u8) as char);
        v
    }
}

/// Whether `bytes` is valid UTF-8, and the characters they encode if so
/// (`std::str::from_utf8`, which fails exactly on invalid UTF-8).
#[verifier::external_body]
pub(crate) fn utf8_decode(bytes: &[u8]) -> (r: Option<String>)
    ensures
        r is Some <==> vstd::utf8::valid_utf8(bytes@),
        r matches Some(s) ==> s@ == vstd::utf8::decode_utf8(bytes@),
{
    match std::str::from_utf8(bytes) {
        Ok(s) => Some(s.to_string()),
        Err(_) => None,
    }
}

/// The characters that `String::from_utf8_lossy` makes of `bytes`.
pub uninterp spec fn utf8_lossy_decoding(bytes: Seq<u8>) -> Seq<char>;

/// `String::from_utf8_lossy`: valid UTF-8 decodes as itself; each invalid
/// sequence becomes U+FFFD, which is not stated here.
#[verifier::external_body]
pub(crate) fn utf8_lossy(bytes: &[u8]) -> (r: String)
    ensures
        r@ == utf8_lossy_decoding(bytes@),
        vstd::utf8::valid_utf8(bytes@) ==> r@ == vstd::utf8::decode_utf8(bytes@),
{
    String::from_utf8_lossy(bytes).into_owned()
}

/// Whether every character of `s` is ASCII.
pub open spec fn is_ascii_text(s: Seq<char>) -> bool {
    forall|i: int| 0 <= i < s.len() ==> (#[trigger] s[i] as u32) < 128
}

/// The ASCII lower case of `c`: `A` to `Z` become `a` to `z`.
pub open spec fn ascii_lower_char(c: char) -> char {
    if 'A' <= c && c <= 'Z' {
        ((c as u32) + 32) as char
    } else {
        c
    }
}

/// The ASCII upper case of `c`: `a` to `z` become `A` to `Z`.
pub open spec fn ascii_upper_char(c: char) -> char {
    if 'a' <= c && c <= 'z' {
        ((c as u32) - 32) as char
    } else {
        c
    }
}

/// `s` with `A` to `Z` made lower case.
pub open spec fn ascii_lower(s: Seq<char>) -> Seq<char> {
    s.map_values(|c: char| ascii_lower_char(c))
}

/// `s` with `a` to `z` made upper case.
pub open spec fn ascii_upper(s: Seq<char>) -> Seq<char> {
    s.map_values(|c: char| ascii_upper_char(c))
}

/// Lowering the upper case of a character lowers the character.
pub proof fn lemma_ascii_case_char(c: char)
    ensures
        ascii_lower_char(ascii_upper_char(c)) == ascii_lower_char(c),
        ascii_lower_char(ascii_lower_char(c)) == ascii_lower_char(c),
        (c as u32) < 128 ==> (ascii_upper_char(c) as u32) < 128 && (ascii_lower_char(c) as u32)
            < 128,
{
}

/// What `str::to_lowercase` makes of a text.
pub uninterp spec fn lowercase(s: Seq<char>) -> Seq<char>;

/// `str::to_lowercase` (Unicode lowercase mapping, which on ASCII text
/// turns `A` to `Z` into `a` to `z` and keeps every other character).
#[verifier::external_body]
pub(crate) fn to_lowercase(s: &str) -> (r: String)
    ensures
        r@ == lowercase(s@),
        is_ascii_text(s@) ==> r@ == ascii_lower(s@),
{
    s.to_lowercase()
}

/// What `str::to_uppercase` makes of a text.
pub uninterp spec fn uppercase(s: Seq<char>) -> Seq<char>;

/// `str::to_uppercase` (Unicode uppercase mapping, which on ASCII text
/// turns `a` to `z` into `A` to `Z` and keeps every other character).
#[verifier::external_body]
pub(crate) fn to_uppercase(s: &str) -> (r: String)
    ensures
        r@ == uppercase(s@),
        is_ascii_text(s@) ==> r@ == ascii_upper(s@),
{
    s.to_uppercase()
}

/// `t` with every occurrence of the marker `m`, read from the left, replaced
/// by `v`.
pub open spec fn fill(t: Seq<char>, m: Seq<char>, v: Seq<char>) -> Seq<char>
    decreases t.len(),
{
    if t.len() == 0 {
        seq![]
    } else if m.len() > 0 && starts_with(t, m) {
        v + fill(t.skip(m.len() as int), m, v)
    } else {
        seq![t[0]] + fill(t.skip(1), m, v)
    }
}

/// Replaces every occurrence of the marker `m` in `t`, from the left, by `v`.
pub fn fill_template(t: &str, m: &str, v: &str) -> (r: String)
    ensures
        r@ == fill(t@, m@, v@),
{
    let tc = to_chars(t);
    let mc = to_chars(m);
    let vc = to_chars(v);
    let mut out: Vec<char> = Vec::new();
    let mut i: usize = 0;
    assert(tc@.skip(0) =~= tc@);
    while i < tc.len()
        invariant
            i <= tc.len(),
            tc@ == t@,
            mc@ == m@,
            vc@ == v@,
            fill(t@, m@, v@) == out@ + fill(tc@.skip(i as int), m@, v@),
        decreases tc.len() - i,
    {
        let ghost rest = tc@.skip(i as int);
        if mc.len() > 0 && matches_at(&tc, &mc, i) {
            proof {
                assert(rest.take(mc@.len() as int) =~= tc@.subrange(i as int, i + mc@.len()));
                assert(rest.skip(mc@.len() as int) =~= tc@.skip(i + mc@.len()));
            }
            let ghost before = out@;
            push_all(&mut out, &vc);
            i = i + mc.len();
            assert(out@ + fill(tc@.skip(i as int), m@, v@) =~= before + (v@ + fill(
                rest.skip(m@.len() as int),
                m@,
                v@,
            )));
        } else {
            proof {
                if mc@.len() > 0 && mc@.len() <= rest.len() {
                    assert(rest.take(mc@.len() as int) =~= tc@.subrange(i as int, i + mc@.len()));
                }
                assert(rest.skip(1) =~= tc@.skip(i + 1));
                assert(rest[0] == tc@[i as int]);
            }
            let ghost before = out@;
            out.push(tc[i]);
            i = i + 1;
            assert(out@ + fill(tc@.skip(i as int), m@, v@) =~= before + (seq![rest[0]] + fill(
                rest.skip(1),
                m@,
                v@,
            )));
        }
    }
    assert(tc@.skip(i as int) =~= Seq::<char>::empty());
    assert(out@ + Seq::<char>::empty() =~= out@);
    from_chars(&out)
}

} // verus!
