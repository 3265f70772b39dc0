//! `key: value` text, one entry per line, as `/proc/meminfo` and
//! `sysctl(8)` print it. Lines are separated by `\n`; a line without `:`
//! is skipped, and when a key appears on several lines the last one wins.
//!
//! Two readings of a line are supported:
//! - `Meminfo`: the key is everything before the first `:`; the value is
//!   the first whitespace-separated word after it parsed as a `u64`, or 0
//!   when there is no such word or it does not parse (`MemTotal: 3931420 kB`).
//! - `Sysctl`: key and value are the two sides of the first `:` with
//!   surrounding whitespace trimmed; a line whose value does not parse as a
//!   `u64` is skipped (`hw.pagesize: 4096`).
//! - `Kstat`: the whitespace-separated `name type data` columns of a
//!   Linux kstat file; the key is the first word and the value the third,
//!   and a line whose third word does not parse as a `u64` (the header
//!   lines) is skipped (`hits    4    123456`).

use vstd::prelude::*;
use crate::text::{is_whitespace, is_ws, parse_u64, parse_u64_chars};

verus! {

#[derive(Copy, Clone, Debug, PartialEq, Eq, Structural)]
pub enum LineStyle {
    Meminfo,
    Sysctl,
    Kstat,
}

/// Index of the first `c` in `s`, or `s.len()` when there is none.
pub open spec fn index_of(s: Seq<char>, c: char) -> nat
    decreases s.len(),
{
    if s.len() == 0 {
        0
    } else if s[0] == c {
        0
    } else {
        1 + index_of(s.drop_first(), c)
    }
}

/// Number of whitespace characters at the start of `s`.
pub open spec fn leading_ws(s: Seq<char>) -> nat
    decreases s.len(),
{
    if s.len() > 0 && is_ws(s[0]) {
        1 + leading_ws(s.drop_first())
    } else {
        0
    }
}

/// Number of non-whitespace characters at the start of `s`.
pub open spec fn leading_word(s: Seq<char>) -> nat
    decreases s.len(),
{
    if s.len() > 0 && !is_ws(s[0]) {
        1 + leading_word(s.drop_first())
    } else {
        0
    }
}

/// Number of whitespace characters at the end of `s`.
pub open spec fn trailing_ws(s: Seq<char>) -> nat
    decreases s.len(),
{
    if s.len() > 0 && is_ws(s.last()) {
        1 + trailing_ws(s.drop_last())
    } else {
        0
    }
}

/// `str::trim`: `s` without leading and trailing whitespace.
pub open spec fn trim(s: Seq<char>) -> Seq<char> {
    let t = s.skip(leading_ws(s) as int);
    t.take(t.len() - trailing_ws(t))
}

/// The first whitespace-separated word of `s` (empty when there is none).
pub open spec fn first_word(s: Seq<char>) -> Seq<char> {
    let t = s.skip(leading_ws(s) as int);
    t.take(leading_word(t) as int)
}

/// `s` without its leading whitespace and the word after it.
pub open spec fn after_word(s: Seq<char>) -> Seq<char> {
    let t = s.skip(leading_ws(s) as int);
    t.skip(leading_word(t) as int)
}

/// The `(name, data)` of a kstat line: its first word, and its third word
/// as a number.
pub open spec fn kstat_entry(line: Seq<char>) -> Option<(Seq<char>, u64)> {
    let key = first_word(line);
    match parse_u64(first_word(after_word(after_word(line)))) {
        Some(v) => if key.len() > 0 {
            Some((key, v))
        } else {
            None
        },
        None => None,
    }
}

/// The `(key, value)` a line holds, if any.
pub open spec fn line_entry(style: LineStyle, line: Seq<char>) -> Option<(Seq<char>, u64)> {
    if style == LineStyle::Kstat {
        kstat_entry(line)
    } else {
        colon_entry(style, line)
    }
}

/// The `(key, value)` of a `key: value` line.
pub open spec fn colon_entry(style: LineStyle, line: Seq<char>) -> Option<(Seq<char>, u64)> {
    let k = index_of(line, ':');
    if k >= line.len() {
        None
    } else {
        let key = line.take(k as int);
        let rest = line.skip(k + 1 as int);
        match style {
            LineStyle::Meminfo => Some(
                (
                    key,
                    match parse_u64(first_word(rest)) {
                        Some(v) => v,
                        None => 0,
                    },
                ),
            ),
            _ => match parse_u64(trim(rest)) {
                Some(v) => Some((trim(key), v)),
                None => None,
            },
        }
    }
}

/// Value for `key` in `s`, starting from `acc`: each line holding `key`
/// replaces the value found so far.
pub open spec fn lookup_from(style: LineStyle, s: Seq<char>, key: Seq<char>, acc: Option<u64>) -> Option<
    u64,
>
    decreases s.len(),
{
    let n = index_of(s, '\n');
    let acc2 = match line_entry(style, s.take(n as int)) {
        Some((k, v)) => if k == key {
            Some(v)
        } else {
            acc
        },
        None => acc,
    };
    if n >= s.len() {
        acc2
    } else {
        lookup_from(style, s.skip(n + 1 as int), key, acc2)
    }
}

/// The value of the last line of `s` whose key is `key`.
pub open spec fn lookup(style: LineStyle, s: Seq<char>, key: Seq<char>) -> Option<u64> {
    lookup_from(style, s, key, None)
}

proof fn lemma_index_of_step(v: Seq<char>, i: int, end: int, c: char)
    requires
        0 <= i < end <= v.len(),
        v[i] != c,
    ensures
        index_of(v.subrange(i, end), c) == 1 + index_of(v.subrange(i + 1, end), c),
{
    assert(v.subrange(i, end).drop_first() =~= v.subrange(i + 1, end));
}

proof fn lemma_index_of_bound(s: Seq<char>, c: char)
    ensures
        index_of(s, c) <= s.len(),
        index_of(s, c) < s.len() ==> s[index_of(s, c) as int] == c,
    decreases s.len(),
{
    if s.len() > 0 && s[0] != c {
        lemma_index_of_bound(s.drop_first(), c);
    }
}

/// First index in `v[start..end]` holding `c`, or `end`.
fn find_char(v: &Vec<char>, start: usize, end: usize, c: char) -> (r: usize)
    requires
        start <= end <= v@.len(),
    ensures
        r == start + index_of(v@.subrange(start as int, end as int), c),
        r <= end,
{
    let mut i = start;
    while i < end && v[i] != c
        invariant
            start <= i <= end <= v@.len(),
            index_of(v@.subrange(start as int, end as int), c) == (i - start) + index_of(
                v@.subrange(i as int, end as int),
                c,
            ),
        decreases end - i,
    {
        proof {
            lemma_index_of_step(v@, i as int, end as int, c);
        }
        i = i + 1;
    }
    proof {
        if i < end {
            assert(v@.subrange(i as int, end as int)[0] == c);
        }
    }
    i
}

/// Skips whitespace in `v[start..end]`.
fn skip_ws(v: &Vec<char>, start: usize, end: usize) -> (r: usize)
    requires
        start <= end <= v@.len(),
    ensures
        r == start + leading_ws(v@.subrange(start as int, end as int)),
        r <= end,
{
    let mut i = start;
    while i < end && is_whitespace(v[i])
        invariant
            start <= i <= end <= v@.len(),
            leading_ws(v@.subrange(start as int, end as int)) == (i - start) + leading_ws(
                v@.subrange(i as int, end as int),
            ),
        decreases end - i,
    {
        assert(v@.subrange(i as int, end as int).drop_first() =~= v@.subrange(
            i + 1,
            end as int,
        ));
        i = i + 1;
    }
    i
}

/// Skips non-whitespace in `v[start..end]`.
fn skip_word(v: &Vec<char>, start: usize, end: usize) -> (r: usize)
    requires
        start <= end <= v@.len(),
    ensures
        r == start + leading_word(v@.subrange(start as int, end as int)),
        r <= end,
{
    let mut i = start;
    while i < end && !is_whitespace(v[i])
        invariant
            start <= i <= end <= v@.len(),
            leading_word(v@.subrange(start as int, end as int)) == (i - start) + leading_word(
                v@.subrange(i as int, end as int),
            ),
        decreases end - i,
    {
        assert(v@.subrange(i as int, end as int).drop_first() =~= v@.subrange(
            i + 1,
            end as int,
        ));
        i = i + 1;
    }
    i
}

/// End of `v[start..end]` once trailing whitespace is dropped.
fn trim_end(v: &Vec<char>, start: usize, end: usize) -> (r: usize)
    requires
        start <= end <= v@.len(),
    ensures
        r == end - trailing_ws(v@.subrange(start as int, end as int)),
        start <= r,
{
    let mut i = end;
    while i > start && is_whitespace(v[i - 1])
        invariant
            start <= i <= end <= v@.len(),
            trailing_ws(v@.subrange(start as int, end as int)) == (end - i) + trailing_ws(
                v@.subrange(start as int, i as int),
            ),
        decreases i - start,
    {
        assert(v@.subrange(start as int, i as int).drop_last() =~= v@.subrange(
            start as int,
            i - 1,
        ));
        i = i - 1;
    }
    i
}

proof fn lemma_trailing_ws_bound(s: Seq<char>)
    ensures
        trailing_ws(s) <= s.len(),
    decreases s.len(),
{
    if s.len() > 0 && is_ws(s.last()) {
        lemma_trailing_ws_bound(s.drop_last());
    }
}

proof fn lemma_leading_bounds(s: Seq<char>)
    ensures
        leading_ws(s) <= s.len(),
        leading_word(s) <= s.len(),
    decreases s.len(),
{
    if s.len() > 0 {
        lemma_leading_bounds(s.drop_first());
    }
}

/// Bounds `[a, b)` of the trimmed `v[start..end]`.
pub fn trim_range(v: &Vec<char>, start: usize, end: usize) -> (r: (usize, usize))
    requires
        start <= end <= v@.len(),
    ensures
        start <= r.0 <= r.1 <= end,
        v@.subrange(r.0 as int, r.1 as int) == trim(v@.subrange(start as int, end as int)),
{
    let a = skip_ws(v, start, end);
    let b = trim_end(v, a, end);
    proof {
        let s = v@.subrange(start as int, end as int);
        let t = s.skip(leading_ws(s) as int);
        assert(t =~= v@.subrange(a as int, end as int));
        lemma_trailing_ws_bound(t);
        assert(v@.subrange(a as int, b as int) =~= t.take(t.len() - trailing_ws(t)));
    }
    (a, b)
}

/// Whether `v[start..end]` holds exactly the characters of `key`.
fn range_is(v: &Vec<char>, start: usize, end: usize, key: &Vec<char>) -> (b: bool)
    requires
        start <= end <= v@.len(),
    ensures
        b == (v@.subrange(start as int, end as int) == key@),
{
    if end - start != key.len() {
        return false;
    }
    let mut i: usize = 0;
    while i < key.len()
        invariant
            0 <= i <= key@.len(),
            end - start == key@.len(),
            start <= end <= v@.len(),
            forall|j: int| 0 <= j < i ==> v@[start + j] == key@[j],
        decreases key@.len() - i,
    {
        assert(start + i < end);
        if v[start + i] != key[i] {
            assert(v@.subrange(start as int, end as int)[i as int] != key@[i as int]);
            return false;
        }
        i = i + 1;
    }
    assert(v@.subrange(start as int, end as int) =~= key@);
    true
}

/// The entry of the kstat line `v[start..end]`.
fn kstat_entry_of(v: &Vec<char>, start: usize, end: usize) -> (r: Option<(usize, usize, u64)>)
    requires
        start <= end <= v@.len(),
    ensures
        match kstat_entry(v@.subrange(start as int, end as int)) {
            None => r is None,
            Some((key, value)) => r matches Some((ks, ke, val)) && start <= ks <= ke <= end
                && v@.subrange(ks as int, ke as int) == key && val == value,
        },
{
    let ghost line = v@.subrange(start as int, end as int);
    let a = skip_ws(v, start, end);
    let b = skip_word(v, a, end);
    let c = skip_ws(v, b, end);
    let d = skip_word(v, c, end);
    let e = skip_ws(v, d, end);
    let f = skip_word(v, e, end);
    proof {
        let t0 = line.skip(leading_ws(line) as int);
        assert(t0 =~= v@.subrange(a as int, end as int));
        assert(first_word(line) =~= v@.subrange(a as int, b as int));
        let r1 = after_word(line);
        assert(r1 =~= v@.subrange(b as int, end as int));
        let t1 = r1.skip(leading_ws(r1) as int);
        assert(t1 =~= v@.subrange(c as int, end as int));
        let r2 = after_word(r1);
        assert(r2 =~= v@.subrange(d as int, end as int));
        let t2 = r2.skip(leading_ws(r2) as int);
        assert(t2 =~= v@.subrange(e as int, end as int));
        assert(first_word(r2) =~= v@.subrange(e as int, f as int));
    }
    if b == a {
        return None;
    }
    match parse_u64_chars(v, e, f) {
        Some(x) => Some((a, b, x)),
        None => None,
    }
}

/// The entry of the line `v[start..end]`: the bounds of its key and its
/// value, if it holds one.
fn entry_of(style: LineStyle, v: &Vec<char>, start: usize, end: usize) -> (r: Option<
    (usize, usize, u64),
>)
    requires
        start <= end <= v@.len(),
    ensures
        match line_entry(style, v@.subrange(start as int, end as int)) {
            None => r is None,
            Some((key, value)) => r matches Some((ks, ke, val)) && start <= ks <= ke <= end
                && v@.subrange(ks as int, ke as int) == key && val == value,
        },
{
    if style == LineStyle::Kstat {
        return kstat_entry_of(v, start, end);
    }
    let ghost line = v@.subrange(start as int, end as int);
    let colon = find_char(v, start, end, ':');
    if colon >= end {
        return None;
    }
    proof {
        assert(line.take(colon - start) =~= v@.subrange(start as int, colon as int));
        assert(line.skip(colon - start + 1) =~= v@.subrange(colon + 1, end as int));
    }
    match style {
        LineStyle::Meminfo => {
            let w = skip_ws(v, colon + 1, end);
            let e = skip_word(v, w, end);
            proof {
                let rest = v@.subrange(colon + 1, end as int);
                let t = rest.skip(leading_ws(rest) as int);
                assert(t =~= v@.subrange(w as int, end as int));
                assert(t.take(leading_word(t) as int) =~= v@.subrange(w as int, e as int));
            }
            let value = match parse_u64_chars(v, w, e) {
                Some(x) => x,
                None => 0,
            };
            Some((start, colon, value))
        },
        _ => {
            let (va, vb) = trim_range(v, colon + 1, end);
            match parse_u64_chars(v, va, vb) {
                Some(x) => {
                    let (ka, kb) = trim_range(v, start, colon);
                    Some((ka, kb, x))
                },
                None => None,
            }
        },
    }
}

/// The values of `keys` in `content`, in the order of `keys`.
pub fn lookup_all(style: LineStyle, content: &Vec<char>, keys: &Vec<Vec<char>>) -> (r: Vec<
    Option<u64>,
>)
    ensures
        r@.len() == keys@.len(),
        forall|i: int|
            0 <= i < keys@.len() ==> #[trigger] r@[i] == lookup(style, content@, keys@[i]@),
{
    let mut slots: Vec<Option<u64>> = Vec::new();
    let mut j: usize = 0;
    while j < keys.len()
        invariant
            0 <= j <= keys@.len(),
            slots@.len() == j,
            forall|i: int| 0 <= i < j ==> #[trigger] slots@[i] == None::<u64>,
        decreases keys@.len() - j,
    {
        slots.push(None);
        j = j + 1;
    }
    let end = content.len();
    let mut pos: usize = 0;
    assert(content@.subrange(0, end as int) =~= content@);
    loop
        invariant
            0 <= pos <= end,
            end == content@.len(),
            slots@.len() == keys@.len(),
            forall|i: int|
                0 <= i < keys@.len() ==> lookup_from(
                    style,
                    content@.subrange(pos as int, end as int),
                    keys@[i]@,
                    #[trigger] slots@[i],
                ) == lookup(style, content@, keys@[i]@),
        decreases end - pos,
    {
        let nl = find_char(content, pos, end, '\n');
        let ghost s = content@.subrange(pos as int, end as int);
        proof {
            assert(s.take(nl - pos) =~= content@.subrange(pos as int, nl as int));
        }
        let entry = entry_of(style, content, pos, nl);
        let ghost old_slots = slots@;
        let mut i: usize = 0;
        while i < keys.len()
            invariant
                0 <= i <= keys@.len(),
                slots@.len() == keys@.len(),
                old_slots.len() == keys@.len(),
                pos <= nl <= end,
                end == content@.len(),
                forall|k: int|
                    0 <= k < keys@.len() ==> #[trigger] slots@[k] == (if k < i {
                        match line_entry(style, content@.subrange(pos as int, nl as int)) {
                            Some((key, v)) => if key == keys@[k]@ {
                                Some(v)
                            } else {
                                old_slots[k]
                            },
                            None => old_slots[k],
                        }
                    } else {
                        old_slots[k]
                    }),
                match line_entry(style, content@.subrange(pos as int, nl as int)) {
                    None => entry is None,
                    Some((key, value)) => entry matches Some((ks, ke, val)) && pos <= ks <= ke
                        <= nl && content@.subrange(ks as int, ke as int) == key && val == value,
                },
            decreases keys@.len() - i,
        {
            match entry {
                Some((ks, ke, val)) => {
                    if range_is(content, ks, ke, &keys[i]) {
                        slots.set(i, Some(val));
                    }
                },
                None => {},
            }
            i = i + 1;
        }
        if nl >= end {
            proof {
                assert forall|k: int| 0 <= k < keys@.len() implies #[trigger] slots@[k] == lookup(
                    style,
                    content@,
                    keys@[k]@,
                ) by {
                    assert(lookup_from(style, s, keys@[k]@, old_slots[k]) == slots@[k]);
                }
            }
            return slots;
        }
        proof {
            assert(s.skip(nl - pos + 1) =~= content@.subrange(nl + 1, end as int));
            assert forall|k: int| 0 <= k < keys@.len() implies lookup_from(
                style,
                content@.subrange(nl + 1, end as int),
                keys@[k]@,
                #[trigger] slots@[k],
            ) == lookup(style, content@, keys@[k]@) by {
                assert(lookup_from(style, s, keys@[k]@, old_slots[k]) == lookup_from(
                    style,
                    content@.subrange(nl + 1, end as int),
                    keys@[k]@,
                    slots@[k],
                ));
            }
        }
        pos = nl + 1;
    }
}

} // verus!
