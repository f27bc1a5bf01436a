//! Reading the text of Linux `/proc` files: lines, whitespace-separated
//! fields, and the numbers the agent takes from `meminfo`, `stat` and a
//! process's `status` and `stat`.
use vstd::prelude::*;
use crate::num::{
    all_digits, is_digit, parse_i64, parse_u64, parse_unsigned, spec_parse_i64, spec_parse_u64,
    spec_parse_unsigned,
};
use crate::text::{chars_of, contains, contains_seq, has_prefix, is_whitespace, is_ws, strip_prefix, string_from_range};

verus! {

/// A line without the `\r` of a `\r\n` ending.
pub open spec fn strip_cr(l: Seq<char>) -> Seq<char> {
    if l.len() > 0 && l.last() == '\r' {
        l.drop_last()
    } else {
        l
    }
}

/// The lines of `s` that follow a line `cur` under way.
pub open spec fn lines_from(s: Seq<char>, cur: Seq<char>) -> Seq<Seq<char>>
    decreases s.len(),
{
    if s.len() == 0 {
        if cur.len() == 0 {
            Seq::empty()
        } else {
            seq![cur]
        }
    } else if s[0] == '\n' {
        seq![strip_cr(cur)] + lines_from(s.drop_first(), Seq::empty())
    } else {
        lines_from(s.drop_first(), cur.push(s[0]))
    }
}

/// The lines of `s` (`str::lines`): split at `\n`, a `\r` before the `\n`
/// dropped, and no empty line after a final `\n`.
pub open spec fn spec_lines(s: Seq<char>) -> Seq<Seq<char>> {
    lines_from(s, Seq::empty())
}

/// The views of a vector of strings.
pub open spec fn views(v: Seq<String>) -> Seq<Seq<char>> {
    v.map_values(|x: String| x@)
}

proof fn lemma_views_push(v: Seq<String>, x: String)
    ensures
        views(v.push(x)) == views(v).push(x@),
{
    assert(views(v.push(x)) =~= views(v).push(x@));
}

/// The lines of a text.
pub fn lines(s: &str) -> (r: Vec<String>)
    ensures
        views(r@) == spec_lines(s@),
{
    let v = chars_of(s);
    let mut out: Vec<String> = Vec::new();
    let mut start: usize = 0;
    let mut i: usize = 0;
    assert(v@.skip(0) =~= v@);
    assert(v@.subrange(0, 0) =~= Seq::<char>::empty());
    while i < v.len()
        invariant
            v@ == s@,
            start <= i <= v@.len(),
            spec_lines(s@) == views(out@) + lines_from(v@.skip(i as int), v@.subrange(
                start as int,
                i as int,
            )),
        decreases v@.len() - i,
    {
        let ghost cur = v@.subrange(start as int, i as int);
        let ghost rest = v@.skip(i as int);
        assert(rest[0] == v@[i as int]);
        assert(rest.drop_first() =~= v@.skip(i + 1));
        if v[i] == '\n' {
            let end: usize = if i > start && v[i - 1] == '\r' {
                i - 1
            } else {
                i
            };
            proof {
                if i > start && v@[i - 1] == '\r' {
                    assert(cur.drop_last() =~= v@.subrange(start as int, end as int));
                } else {
                    assert(cur =~= v@.subrange(start as int, end as int));
                }
            }
            let line = string_from_range(&v, start, end);
            proof {
                lemma_views_push(out@, line);
                assert(v@.subrange(i + 1, i + 1) =~= Seq::<char>::empty());
            }
            out.push(line);
            start = i + 1;
        } else {
            assert(cur.push(v@[i as int]) =~= v@.subrange(start as int, i + 1));
        }
        i = i + 1;
    }
    assert(v@.skip(i as int) =~= Seq::<char>::empty());
    if start < v.len() {
        let line = string_from_range(&v, start, v.len());
        proof {
            lemma_views_push(out@, line);
        }
        out.push(line);
    } else {
        assert(v@.subrange(start as int, i as int) =~= Seq::<char>::empty());
    }
    assert(views(out@) =~= spec_lines(s@));
    out
}

/// The fields of `s` that follow a field `cur` under way.
pub open spec fn fields_from(s: Seq<char>, cur: Seq<char>) -> Seq<Seq<char>>
    decreases s.len(),
{
    if s.len() == 0 {
        if cur.len() == 0 {
            Seq::empty()
        } else {
            seq![cur]
        }
    } else if is_ws(s[0]) {
        (if cur.len() == 0 {
            Seq::empty()
        } else {
            seq![cur]
        }) + fields_from(s.drop_first(), Seq::empty())
    } else {
        fields_from(s.drop_first(), cur.push(s[0]))
    }
}

/// The whitespace-separated fields of `s` (`str::split_whitespace`).
pub open spec fn spec_fields(s: Seq<char>) -> Seq<Seq<char>> {
    fields_from(s, Seq::empty())
}

/// The whitespace-separated fields of a text.
pub fn fields(s: &str) -> (r: Vec<String>)
    ensures
        views(r@) == spec_fields(s@),
{
    let v = chars_of(s);
    let mut out: Vec<String> = Vec::new();
    let mut start: usize = 0;
    let mut i: usize = 0;
    assert(v@.skip(0) =~= v@);
    assert(v@.subrange(0, 0) =~= Seq::<char>::empty());
    while i < v.len()
        invariant
            v@ == s@,
            start <= i <= v@.len(),
            spec_fields(s@) == views(out@) + fields_from(v@.skip(i as int), v@.subrange(
                start as int,
                i as int,
            )),
        decreases v@.len() - i,
    {
        let ghost cur = v@.subrange(start as int, i as int);
        let ghost rest = v@.skip(i as int);
        assert(rest[0] == v@[i as int]);
        assert(rest.drop_first() =~= v@.skip(i + 1));
        if is_whitespace(v[i]) {
            if start < i {
                let f = string_from_range(&v, start, i);
                proof {
                    lemma_views_push(out@, f);
                }
                out.push(f);
            } else {
                assert(views(out@) + Seq::<Seq<char>>::empty() =~= views(out@));
            }
            assert(v@.subrange(i + 1, i + 1) =~= Seq::<char>::empty());
            start = i + 1;
        } else {
            assert(cur.push(v@[i as int]) =~= v@.subrange(start as int, i + 1));
        }
        i = i + 1;
    }
    assert(v@.skip(i as int) =~= Seq::<char>::empty());
    if start < v.len() {
        let f = string_from_range(&v, start, v.len());
        proof {
            lemma_views_push(out@, f);
        }
        out.push(f);
    } else {
        assert(v@.subrange(start as int, i as int) =~= Seq::<char>::empty());
    }
    assert(views(out@) =~= spec_fields(s@));
    out
}

/// The first whitespace-separated field of `raw` read as a number of
/// kilobytes (`split_whitespace().next()?.parse().ok()`).
pub open spec fn spec_parse_kb(raw: Seq<char>) -> Option<i64> {
    let f = spec_fields(raw);
    if f.len() > 0 {
        spec_parse_i64(f[0])
    } else {
        None
    }
}

/// Reads the number at the start of a `/proc` value such as ` 123 kB`.
pub fn parse_kb(raw: &str) -> (r: Option<i64>)
    ensures
        r == spec_parse_kb(raw@),
{
    let f = fields(raw);
    if f.len() > 0 {
        assert(views(f@)[0] == f@[0]@);
        parse_i64(f[0].as_str())
    } else {
        None
    }
}

/// `a * b` clamped to the range of `i64` (`i64::saturating_mul`).
pub open spec fn sat_mul_i64(a: i64, b: i64) -> i64 {
    if a * b > i64::MAX {
        i64::MAX
    } else if a * b < i64::MIN {
        i64::MIN
    } else {
        (a * b) as i64
    }
}

/// `a - b` clamped to the range of `i64` (`i64::saturating_sub`).
pub open spec fn sat_sub_i64(a: i64, b: i64) -> i64 {
    if a - b > i64::MAX {
        i64::MAX
    } else if a - b < i64::MIN {
        i64::MIN
    } else {
        (a - b) as i64
    }
}

pub fn sat_mul(a: i64, b: i64) -> (r: i64)
    ensures
        r == sat_mul_i64(a, b),
{
    match a.checked_mul(b) {
        Some(m) => m,
        None => {
            if (a > 0) == (b > 0) {
                assert(a * b > i64::MAX) by (nonlinear_arith)
                    requires
                        (a > 0) == (b > 0),
                        a * b > i64::MAX || a * b < i64::MIN,
                ;
                i64::MAX
            } else {
                assert(a * b < i64::MIN) by (nonlinear_arith)
                    requires
                        (a > 0) != (b > 0),
                        a * b > i64::MAX || a * b < i64::MIN,
                ;
                i64::MIN
            }
        },
    }
}

pub fn sat_sub(a: i64, b: i64) -> (r: i64)
    ensures
        r == sat_sub_i64(a, b),
{
    match a.checked_sub(b) {
        Some(m) => m,
        None => if b < 0 {
            i64::MAX
        } else {
            i64::MIN
        },
    }
}

/// The `MemTotal` and `MemAvailable` kilobytes that `meminfo` lines give;
/// a later line overrides an earlier one.
pub open spec fn mem_scan(lines: Seq<Seq<char>>) -> (Option<i64>, Option<i64>)
    decreases lines.len(),
{
    if lines.len() == 0 {
        (None, None)
    } else {
        let (t, a) = mem_scan(lines.drop_last());
        let l = lines.last();
        if has_prefix(l, "MemTotal:"@) {
            (spec_parse_kb(l.skip(9)), a)
        } else if has_prefix(l, "MemAvailable:"@) {
            (t, spec_parse_kb(l.skip(13)))
        } else {
            (t, a)
        }
    }
}

/// What `/proc/meminfo` says of the host's memory, in bytes: `(used,
/// total)`, where used is total less available. Arithmetic saturates.
pub open spec fn spec_memory_bytes(raw: Seq<char>) -> (Option<i64>, Option<i64>) {
    let (t, a) = mem_scan(spec_lines(raw));
    let total = match t {
        Some(k) => Some(sat_mul_i64(k, 1024)),
        None => None,
    };
    let used = match (t, a) {
        (Some(tk), Some(ak)) => Some(sat_mul_i64(sat_sub_i64(tk, ak), 1024)),
        _ => None,
    };
    (used, total)
}

/// Reads the host's used and total memory from the text of `/proc/meminfo`.
pub fn memory_bytes(raw: &str) -> (r: (Option<i64>, Option<i64>))
    ensures
        r == spec_memory_bytes(raw@),
{
    let ls = lines(raw);
    let mut total_kb: Option<i64> = None;
    let mut avail_kb: Option<i64> = None;
    let mut i: usize = 0;
    while i < ls.len()
        invariant
            i <= ls@.len(),
            views(ls@) == spec_lines(raw@),
            (total_kb, avail_kb) == mem_scan(views(ls@).take(i as int)),
        decreases ls@.len() - i,
    {
        let ghost l = views(ls@)[i as int];
        proof {
            reveal_strlit("MemTotal:");
            reveal_strlit("MemAvailable:");
        }
        assert(views(ls@).take(i + 1).drop_last() =~= views(ls@).take(i as int));
        assert(views(ls@).take(i + 1).last() == l);
        assert(ls@[i as int]@ == l);
        match strip_prefix(ls[i].as_str(), "MemTotal:") {
            Some(rest) => {
                total_kb = parse_kb(rest.as_str());
            },
            None => match strip_prefix(ls[i].as_str(), "MemAvailable:") {
                Some(rest) => {
                    avail_kb = parse_kb(rest.as_str());
                },
                None => {},
            },
        }
        i = i + 1;
    }
    assert(views(ls@).take(ls@.len() as int) =~= views(ls@));
    let total = match total_kb {
        Some(k) => Some(sat_mul(k, 1024)),
        None => None,
    };
    let used = match (total_kb, avail_kb) {
        (Some(t), Some(a)) => Some(sat_mul(sat_sub(t, a), 1024)),
        _ => None,
    };
    (used, total)
}

/// The rest of the first line that starts with `prefix`.
pub open spec fn first_with_prefix(lines: Seq<Seq<char>>, prefix: Seq<char>) -> Option<Seq<char>>
    decreases lines.len(),
{
    if lines.len() == 0 {
        None
    } else if has_prefix(lines[0], prefix) {
        Some(lines[0].skip(prefix.len() as int))
    } else {
        first_with_prefix(lines.drop_first(), prefix)
    }
}

/// The kilobytes of a `Name: value kB` field, read from the first line
/// that starts with `prefix`; nothing where there is no such line or its
/// value is not a number.
pub open spec fn spec_field_kb(raw: Seq<char>, prefix: Seq<char>) -> Option<i64> {
    match first_with_prefix(spec_lines(raw), prefix) {
        Some(rest) => spec_parse_kb(rest),
        None => None,
    }
}

/// Reads a kilobyte field such as `VmRSS:` or `MemTotal:` from a `/proc`
/// file.
pub fn field_kb(raw: &str, prefix: &str) -> (r: Option<i64>)
    ensures
        r == spec_field_kb(raw@, prefix@),
{
    let ls = lines(raw);
    let mut i: usize = 0;
    assert(views(ls@).skip(0) =~= views(ls@));
    while i < ls.len()
        invariant
            i <= ls@.len(),
            views(ls@) == spec_lines(raw@),
            first_with_prefix(spec_lines(raw@), prefix@) == first_with_prefix(
                views(ls@).skip(i as int),
                prefix@,
            ),
        decreases ls@.len() - i,
    {
        assert(views(ls@).skip(i as int)[0] == ls@[i as int]@);
        match strip_prefix(ls[i].as_str(), prefix) {
            Some(rest) => {
                return parse_kb(rest.as_str());
            },
            None => {},
        }
        assert(views(ls@).skip(i as int).drop_first() =~= views(ls@).skip(i + 1));
        i = i + 1;
    }
    assert(views(ls@).skip(i as int) =~= Seq::<Seq<char>>::empty());
    None
}

/// Kilobytes as bytes, wrapping around on overflow as a release build of
/// `kb * 1024` does.
pub open spec fn kb_bytes(kb: i64) -> i64 {
    vstd::wrapping::i64_specs::wrapping_mul(kb, 1024)
}

/// Converts a kilobyte reading to bytes.
pub fn kb_to_bytes(kb: i64) -> (r: i64)
    ensures
        r == kb_bytes(kb),
{
    kb.wrapping_mul(1024)
}

/// The numbers among `fields` that read as `u64`, in order; the others are
/// skipped.
pub open spec fn numbers_of(fields: Seq<Seq<char>>) -> Seq<u64>
    decreases fields.len(),
{
    if fields.len() == 0 {
        Seq::empty()
    } else {
        let rest = numbers_of(fields.drop_last());
        match spec_parse_u64(fields.last()) {
            Some(n) => rest.push(n),
            None => rest,
        }
    }
}

/// The sum of the numbers, wrapping around on overflow (`Iterator::sum`
/// in a release build).
pub open spec fn wrapping_sum(ns: Seq<u64>) -> u64
    decreases ns.len(),
{
    if ns.len() == 0 {
        0
    } else {
        vstd::wrapping::u64_specs::wrapping_add(wrapping_sum(ns.drop_last()), ns.last())
    }
}

fn numbers(fs: &Vec<String>, from: usize) -> (r: Vec<u64>)
    requires
        from <= fs@.len(),
    ensures
        r@ == numbers_of(views(fs@).skip(from as int)),
{
    let ghost src = views(fs@).skip(from as int);
    let mut out: Vec<u64> = Vec::new();
    let mut i: usize = from;
    assert(src.take(0) =~= Seq::<Seq<char>>::empty());
    while i < fs.len()
        invariant
            from <= i <= fs@.len(),
            src == views(fs@).skip(from as int),
            out@ == numbers_of(src.take(i - from)),
        decreases fs@.len() - i,
    {
        assert(src.take(i - from + 1).drop_last() =~= src.take(i - from));
        assert(src.take(i - from + 1).last() == fs@[i as int]@);
        match parse_u64(fs[i].as_str()) {
            Some(n) => out.push(n),
            None => {},
        }
        i = i + 1;
    }
    assert(src.take(i - from) =~= src);
    out
}

fn sum_wrapping(ns: &Vec<u64>) -> (r: u64)
    ensures
        r == wrapping_sum(ns@),
{
    let mut acc: u64 = 0;
    let mut i: usize = 0;
    while i < ns.len()
        invariant
            i <= ns@.len(),
            acc == wrapping_sum(ns@.take(i as int)),
        decreases ns@.len() - i,
    {
        assert(ns@.take(i + 1).drop_last() =~= ns@.take(i as int));
        acc = acc.wrapping_add(ns[i]);
        i = i + 1;
    }
    assert(ns@.take(ns@.len() as int) =~= ns@);
    acc
}

/// The idle and total CPU time of the host from `/proc/stat`: its first
/// line must start with the field `cpu` and hold at least four numbers;
/// idle is the fourth plus the fifth (if any), total the sum of all.
/// Sums wrap around on overflow as in a release build.
pub open spec fn spec_cpu_times(raw: Seq<char>) -> Option<(u64, u64)> {
    let ls = spec_lines(raw);
    if ls.len() == 0 {
        None
    } else {
        let fs = spec_fields(ls[0]);
        if fs.len() == 0 || fs[0] != "cpu"@ {
            None
        } else {
            let ns = numbers_of(fs.drop_first());
            if ns.len() < 4 {
                None
            } else {
                let extra: u64 = if ns.len() > 4 {
                    ns[4]
                } else {
                    0
                };
                Some((vstd::wrapping::u64_specs::wrapping_add(ns[3], extra), wrapping_sum(ns)))
            }
        }
    }
}

/// Reads the host's idle and total CPU time from the text of `/proc/stat`.
pub fn cpu_times(raw: &str) -> (r: Option<(u64, u64)>)
    ensures
        r == spec_cpu_times(raw@),
{
    let ls = lines(raw);
    if ls.len() == 0 {
        return None;
    }
    assert(views(ls@)[0] == ls@[0]@);
    let fs = fields(ls[0].as_str());
    if fs.len() == 0 {
        return None;
    }
    assert(views(fs@)[0] == fs@[0]@);
    if !crate::text::str_eq(fs[0].as_str(), "cpu") {
        return None;
    }
    assert(views(fs@).skip(1) =~= views(fs@).drop_first());
    let ns = numbers(&fs, 1);
    if ns.len() < 4 {
        return None;
    }
    let extra: u64 = if ns.len() > 4 {
        ns[4]
    } else {
        0
    };
    Some((ns[3].wrapping_add(extra), sum_wrapping(&ns)))
}

/// The total CPU time of the host from `/proc/stat`: the sum of the numbers
/// on its first line after the first field (wrapping on overflow).
pub open spec fn spec_total_jiffies(raw: Seq<char>) -> Option<u64> {
    let ls = spec_lines(raw);
    if ls.len() == 0 {
        None
    } else {
        let fs = spec_fields(ls[0]);
        Some(
            wrapping_sum(
                numbers_of(
                    if fs.len() == 0 {
                        fs
                    } else {
                        fs.drop_first()
                    },
                ),
            ),
        )
    }
}

/// Reads the host's total CPU time from the text of `/proc/stat`.
pub fn total_jiffies(raw: &str) -> (r: Option<u64>)
    ensures
        r == spec_total_jiffies(raw@),
{
    let ls = lines(raw);
    if ls.len() == 0 {
        return None;
    }
    assert(views(ls@)[0] == ls@[0]@);
    let fs = fields(ls[0].as_str());
    let from: usize = if fs.len() == 0 {
        0
    } else {
        1
    };
    proof {
        if fs.len() == 0 {
            assert(views(fs@).skip(0) =~= views(fs@));
        } else {
            assert(views(fs@).skip(1) =~= views(fs@).drop_first());
        }
    }
    let ns = numbers(&fs, from);
    Some(sum_wrapping(&ns))
}

/// The index of the last `c` in `s`.
pub open spec fn last_index_of(s: Seq<char>, c: char) -> Option<int>
    decreases s.len(),
{
    if s.len() == 0 {
        None
    } else if s.last() == c {
        Some(s.len() - 1)
    } else {
        last_index_of(s.drop_last(), c)
    }
}

/// The CPU time of a process from the text of its `/proc/<pid>/stat`: the
/// fields after the `) ` that closes the command name, where the twelfth
/// and thirteenth are user and system time. The text after the `)` is
/// taken from two bytes on, so it must be there and the byte after the `)`
/// must be a whole character.
pub open spec fn spec_proc_cpu_jiffies(raw: Seq<char>) -> Option<u64> {
    match last_index_of(raw, ')') {
        Some(close) => if close + 1 >= raw.len() || (raw[close + 1] as u32) >= 0x80 {
            None
        } else {
            let fs = spec_fields(raw.skip(close + 2));
            if fs.len() < 13 {
                None
            } else {
                match (spec_parse_u64(fs[11]), spec_parse_u64(fs[12])) {
                    (Some(u), Some(s)) => Some(
                        if u + s > u64::MAX {
                            u64::MAX
                        } else {
                            (u + s) as u64
                        },
                    ),
                    _ => None,
                }
            }
        },
        None => None,
    }
}

/// Reads a process's user plus system CPU time (saturating) from the text of
/// its `/proc/<pid>/stat`.
pub fn proc_cpu_jiffies(raw: &str) -> (r: Option<u64>)
    ensures
        r == spec_proc_cpu_jiffies(raw@),
{
    let v = chars_of(raw);
    let mut k: usize = v.len();
    assert(v@.take(k as int) =~= v@);
    while k > 0 && v[k - 1] != ')'
        invariant
            v@ == raw@,
            k <= v@.len(),
            last_index_of(raw@, ')') == last_index_of(v@.take(k as int), ')'),
        decreases k,
    {
        assert(v@.take(k as int).drop_last() =~= v@.take(k - 1));
        k = k - 1;
    }
    if k == 0 {
        assert(v@.take(0) =~= Seq::<char>::empty());
        return None;
    }
    let close = k - 1;
    assert(v@.take(k as int).last() == v@[close as int]);
    if close + 1 >= v.len() || (v[close + 1] as u32) >= 0x80 {
        return None;
    }
    let rest = string_from_range(&v, close + 2, v.len());
    assert(v@.subrange(close + 2, v@.len() as int) =~= raw@.skip(close + 2));
    let fs = fields(rest.as_str());
    if fs.len() < 13 {
        return None;
    }
    assert(views(fs@)[11] == fs@[11]@ && views(fs@)[12] == fs@[12]@);
    match (parse_u64(fs[11].as_str()), parse_u64(fs[12].as_str())) {
        (Some(u), Some(s)) => Some(u.saturating_add(s)),
        _ => None,
    }
}

/// A `/proc` entry name that is all ASCII digits, read as a process id.
pub open spec fn spec_pid_of(name: Seq<char>) -> Option<i32> {
    if all_digits(name) {
        match spec_parse_unsigned(name, i32::MAX as nat) {
            Some(v) => Some(v as i32),
            None => None,
        }
    } else {
        None
    }
}

/// The process id a `/proc` entry is named by, if it is a process.
pub fn pid_of(name: &str) -> (r: Option<i32>)
    ensures
        r == spec_pid_of(name@),
{
    let v = chars_of(name);
    let mut i: usize = 0;
    while i < v.len()
        invariant
            v@ == name@,
            i <= v@.len(),
            forall|j: int| 0 <= j < i ==> is_digit(#[trigger] v@[j]),
        decreases v@.len() - i,
    {
        let u = v[i] as u32;
        if u < 48 || u > 57 {
            assert(!is_digit(v@[i as int]));
            return None;
        }
        i = i + 1;
    }
    match parse_unsigned(name, i32::MAX as u64) {
        Some(n) => Some(n as i32),
        None => None,
    }
}

/// A command line (arguments separated by NUL bytes) with the NULs read as
/// spaces.
pub open spec fn nul_to_space(s: Seq<char>) -> Seq<char> {
    s.map_values(|c: char| if c == '\0' { ' ' } else { c })
}

/// Whether a process's command line contains `needle`, its arguments
/// joined by spaces.
pub fn cmdline_matches(cmdline: &str, needle: &str) -> (r: bool)
    ensures
        r == contains_seq(nul_to_space(cmdline@), needle@),
{
    let v = chars_of(cmdline);
    let mut w: Vec<char> = Vec::new();
    let mut i: usize = 0;
    while i < v.len()
        invariant
            v@ == cmdline@,
            i <= v@.len(),
            w@ == nul_to_space(v@.take(i as int)),
        decreases v@.len() - i,
    {
        let c = v[i];
        w.push(if c == '\0' {
            ' '
        } else {
            c
        });
        assert(nul_to_space(v@.take(i + 1)) =~= nul_to_space(v@.take(i as int)).push(
            if c == '\0' {
                ' '
            } else {
                c
            },
        ));
        i = i + 1;
    }
    assert(v@.take(v@.len() as int) =~= v@);
    let joined = crate::text::string_from_chars(&w);
    contains(joined.as_str(), needle)
}

} // verus!
