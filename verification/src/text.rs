//! Text utilities shared by the drivers: character access, decimal
//! numbers, substring replacement, line splitting and path joining.

use vstd::prelude::*;
use vstd::string::StringExecFns;
use vstd::string::StrSliceExecFns;

verus! {

/// The characters of `s`, in order.
pub fn chars_of(s: &str) -> (v: Vec<char>)
    ensures
        v@ == s@,
{
    let mut v: Vec<char> = Vec::new();
    for c in it: s.chars()
        invariant
            it.seq() == s@,
            v@ == it.seq().take(it.index() as int),
    {
        v.push(c);
    }
    v
}

/// `c` is one of the ten ASCII digits.
pub open spec fn is_digit(c: char) -> bool {
    0x30 <= c as u32 && c as u32 <= 0x39
}

/// The number a digit stands for.
pub open spec fn digit_value(c: char) -> nat {
    if is_digit(c) {
        (c as u32 - 0x30) as nat
    } else {
        0
    }
}

/// Every character of `s` is an ASCII digit.
pub open spec fn all_digits(s: Seq<char>) -> bool {
    forall|i: int| 0 <= i < s.len() ==> is_digit(#[trigger] s[i])
}

/// The number written by the digits of `s`, most significant first.
pub open spec fn decimal_value(s: Seq<char>) -> nat
    decreases s.len(),
{
    if s.len() == 0 {
        0
    } else {
        decimal_value(s.drop_last()) * 10 + digit_value(s.last())
    }
}

/// What `s` denotes as an unsigned decimal number that fits in 64 bits:
/// `s` must be a non-empty run of digits whose value does not exceed
/// `u64::MAX`.
pub open spec fn decimal_number(s: Seq<char>) -> Option<u64> {
    if s.len() > 0 && all_digits(s) && decimal_value(s) <= u64::MAX {
        Some(decimal_value(s) as u64)
    } else {
        None
    }
}

/// A prefix of a digit string never denotes more than the whole string.
pub proof fn lemma_decimal_value_prefix(s: Seq<char>, k: int)
    requires
        0 <= k <= s.len(),
    ensures
        decimal_value(s.take(k)) <= decimal_value(s),
    decreases s.len(),
{
    if k == s.len() {
        assert(s.take(k) =~= s);
    } else {
        lemma_decimal_value_prefix(s.drop_last(), k);
        assert(s.drop_last().take(k) =~= s.take(k));
    }
}

/// Tells whether `c` is an ASCII digit.
pub fn is_digit_char(c: char) -> (b: bool)
    ensures
        b == is_digit(c),
{
    '0' <= c && c <= '9'
}

/// Reads `chars[from..to]` as an unsigned decimal number.
pub fn parse_decimal(chars: &Vec<char>, from: usize, to: usize) -> (r: Option<u64>)
    requires
        from <= to <= chars.len(),
    ensures
        r == decimal_number(chars@.subrange(from as int, to as int)),
{
    let ghost s = chars@.subrange(from as int, to as int);
    if from == to {
        return None;
    }
    let mut acc: u64 = 0;
    let mut i: usize = from;
    while i < to
        invariant
            from <= i <= to <= chars.len(),
            s == chars@.subrange(from as int, to as int),
            all_digits(s.take(i - from)),
            acc == decimal_value(s.take(i - from)),
        decreases to - i,
    {
        let c: char = chars[i];
        let ghost next = s.take(i - from + 1);
        proof {
            assert(next.drop_last() =~= s.take(i - from));
            assert(next.last() == c);
            assert(s[i - from] == c);
        }
        if !is_digit_char(c) {
            return None;
        }
        let d: u64 = (c as u32 - 0x30) as u64;
        proof {
            lemma_decimal_value_prefix(s, i - from + 1);
        }
        if acc > (u64::MAX - d) / 10 {
            return None;
        }
        acc = acc * 10 + d;
        i = i + 1;
    }
    proof {
        assert(s.take(to - from) =~= s);
    }
    Some(acc)
}

/// The character that writes the digit `d`.
pub open spec fn digit_char(d: nat) -> char {
    (0x30 + d) as char
}

/// The decimal writing of `n`, without leading zeros.
pub open spec fn decimal_text(n: nat) -> Seq<char>
    decreases n,
{
    if n < 10 {
        seq![digit_char(n)]
    } else {
        decimal_text(n / 10) + seq![digit_char(n % 10)]
    }
}

/// The decimal writing of a signed number: a minus sign before the
/// magnitude of a negative one.
pub open spec fn signed_text(i: int) -> Seq<char> {
    if i < 0 {
        seq!['-'] + decimal_text((-i) as nat)
    } else {
        decimal_text(i as nat)
    }
}

/// The decimal writing of a number reads back as that number.
pub proof fn lemma_decimal_round_trip(n: nat)
    ensures
        decimal_text(n).len() > 0,
        all_digits(decimal_text(n)),
        decimal_value(decimal_text(n)) == n,
    decreases n,
{
    if n < 10 {
        let t = decimal_text(n);
        assert(t.drop_last() =~= Seq::<char>::empty());
        assert(decimal_value(t.drop_last()) == 0);
    } else {
        lemma_decimal_round_trip(n / 10);
        let t = decimal_text(n);
        assert(t.drop_last() =~= decimal_text(n / 10));
        assert(t.last() == digit_char(n % 10));
        assert forall|i: int| 0 <= i < t.len() implies is_digit(#[trigger] t[i]) by {
            if i < t.len() - 1 {
                assert(t[i] == decimal_text(n / 10)[i]);
            }
        }
    }
}

fn digit_str(d: u64) -> (s: &'static str)
    requires
        d < 10,
    ensures
        s@ == seq![digit_char(d as nat)],
{
    let s: &'static str = if d == 0 {
        proof { reveal_strlit("0"); }
        "0"
    } else if d == 1 {
        proof { reveal_strlit("1"); }
        "1"
    } else if d == 2 {
        proof { reveal_strlit("2"); }
        "2"
    } else if d == 3 {
        proof { reveal_strlit("3"); }
        "3"
    } else if d == 4 {
        proof { reveal_strlit("4"); }
        "4"
    } else if d == 5 {
        proof { reveal_strlit("5"); }
        "5"
    } else if d == 6 {
        proof { reveal_strlit("6"); }
        "6"
    } else if d == 7 {
        proof { reveal_strlit("7"); }
        "7"
    } else if d == 8 {
        proof { reveal_strlit("8"); }
        "8"
    } else {
        proof { reveal_strlit("9"); }
        "9"
    };
    assert(s@ =~= seq![digit_char(d as nat)]);
    s
}

/// Appends the decimal writing of `n` to `out`.
pub fn append_decimal(out: &mut String, n: u64)
    ensures
        final(out)@ == old(out)@ + decimal_text(n as nat),
    decreases n,
{
    if n >= 10 {
        append_decimal(out, n / 10);
    }
    out.append(digit_str(n % 10));
    proof {
        if n >= 10 {
            assert(old(out)@ + decimal_text((n / 10) as nat) + seq![digit_char((n % 10) as nat)]
                =~= old(out)@ + decimal_text(n as nat));
        }
    }
}

/// Appends the decimal writing of the signed number `n` to `out`.
pub fn append_signed(out: &mut String, n: i32)
    ensures
        final(out)@ == old(out)@ + signed_text(n as int),
{
    if n < 0 {
        proof { reveal_strlit("-"); }
        out.append("-");
        let magnitude: u64 = (-(n as i64)) as u64;
        append_decimal(out, magnitude);
        assert(old(out)@ + "-"@ + decimal_text(magnitude as nat) =~= old(out)@ + signed_text(
            n as int,
        ));
    } else {
        append_decimal(out, n as u64);
    }
}

/// `pat` stands in `text` at position `i`.
pub open spec fn occurs_at(text: Seq<char>, pat: Seq<char>, i: int) -> bool {
    0 <= i && i + pat.len() <= text.len() && text.subrange(i, i + pat.len()) =~= pat
}

/// `text` with every occurrence of `pat` replaced by `rep`, the occurrences
/// found from left to right without overlap. An empty `pat` occurs before
/// every character and at the end.
pub open spec fn replace_all(text: Seq<char>, pat: Seq<char>, rep: Seq<char>) -> Seq<char>
    decreases text.len(),
{
    if pat.len() == 0 {
        if text.len() == 0 {
            rep
        } else {
            rep + seq![text[0]] + replace_all(text.drop_first(), pat, rep)
        }
    } else if text.len() < pat.len() {
        text
    } else if occurs_at(text, pat, 0) {
        rep + replace_all(text.subrange(pat.len() as int, text.len() as int), pat, rep)
    } else {
        seq![text[0]] + replace_all(text.drop_first(), pat, rep)
    }
}

/// Tells whether `pat` stands in `text` at position `i`.
pub fn matches_at(text: &Vec<char>, pat: &Vec<char>, i: usize) -> (b: bool)
    requires
        i + pat.len() <= text.len(),
    ensures
        b == occurs_at(text@, pat@, i as int),
{
    let m: usize = pat.len();
    let mut j: usize = 0;
    while j < m
        invariant
            m == pat.len(),
            i + m <= text.len(),
            j <= m,
            forall|k: int| 0 <= k < j ==> text@[i + k] == pat@[k],
        decreases m - j,
    {
        if text[i + j] != pat[j] {
            proof {
                assert(text@.subrange(i as int, i + m)[j as int] == text@[i + j]);
            }
            return false;
        }
        j = j + 1;
    }
    proof {
        assert(text@.subrange(i as int, i + m) =~= pat@);
    }
    true
}

/// `text` with every occurrence of `pat` replaced by `rep`.
pub fn replace_text(text: &str, pat: &str, rep: &str) -> (out: String)
    ensures
        out@ == replace_all(text@, pat@, rep@),
{
    let t = chars_of(text);
    let p = chars_of(pat);
    let n: usize = t.len();
    let m: usize = p.len();
    let mut out = String::new();
    let mut i: usize = 0;
    proof {
        assert(text@.subrange(0, n as int) =~= text@);
        assert(text@.subrange(0, 0) =~= Seq::<char>::empty());
        assert(out@ + replace_all(text@, pat@, rep@) =~= replace_all(text@, pat@, rep@));
        assert(out@ + text@.subrange(0, 0) =~= out@);
    }
    if m == 0 {
        while i < n
            invariant
                n == t@.len(),
                t@ == text@,
                p@ == pat@,
                p@.len() == 0,
                i <= n,
                replace_all(text@, pat@, rep@) == out@ + replace_all(
                    text@.subrange(i as int, n as int),
                    pat@,
                    rep@,
                ),
            decreases n - i,
        {
            let ghost rest = text@.subrange(i as int, n as int);
            let ghost before = out@;
            out.append(rep);
            out.append(text.substring_char(i, i + 1));
            proof {
                assert(rest.drop_first() =~= text@.subrange(i + 1, n as int));
                assert(text@.subrange(i as int, i + 1) =~= seq![rest[0]]);
                assert(before + (rep@ + seq![rest[0]] + replace_all(rest.drop_first(), pat@, rep@))
                    =~= before + rep@ + text@.subrange(i as int, i + 1) + replace_all(
                    rest.drop_first(),
                    pat@,
                    rep@,
                ));
            }
            i = i + 1;
        }
        proof {
            assert(text@.subrange(n as int, n as int) =~= Seq::<char>::empty());
        }
        out.append(rep);
        return out;
    }
    let mut gap: usize = 0;
    while n - i >= m
        invariant
            n == t@.len(),
            m == p@.len(),
            m > 0,
            t@ == text@,
            p@ == pat@,
            gap <= i <= n,
            replace_all(text@, pat@, rep@) == out@ + text@.subrange(gap as int, i as int)
                + replace_all(text@.subrange(i as int, n as int), pat@, rep@),
        decreases n - i,
    {
        let ghost rest = text@.subrange(i as int, n as int);
        let ghost before = out@;
        if matches_at(&t, &p, i) {
            proof {
                assert(rest.subrange(0, m as int) =~= text@.subrange(i as int, i + m));
                assert(occurs_at(rest, pat@, 0));
                assert(rest.subrange(m as int, rest.len() as int) =~= text@.subrange(
                    i + m,
                    n as int,
                ));
            }
            let ghost gap0 = gap as int;
            let ghost i0 = i as int;
            out.append(text.substring_char(gap, i));
            out.append(rep);
            i = i + m;
            gap = i;
            proof {
                let tail = replace_all(text@.subrange(i as int, n as int), pat@, rep@);
                assert(out@ =~= before + text@.subrange(gap0, i0) + rep@);
                assert(text@.subrange(gap as int, i as int) =~= Seq::<char>::empty());
                assert(before + text@.subrange(gap0, i0) + (rep@ + tail) =~= out@
                    + text@.subrange(gap as int, i as int) + tail);
            }
        } else {
            proof {
                assert(rest.subrange(0, m as int) =~= text@.subrange(i as int, i + m));
                assert(!occurs_at(rest, pat@, 0));
                assert(rest.drop_first() =~= text@.subrange(i + 1, n as int));
                assert(text@.subrange(gap as int, i as int) + (seq![rest[0]] + replace_all(
                    rest.drop_first(),
                    pat@,
                    rep@,
                )) =~= text@.subrange(gap as int, i + 1) + replace_all(
                    rest.drop_first(),
                    pat@,
                    rep@,
                ));
            }
            i = i + 1;
        }
    }
    out.append(text.substring_char(gap, n));
    proof {
        assert(text@.subrange(gap as int, i as int) + text@.subrange(i as int, n as int)
            =~= text@.subrange(gap as int, n as int));
    }
    out
}

/// A start of the replaced text that is free of the replacement's first
/// character was copied unchanged: it is a start of `text` too.
pub proof fn lemma_replaced_prefix_is_copied(
    text: Seq<char>,
    pat: Seq<char>,
    rep: Seq<char>,
    q: Seq<char>,
)
    requires
        pat.len() > 0,
        rep.len() > 0,
        !q.contains(rep[0]),
        occurs_at(replace_all(text, pat, rep), q, 0),
    ensures
        occurs_at(text, q, 0),
    decreases text.len(),
{
    let out = replace_all(text, pat, rep);
    if q.len() == 0 {
        assert(text.subrange(0, 0) =~= q);
    } else if text.len() < pat.len() {
    } else if occurs_at(text, pat, 0) {
        assert(out.subrange(0, q.len() as int)[0] == rep[0]);
        assert(q[0] == rep[0]);
    } else {
        let rec = replace_all(text.drop_first(), pat, rep);
        let q1 = q.drop_first();
        assert(out =~= seq![text[0]] + rec);
        assert(out.subrange(0, q.len() as int)[0] == text[0]);
        assert(rec.subrange(0, q1.len() as int) =~= q1) by {
            assert forall|j: int| 0 <= j < q1.len() implies rec[j] == q1[j] by {
                assert(out.subrange(0, q.len() as int)[j + 1] == q[j + 1]);
            }
        }
        if q1.contains(rep[0]) {
            let j = q1.index_of(rep[0]);
            assert(q[j + 1] == rep[0]);
        }
        lemma_replaced_prefix_is_copied(text.drop_first(), pat, rep, q1);
        assert(text.subrange(0, q.len() as int) =~= q) by {
            assert forall|j: int| 0 <= j < q.len() implies text[j] == q[j] by {
                if j > 0 {
                    assert(text.drop_first().subrange(0, q1.len() as int)[j - 1] == q1[j - 1]);
                }
            }
        }
    }
}

/// Where the pattern does not hold the replacement's first character, and
/// the replacement does not hold the pattern's first character, the
/// replaced text holds the pattern nowhere.
pub proof fn lemma_replace_removes_pattern(
    text: Seq<char>,
    pat: Seq<char>,
    rep: Seq<char>,
    k: int,
)
    requires
        pat.len() > 0,
        rep.len() > 0,
        !pat.contains(rep[0]),
        !rep.contains(pat[0]),
    ensures
        !occurs_at(replace_all(text, pat, rep), pat, k),
    decreases text.len(),
{
    let out = replace_all(text, pat, rep);
    let m = pat.len() as int;
    if occurs_at(out, pat, k) {
        assert(out.subrange(k, k + m)[0] == pat[0]);
        if text.len() < pat.len() {
        } else if occurs_at(text, pat, 0) {
            let rec = replace_all(text.subrange(m, text.len() as int), pat, rep);
            if k < rep.len() {
                assert(rep[k] == pat[0]);
            } else {
                let k1 = k - rep.len();
                assert(rec.subrange(k1, k1 + m) =~= out.subrange(k, k + m));
                lemma_replace_removes_pattern(text.subrange(m, text.len() as int), pat, rep, k1);
            }
        } else {
            let rec = replace_all(text.drop_first(), pat, rep);
            if k == 0 {
                lemma_replaced_prefix_is_copied(text, pat, rep, pat);
            } else {
                assert(rec.subrange(k - 1, k - 1 + m) =~= out.subrange(k, k + m));
                lemma_replace_removes_pattern(text.drop_first(), pat, rep, k - 1);
            }
        }
    }
}

/// The non-empty lines of `s` from position `pos` on, where the line being
/// read began at `start`. A line ends at a line feed; a carriage return
/// just before that line feed belongs to the line ending.
pub open spec fn lines_from(s: Seq<char>, start: int, pos: int) -> Seq<Seq<char>>
    decreases s.len() - pos,
{
    if pos >= s.len() {
        if start < s.len() {
            seq![s.subrange(start, s.len() as int)]
        } else {
            Seq::empty()
        }
    } else if s[pos] == '\n' {
        let end = if start < pos && s[pos - 1] == '\r' {
            pos - 1
        } else {
            pos
        };
        if start < end {
            seq![s.subrange(start, end)] + lines_from(s, pos + 1, pos + 1)
        } else {
            lines_from(s, pos + 1, pos + 1)
        }
    } else {
        lines_from(s, start, pos + 1)
    }
}

/// The lines of `s`, without their endings, the empty ones left out.
pub open spec fn nonempty_lines(s: Seq<char>) -> Seq<Seq<char>> {
    lines_from(s, 0, 0)
}

/// The ranges of `ranges` lie within a text of `len` characters and none
/// is empty.
pub open spec fn ranges_within(ranges: Seq<(usize, usize)>, len: nat) -> bool {
    forall|i: int|
        0 <= i < ranges.len() ==> (#[trigger] ranges[i]).0 < ranges[i].1 && ranges[i].1 <= len
}

/// The pieces of `s` that the ranges cut out.
pub open spec fn pieces(s: Seq<char>, ranges: Seq<(usize, usize)>) -> Seq<Seq<char>> {
    Seq::new(ranges.len(), |i: int| s.subrange(ranges[i].0 as int, ranges[i].1 as int))
}

/// Where the non-empty lines of `text` begin and end.
pub fn line_ranges(text: &Vec<char>) -> (ranges: Vec<(usize, usize)>)
    ensures
        ranges_within(ranges@, text@.len()),
        pieces(text@, ranges@) == nonempty_lines(text@),
{
    let n: usize = text.len();
    let mut ranges: Vec<(usize, usize)> = Vec::new();
    let mut start: usize = 0;
    let mut pos: usize = 0;
    proof {
        assert(pieces(text@, ranges@) + lines_from(text@, 0, 0) =~= nonempty_lines(text@));
    }
    while pos < n
        invariant
            n == text@.len(),
            start <= pos <= n,
            ranges_within(ranges@, text@.len()),
            nonempty_lines(text@) == pieces(text@, ranges@) + lines_from(
                text@,
                start as int,
                pos as int,
            ),
        decreases n - pos,
    {
        let ghost before = ranges@;
        if text[pos] == '\n' {
            let end: usize = if start < pos && text[pos - 1] == '\r' {
                pos - 1
            } else {
                pos
            };
            if start < end {
                ranges.push((start, end));
                proof {
                    assert(pieces(text@, ranges@) =~= pieces(text@, before) + seq![
                        text@.subrange(start as int, end as int),
                    ]);
                    assert(pieces(text@, before) + (seq![text@.subrange(start as int, end as int)]
                        + lines_from(text@, pos + 1, pos + 1)) =~= pieces(text@, ranges@)
                        + lines_from(text@, pos + 1, pos + 1));
                }
            }
            start = pos + 1;
        }
        pos = pos + 1;
    }
    if start < n {
        let ghost before = ranges@;
        ranges.push((start, n));
        proof {
            assert(pieces(text@, ranges@) =~= pieces(text@, before) + seq![
                text@.subrange(start as int, n as int),
            ]);
        }
    } else {
        proof {
            assert(pieces(text@, ranges@) + Seq::<Seq<char>>::empty() =~= pieces(text@, ranges@));
        }
    }
    ranges
}

/// The non-empty lines of `text`, each as a string of its own.
pub fn split_lines(text: &str) -> (lines: Vec<String>)
    ensures
        lines@.len() == nonempty_lines(text@).len(),
        forall|i: int| 0 <= i < lines@.len() ==> (#[trigger] lines@[i])@ == nonempty_lines(text@)[i],
{
    let chars = chars_of(text);
    let ranges = line_ranges(&chars);
    let mut lines: Vec<String> = Vec::new();
    let mut i: usize = 0;
    while i < ranges.len()
        invariant
            chars@ == text@,
            ranges_within(ranges@, text@.len()),
            pieces(text@, ranges@) == nonempty_lines(text@),
            i <= ranges.len(),
            lines@.len() == i,
            forall|j: int| 0 <= j < i ==> (#[trigger] lines@[j])@ == nonempty_lines(text@)[j],
        decreases ranges.len() - i,
    {
        let (a, b) = ranges[i];
        proof {
            assert(ranges@[i as int].0 < ranges@[i as int].1);
            assert(pieces(text@, ranges@)[i as int] == text@.subrange(a as int, b as int));
        }
        lines.push(String::from_str(text.substring_char(a, b)));
        i = i + 1;
    }
    lines
}

/// A path made of a directory and a name below it, on a system whose
/// separator is `/`: an absolute `name` stands alone; otherwise a separator
/// is put between the two unless `base` is empty or already ends in one.
pub open spec fn joined_path(base: Seq<char>, name: Seq<char>) -> Seq<char> {
    if name.len() > 0 && name[0] == '/' {
        name
    } else if base.len() == 0 || base.last() == '/' {
        base + name
    } else {
        base + seq!['/'] + name
    }
}

/// Joins a directory and a name below it.
pub fn join_path(base: &str, name: &str) -> (path: String)
    ensures
        path@ == joined_path(base@, name@),
{
    let base_len: usize = base.unicode_len();
    let name_len: usize = name.unicode_len();
    if name_len > 0 && name.get_char(0) == '/' {
        String::from_str(name)
    } else if base_len == 0 || base.get_char(base_len - 1) == '/' {
        String::from_str(base).concat(name)
    } else {
        proof {
            reveal_strlit("/");
            assert("/"@ =~= seq!['/']);
        }
        String::from_str(base).concat("/").concat(name)
    }
}

} // verus!
