//! Execution requests and results, and the metadata that the sandbox
//! reports about a run.

use crate::text::{chars_of, decimal_number, is_digit, is_digit_char, line_ranges};
use crate::text::{matches_at, nonempty_lines, occurs_at, parse_decimal, pieces, ranges_within};
use vstd::prelude::*;
use vstd::string::StringExecFns;
use vstd::string::StrSliceExecFns;

verus! {

/// A request to run `code` in `language`.
#[derive(Debug)]
pub struct ExecutionRequest {
    pub language: String,
    pub code: String,
}

/// What the sandbox reports about a run. The two times are kept as the
/// decimal text that the sandbox wrote, in seconds; the memory is in
/// kilobytes.
#[derive(Debug)]
pub struct ExecutionMetadata {
    pub time: String,
    pub time_wall: String,
    pub memory: u64,
    pub exit_code: i32,
    pub status: String,
}

/// The result of a run. The slot `box_id` stays held after the run.
#[derive(Debug)]
pub struct ExecutionResult {
    pub stdout: String,
    pub stderr: String,
    pub metadata: ExecutionMetadata,
    pub box_id: u32,
}

/// Execution metadata as plain values.
pub struct MetadataView {
    pub time: Seq<char>,
    pub time_wall: Seq<char>,
    pub memory: u64,
    pub exit_code: i32,
    pub status: Seq<char>,
}

impl View for ExecutionMetadata {
    type V = MetadataView;

    open spec fn view(&self) -> MetadataView {
        MetadataView {
            time: self.time@,
            time_wall: self.time_wall@,
            memory: self.memory,
            exit_code: self.exit_code,
            status: self.status@,
        }
    }
}

/// The metadata of a run about which nothing was reported.
pub open spec fn default_metadata() -> MetadataView {
    MetadataView { time: "0"@, time_wall: "0"@, memory: 0, exit_code: 0, status: "OK"@ }
}

impl ExecutionMetadata {
    /// The metadata of a run about which nothing was reported.
    pub fn new() -> (m: Self)
        ensures
            m@ == default_metadata(),
    {
        ExecutionMetadata {
            time: String::from_str("0"),
            time_wall: String::from_str("0"),
            memory: 0,
            exit_code: 0,
            status: String::from_str("OK"),
        }
    }
}

/// The kinds of value that a metadata line can carry.
#[derive(Clone, Copy, Debug, PartialEq, Eq, Structural)]
pub enum TokenClass {
    /// Digits only.
    Digits,
    /// Digits and dots.
    Decimal,
    /// Letters, digits and underscores.
    Word,
}

/// `c` may stand in a token of the class.
pub open spec fn in_class(class: TokenClass, c: char) -> bool {
    match class {
        TokenClass::Digits => is_digit(c),
        TokenClass::Decimal => is_digit(c) || c == '.',
        TokenClass::Word => is_digit(c) || c == '_' || (0x41 <= c as u32 && c as u32 <= 0x5a) || (
        0x61 <= c as u32 && c as u32 <= 0x7a),
    }
}

/// The length of the longest start of `s` made of characters of the class.
pub open spec fn run_len(s: Seq<char>, class: TokenClass) -> nat
    decreases s.len(),
{
    if s.len() > 0 && in_class(class, s[0]) {
        1 + run_len(s.drop_first(), class)
    } else {
        0
    }
}

/// A start of `r` characters of the class, followed by the end or by a
/// character outside the class, is the longest such start.
pub proof fn lemma_run_len(s: Seq<char>, class: TokenClass, r: int)
    requires
        0 <= r <= s.len(),
        forall|j: int| 0 <= j < r ==> in_class(class, #[trigger] s[j]),
        r < s.len() ==> !in_class(class, s[r]),
    ensures
        run_len(s, class) == r,
    decreases r,
{
    if r > 0 {
        let rest = s.drop_first();
        assert(in_class(class, s[0]));
        assert forall|j: int| 0 <= j < r - 1 implies in_class(class, #[trigger] rest[j]) by {
            assert(rest[j] == s[j + 1]);
        }
        if r < s.len() {
            assert(rest[r - 1] == s[r]);
        }
        lemma_run_len(rest, class, r - 1);
    }
}

/// Tells whether `c` may stand in a token of the class.
pub fn class_holds(class: TokenClass, c: char) -> (b: bool)
    ensures
        b == in_class(class, c),
{
    match class {
        TokenClass::Digits => is_digit_char(c),
        TokenClass::Decimal => is_digit_char(c) || c == '.',
        TokenClass::Word => is_digit_char(c) || c == '_' || ('A' <= c && c <= 'Z') || ('a' <= c
            && c <= 'z'),
    }
}

/// The value that `line` gives to `key`: the longest run of characters of
/// the class that follows the key at the start of the line, if the line
/// starts with the key and that run is not empty.
pub open spec fn token_after(line: Seq<char>, key: Seq<char>, class: TokenClass) -> Option<
    Seq<char>,
> {
    if occurs_at(line, key, 0) {
        let value = line.skip(key.len() as int);
        let n = run_len(value, class);
        if n > 0 {
            Some(value.take(n as int))
        } else {
            None
        }
    } else {
        None
    }
}

/// Finds in the line `text[from..to]` the value that it gives to `key`.
pub fn find_token(text: &Vec<char>, from: usize, to: usize, key: &Vec<char>, class: TokenClass) -> (r:
    Option<(usize, usize)>)
    requires
        from <= to <= text.len(),
    ensures
        match r {
            Some((start, end)) => {
                &&& from <= start < end <= to
                &&& token_after(text@.subrange(from as int, to as int), key@, class) == Some(
                    text@.subrange(start as int, end as int),
                )
            },
            None => token_after(text@.subrange(from as int, to as int), key@, class)
                == None::<Seq<char>>,
        },
{
    let ghost line = text@.subrange(from as int, to as int);
    let k: usize = key.len();
    if to - from < k {
        return None;
    }
    if !matches_at(text, key, from) {
        proof {
            assert(line.subrange(0, k as int) =~= text@.subrange(from as int, from + k));
        }
        return None;
    }
    proof {
        assert(line.subrange(0, k as int) =~= text@.subrange(from as int, from + k));
    }
    let start: usize = from + k;
    let mut end: usize = start;
    while end < to && class_holds(class, text[end])
        invariant
            start <= end <= to <= text.len(),
            forall|j: int| start <= j < end ==> in_class(class, #[trigger] text@[j]),
        decreases to - end,
    {
        end = end + 1;
    }
    proof {
        let value = line.skip(k as int);
        assert(value =~= text@.subrange(start as int, to as int));
        assert forall|j: int| 0 <= j < end - start implies in_class(class, #[trigger] value[j]) by {
            assert(value[j] == text@[start + j]);
        }
        lemma_run_len(value, class, end - start);
        assert(value.take(end - start) =~= text@.subrange(start as int, end as int));
    }
    if end > start {
        Some((start, end))
    } else {
        None
    }
}

/// The memory that a token of digits reports: its value, or zero when the
/// value does not fit.
pub open spec fn memory_of(token: Seq<char>) -> u64 {
    match decimal_number(token) {
        Some(v) => v,
        None => 0,
    }
}

/// The exit code that a token of digits reports: its value, or zero when
/// the value does not fit.
pub open spec fn exit_code_of(token: Seq<char>) -> i32 {
    match decimal_number(token) {
        Some(v) => if v <= i32::MAX {
            v as i32
        } else {
            0
        },
        None => 0,
    }
}

/// The metadata after one more line of the metadata file. A line that
/// gives a value to one of the five keys sets that field; any other line
/// changes nothing.
pub open spec fn apply_line(m: MetadataView, line: Seq<char>) -> MetadataView {
    if let Some(token) = token_after(line, "time:"@, TokenClass::Decimal) {
        MetadataView { time: token, ..m }
    } else if let Some(token) = token_after(line, "time-wall:"@, TokenClass::Decimal) {
        MetadataView { time_wall: token, ..m }
    } else if let Some(token) = token_after(line, "cg-mem:"@, TokenClass::Digits) {
        MetadataView { memory: memory_of(token), ..m }
    } else if let Some(token) = token_after(line, "status:"@, TokenClass::Word) {
        MetadataView { status: token, ..m }
    } else if let Some(token) = token_after(line, "exitcode:"@, TokenClass::Digits) {
        MetadataView { exit_code: exit_code_of(token), ..m }
    } else {
        m
    }
}

/// The metadata after the given lines, read in order: a later line
/// overrides an earlier one.
pub open spec fn apply_lines(m: MetadataView, lines: Seq<Seq<char>>) -> MetadataView
    decreases lines.len(),
{
    if lines.len() == 0 {
        m
    } else {
        apply_line(apply_lines(m, lines.drop_last()), lines.last())
    }
}

/// The metadata that a metadata file reports.
pub open spec fn parsed_metadata(content: Seq<char>) -> MetadataView {
    apply_lines(default_metadata(), nonempty_lines(content))
}

/// No line gives a value to the key.
pub open spec fn key_absent(lines: Seq<Seq<char>>, key: Seq<char>, class: TokenClass) -> bool {
    forall|i: int| 0 <= i < lines.len() ==> token_after(#[trigger] lines[i], key, class) is None
}

/// A field whose key no line gives a value to keeps the value it had.
pub proof fn lemma_absent_key_keeps_field(m: MetadataView, lines: Seq<Seq<char>>)
    ensures
        key_absent(lines, "time:"@, TokenClass::Decimal) ==> apply_lines(m, lines).time == m.time,
        key_absent(lines, "time-wall:"@, TokenClass::Decimal) ==> apply_lines(m, lines).time_wall
            == m.time_wall,
        key_absent(lines, "cg-mem:"@, TokenClass::Digits) ==> apply_lines(m, lines).memory
            == m.memory,
        key_absent(lines, "status:"@, TokenClass::Word) ==> apply_lines(m, lines).status
            == m.status,
        key_absent(lines, "exitcode:"@, TokenClass::Digits) ==> apply_lines(m, lines).exit_code
            == m.exit_code,
    decreases lines.len(),
{
    if lines.len() > 0 {
        let front = lines.drop_last();
        lemma_absent_key_keeps_field(m, front);
        assert forall|key: Seq<char>, class: TokenClass| key_absent(lines, key, class) implies
            #[trigger] key_absent(front, key, class) by {
            assert forall|i: int| 0 <= i < front.len() implies token_after(
                #[trigger] front[i],
                key,
                class,
            ) is None by {
                assert(front[i] == lines[i]);
            }
        }
        assert(lines.last() == lines[lines.len() - 1]);
    }
}

/// A metadata file in which a key stands on no line reports the default
/// for that field: zero for the numbers, `OK` for the status.
pub proof fn lemma_missing_field_is_default(content: Seq<char>)
    ensures
        key_absent(nonempty_lines(content), "time:"@, TokenClass::Decimal) ==> parsed_metadata(
            content,
        ).time == "0"@,
        key_absent(nonempty_lines(content), "time-wall:"@, TokenClass::Decimal)
            ==> parsed_metadata(content).time_wall == "0"@,
        key_absent(nonempty_lines(content), "cg-mem:"@, TokenClass::Digits) ==> parsed_metadata(
            content,
        ).memory == 0,
        key_absent(nonempty_lines(content), "status:"@, TokenClass::Word) ==> parsed_metadata(
            content,
        ).status == "OK"@,
        key_absent(nonempty_lines(content), "exitcode:"@, TokenClass::Digits) ==> parsed_metadata(
            content,
        ).exit_code == 0,
{
    lemma_absent_key_keeps_field(default_metadata(), nonempty_lines(content));
}

/// Reads a metadata file: line by line, `key:value`, with the keys `time`,
/// `time-wall`, `cg-mem`, `status` and `exitcode`. A field that no line
/// sets keeps its default.
pub fn parse_metadata(content: &str) -> (m: ExecutionMetadata)
    ensures
        m@ == parsed_metadata(content@),
{
    let chars = chars_of(content);
    let ranges = line_ranges(&chars);
    let time_key = chars_of("time:");
    let wall_key = chars_of("time-wall:");
    let memory_key = chars_of("cg-mem:");
    let status_key = chars_of("status:");
    let exit_key = chars_of("exitcode:");
    let ghost lines = nonempty_lines(content@);
    let mut m = ExecutionMetadata::new();
    let mut i: usize = 0;
    while i < ranges.len()
        invariant
            chars@ == content@,
            ranges_within(ranges@, chars@.len()),
            pieces(chars@, ranges@) == lines,
            lines == nonempty_lines(content@),
            time_key@ == "time:"@,
            wall_key@ == "time-wall:"@,
            memory_key@ == "cg-mem:"@,
            status_key@ == "status:"@,
            exit_key@ == "exitcode:"@,
            i <= ranges.len(),
            m@ == apply_lines(default_metadata(), lines.take(i as int)),
        decreases ranges.len() - i,
    {
        let (a, b) = ranges[i];
        proof {
            assert(ranges@[i as int].0 < ranges@[i as int].1);
            assert(lines[i as int] == chars@.subrange(a as int, b as int));
            assert(lines.take(i + 1).drop_last() =~= lines.take(i as int));
            assert(lines.take(i + 1).last() == lines[i as int]);
        }
        if let Some((s, e)) = find_token(&chars, a, b, &time_key, TokenClass::Decimal) {
            m.time = String::from_str(content.substring_char(s, e));
        } else if let Some((s, e)) = find_token(&chars, a, b, &wall_key, TokenClass::Decimal) {
            m.time_wall = String::from_str(content.substring_char(s, e));
        } else if let Some((s, e)) = find_token(&chars, a, b, &memory_key, TokenClass::Digits) {
            m.memory = match parse_decimal(&chars, s, e) {
                Some(v) => v,
                None => 0,
            };
        } else if let Some((s, e)) = find_token(&chars, a, b, &status_key, TokenClass::Word) {
            m.status = String::from_str(content.substring_char(s, e));
        } else if let Some((s, e)) = find_token(&chars, a, b, &exit_key, TokenClass::Digits) {
            m.exit_code = match parse_decimal(&chars, s, e) {
                Some(v) => if v <= 2147483647 {
                    v as i32
                } else {
                    0
                },
                None => 0,
            };
        }
        i = i + 1;
    }
    proof {
        assert(lines.take(ranges@.len() as int) =~= lines);
    }
    m
}

} // verus!
