//! Error messages built from native return codes, and the parsers of the
//! text records that the process file system exposes.

use vstd::prelude::*;
use vstd::utf8::{valid_utf8, decode_utf8};
use crate::text::{
    chars_of, trim_bounds, parse_unsigned_range, trim, parse_unsigned, decimal_text, int_text,
};

verus! {

/// The text of an OS-call failure: the return code and the error number side
/// by side, then the platform's description of that number.
pub open spec fn errno_text(return_code: int, code: int, description: Seq<char>) -> Seq<char> {
    "return code = "@ + decimal_text(return_code) + ", errno = "@ + decimal_text(code)
        + ", message = '"@ + description + "'"@
}

/// Relies on `errno::errno`: the error number that the calling thread's last
/// OS call left behind.
#[verifier::external_body]
fn last_errno() -> (r: i32) {
    errno::errno().0
}

/// Relies on `errno::Errno`'s `Display`: the platform's description of an
/// error number (it may depend on the locale).
#[verifier::external_body]
fn errno_description(code: i32) -> (r: String) {
    errno::Errno(code).to_string()
}

/// The text that `String::from_utf8` gives, through its error's `Display`,
/// for a byte sequence that is not valid UTF-8.
pub uninterp spec fn utf8_error_text(bytes: Seq<u8>) -> Seq<char>;

/// Relies on `String::from_utf8`: it accepts exactly the valid UTF-8 byte
/// sequences and decodes them; its error describes the bytes alone.
#[verifier::external_body]
pub(crate) fn decode_utf8_bytes(bytes: Vec<u8>) -> (r: Result<String, String>)
    ensures
        match r {
            Ok(s) => valid_utf8(bytes@) && s@ == decode_utf8(bytes@),
            Err(e) => !valid_utf8(bytes@) && e@ == utf8_error_text(bytes@),
        },
{
    match String::from_utf8(bytes) {
        Ok(s) => Ok(s),
        Err(e) => Err(e.to_string()),
    }
}

/// The message of an OS-call failure, from the return code, the error number
/// and its description.
pub fn errno_message(return_code: i32, code: i32, description: &str) -> (r: String)
    ensures
        r@ == errno_text(return_code as int, code as int, description@),
{
    let mut r = String::from_str("return code = ");
    let rc = int_text(return_code as i64);
    r.append(rc.as_str());
    r.append(", errno = ");
    let ec = int_text(code as i64);
    r.append(ec.as_str());
    r.append(", message = '");
    r.append(description);
    r.append("'");
    r
}

/// The message of an OS-call failure with return code `return_code`, for the
/// error number that the last OS call left behind.
pub fn get_errno_with_message(return_code: i32) -> (r: String)
    ensures
        exists|code: i32, description: Seq<char>|
            r@ == #[trigger] errno_text(return_code as int, code as int, description),
{
    let code = last_errno();
    let description = errno_description(code);
    let r = errno_message(return_code, code, description.as_str());
    assert(r@ == errno_text(return_code as int, code as int, description@));
    r
}

/// Reads the result of a native call that wrote `ret` bytes of text into
/// `buf`. A return code of zero or less is a failure, described from the
/// error number. Otherwise `buf` is cut to the `ret` bytes written, which must
/// be UTF-8.
pub fn check_errno(ret: i32, buf: &mut Vec<u8>) -> (r: Result<String, String>)
    ensures
        ret <= 0 ==> final(buf)@ == old(buf)@ && r is Err && exists|code: i32, d: Seq<char>|
            r->Err_0@ == #[trigger] errno_text(ret as int, code as int, d),
        ret > 0 ==> final(buf)@ == old(buf)@.take(
            if ret <= old(buf)@.len() {
                ret as int
            } else {
                old(buf)@.len() as int
            },
        ),
        ret > 0 && valid_utf8(final(buf)@) ==> r is Ok && r->Ok_0@ == decode_utf8(final(buf)@),
        ret > 0 && !valid_utf8(final(buf)@) ==> r is Err && r->Err_0@ == "Invalid UTF-8 sequence: "@
            + utf8_error_text(final(buf)@),
{
    if ret <= 0 {
        Err(get_errno_with_message(ret))
    } else {
        buf.truncate(ret as usize);
        assert(buf@ =~= old(buf)@.take(
            if ret <= old(buf)@.len() {
                ret as int
            } else {
                old(buf)@.len() as int
            },
        ));
        match decode_utf8_bytes(buf.clone()) {
            Ok(text) => Ok(text),
            Err(e) => {
                let mut msg = String::from_str("Invalid UTF-8 sequence: ");
                msg.append(e.as_str());
                Err(msg)
            },
        }
    }
}

/// Index of the first `c` in `s`, or the length of `s` when there is none.
pub open spec fn first_index_of(s: Seq<char>, c: char) -> int
    decreases s.len(),
{
    if s.len() == 0 {
        0
    } else if first_index_of(s.drop_last(), c) < s.len() - 1 {
        first_index_of(s.drop_last(), c)
    } else if s.last() == c {
        s.len() - 1
    } else {
        s.len() as int
    }
}

pub open spec fn first_space(s: Seq<char>) -> int {
    first_index_of(s, ' ')
}

/// Number of spaces in `s`.
pub open spec fn space_count(s: Seq<char>) -> nat
    decreases s.len(),
{
    if s.len() == 0 {
        0
    } else {
        space_count(s.drop_last()) + if s.last() == ' ' {
            1nat
        } else {
            0nat
        }
    }
}

/// The number of a trimmed memory amount: the text before its first space.
pub open spec fn memory_number_text(t: Seq<char>) -> Seq<char> {
    t.subrange(0, first_space(t))
}

/// The unit of a trimmed memory amount: the text after its first space.
pub open spec fn memory_unit_text(t: Seq<char>) -> Seq<char> {
    t.subrange(first_space(t) + 1, t.len() as int)
}

pub open spec fn unit_multiplier(u: Seq<char>) -> Option<int> {
    if u == seq!['M', 'B'] {
        Some(1048576int)
    } else if u == seq!['k', 'B'] {
        Some(1024int)
    } else if u == seq!['B'] {
        Some(1int)
    } else {
        None
    }
}

/// The multiplier of a trimmed memory amount. A unit counts only where one
/// space parts the text in two; an unknown unit there gives `None`.
pub open spec fn memory_multiplier(t: Seq<char>) -> Option<int> {
    if space_count(t) == 1 {
        unit_multiplier(memory_unit_text(t))
    } else {
        Some(1int)
    }
}

/// What a memory amount such as `220844 kB` counts in bytes, or the message
/// of why it cannot be read.
pub open spec fn memory_string_spec(line: Seq<char>) -> Result<u64, Seq<char>> {
    let t = trim(line);
    match memory_multiplier(t) {
        None => Err("Could not parse units of Memory String: "@ + line),
        Some(m) => match parse_unsigned(memory_number_text(t), u64::MAX as int) {
            None => Err("Could not parse value as integer"@),
            Some(v) => if v * m <= u64::MAX {
                Ok((v * m) as u64)
            } else {
                Err("Memory String value is too large: "@ + line)
            },
        },
    }
}

/// Parse a memory amount such as `220844 kB` into a number of bytes. The
/// units `MB`, `kB` and `B` are known; a number alone counts bytes.
pub fn parse_memory_string(line: &str) -> (r: Result<u64, String>)
    ensures
        match memory_string_spec(line@) {
            Ok(v) => r == Ok::<u64, String>(v),
            Err(e) => r is Err && r->Err_0@ == e,
        },
{
    let s = chars_of(line);
    let (a, b) = trim_bounds(&s, 0, s.len());
    let ghost t = s@.subrange(a as int, b as int);
    assert(s@.subrange(0, s@.len() as int) =~= s@);
    let mut i = a;
    let mut first = a;
    let mut found = false;
    let mut count: usize = 0;
    while i < b
        invariant
            a <= first <= i <= b <= s@.len(),
            t == s@.subrange(a as int, b as int),
            first - a == first_space(t.subrange(0, i - a)),
            found == (count > 0),
            found ==> first < i,
            !found ==> first == i,
            count == space_count(t.subrange(0, i - a)),
            count <= i - a,
        decreases b - i,
    {
        let ghost k = i - a;
        assert(t.subrange(0, k + 1).drop_last() =~= t.subrange(0, k));
        assert(t.subrange(0, k + 1).last() == s@[i as int]);
        if s[i] == ' ' {
            count = count + 1;
            found = true;
        }
        i = i + 1;
        if !found {
            first = i;
        }
    }
    assert(t.subrange(0, b - a) =~= t);
    let ghost number = memory_number_text(t);
    assert(number =~= s@.subrange(a as int, first as int));
    let multiplier: u64;
    if count == 1 {
        let ghost unit = memory_unit_text(t);
        assert(unit =~= s@.subrange(first + 1, b as int));
        let n = b - first - 1;
        let u = first + 1;
        if n == 2 && s[u] == 'M' && s[u + 1] == 'B' {
            assert(unit =~= seq!['M', 'B']);
            multiplier = 1024 * 1024;
        } else if n == 2 && s[u] == 'k' && s[u + 1] == 'B' {
            assert(unit =~= seq!['k', 'B']);
            multiplier = 1024;
        } else if n == 1 && s[u] == 'B' {
            assert(unit =~= seq!['B']);
            multiplier = 1;
        } else {
            assert(n == 2 ==> unit[0] == s@[u as int] && unit[1] == s@[u + 1]);
            assert(n == 1 ==> unit[0] == s@[u as int]);
            let mut msg = String::from_str("Could not parse units of Memory String: ");
            msg.append(line);
            return Err(msg);
        }
    } else {
        multiplier = 1;
    }
    assert(trim(line@) == t);
    assert(memory_multiplier(t) == Some(multiplier as int));
    assert(memory_number_text(t) == s@.subrange(a as int, first as int));
    match parse_unsigned_range(&s, a, first, u64::MAX) {
        None => Err(String::from_str("Could not parse value as integer")),
        Some(value) => {
            assert(parse_unsigned(memory_number_text(t), u64::MAX as int) == Some(value as int));
            match value.checked_mul(multiplier) {
                Some(bytes) => Ok(bytes),
                None => {
                    let mut msg = String::from_str("Memory String value is too large: ");
                    msg.append(line);
                    Err(msg)
                },
            }
        },
    }
}

/// Index of the first `c` in `s[start..end]`, counted from `start`.
pub fn first_index_in(s: &Vec<char>, start: usize, end: usize, c: char) -> (r: usize)
    requires
        start <= end <= s@.len(),
    ensures
        start <= r <= end,
        r - start == first_index_of(s@.subrange(start as int, end as int), c),
{
    let ghost t = s@.subrange(start as int, end as int);
    let mut i = start;
    let mut first = start;
    let mut found = false;
    while i < end
        invariant
            start <= first <= i <= end <= s@.len(),
            t == s@.subrange(start as int, end as int),
            first - start == first_index_of(t.subrange(0, i - start), c),
            found ==> first < i,
            !found ==> first == i,
        decreases end - i,
    {
        let ghost k = i - start;
        assert(t.subrange(0, k + 1).drop_last() =~= t.subrange(0, k));
        assert(t.subrange(0, k + 1).last() == s@[i as int]);
        if s[i] == c {
            found = true;
        }
        i = i + 1;
        if !found {
            first = i;
        }
    }
    assert(t.subrange(0, end - start) =~= t);
    first
}

pub open spec fn has_header(line: Seq<char>, header: Seq<char>) -> bool {
    header.len() <= line.len() && line.subrange(0, header.len() as int) == header
}

/// Index of the first line that starts with `header`, or the number of lines
/// when none does.
pub open spec fn first_line_with(lines: Seq<String>, header: Seq<char>) -> int
    decreases lines.len(),
{
    if lines.len() == 0 {
        0
    } else if first_line_with(lines.drop_last(), header) < lines.len() - 1 {
        first_line_with(lines.drop_last(), header)
    } else if has_header(lines.last()@, header) {
        lines.len() - 1
    } else {
        lines.len() as int
    }
}

/// The second of the `:`-separated parts of a line.
pub open spec fn second_part(line: Seq<char>) -> Seq<char> {
    let rest = line.subrange(first_index_of(line, ':') + 1, line.len() as int);
    rest.subrange(0, first_index_of(rest, ':'))
}

/// What the `name:` line among the lines of a `/proc` record holds.
pub open spec fn procfile_field_spec(lines: Seq<String>, field_name: Seq<char>) -> Option<
    Seq<char>,
> {
    let k = first_line_with(lines, field_name + seq![':']);
    if k < lines.len() {
        Some(trim(second_part(lines[k]@)))
    } else {
        None
    }
}

pub open spec fn field_not_found_text(field_name: Seq<char>, filename: Seq<char>) -> Seq<char> {
    "Could not find the field named '"@ + field_name + "' in the /proc FS file name '"@
        + filename + "'"@
}

fn starts_with_chars(line: &Vec<char>, header: &Vec<char>) -> (r: bool)
    ensures
        r == has_header(line@, header@),
{
    if header.len() > line.len() {
        return false;
    }
    let mut i: usize = 0;
    while i < header.len()
        invariant
            header@.len() <= line@.len(),
            i <= header@.len(),
            line@.subrange(0, i as int) == header@.subrange(0, i as int),
        decreases header@.len() - i,
    {
        if line[i] != header[i] {
            assert(line@.subrange(0, header@.len() as int)[i as int] != header@[i as int]);
            return false;
        }
        i = i + 1;
        assert(line@.subrange(0, i as int) =~= header@.subrange(0, i as int));
    }
    assert(header@.subrange(0, i as int) =~= header@);
    true
}

/// Finds the line `field_name: value` among the lines of the `/proc` record
/// `filename` and returns its value, trimmed.
pub fn procfile_field_in(lines: &Vec<String>, filename: &str, field_name: &str) -> (r: Result<
    String,
    String,
>)
    ensures
        match procfile_field_spec(lines@, field_name@) {
            Some(v) => r is Ok && r->Ok_0@ == v,
            None => r is Err && r->Err_0@ == field_not_found_text(field_name@, filename@),
        },
{
    let mut header = chars_of(field_name);
    header.push(':');
    let ghost h = field_name@ + seq![':'];
    assert(header@ =~= h);
    let mut k: usize = 0;
    while k < lines.len()
        invariant
            k <= lines@.len(),
            header@ == h,
            h == field_name@ + seq![':'],
            first_line_with(lines@.subrange(0, k as int), h) == k,
        decreases lines@.len() - k,
    {
        let ghost p = lines@.subrange(0, k + 1);
        assert(p.drop_last() =~= lines@.subrange(0, k as int));
        assert(p.last() == lines@[k as int]);
        let line = chars_of(lines[k].as_str());
        if starts_with_chars(&line, &header) {
            assert(first_line_with(lines@, h) == k) by {
                lemma_first_line_with_prefix(lines@, h, k as int + 1);
            }
            let f = first_index_in(&line, 0, line.len(), ':');
            assert(line@.subrange(0, line@.len() as int) =~= line@);
            proof {
                assert(has_header(line@, h));
                assert(h.len() <= line@.len());
                let hl = field_name@.len() as int;
                assert(h[hl] == ':');
                assert(line@.subrange(0, header@.len() as int)[hl] == line@[hl]);
                lemma_first_index_of_le(line@, ':', hl);
            }
            let g = first_index_in(&line, f + 1, line.len(), ':');
            let (a, b) = trim_bounds(&line, f + 1, g);
            assert(line@.subrange((f + 1) as int, g as int) =~= second_part(line@));
            let value = String::from_str(lines[k].as_str().substring_char(a, b));
            return Ok(value);
        }
        k = k + 1;
    }
    assert(lines@.subrange(0, k as int) =~= lines@);
    let mut msg = String::from_str("Could not find the field named '");
    msg.append(field_name);
    msg.append("' in the /proc FS file name '");
    msg.append(filename);
    msg.append("'");
    Err(msg)
}

proof fn lemma_first_index_of_le(s: Seq<char>, c: char, j: int)
    requires
        0 <= j < s.len(),
        s[j] == c,
    ensures
        first_index_of(s, c) <= j,
    decreases s.len(),
{
    if j < s.len() - 1 {
        assert(s.drop_last()[j] == c);
        lemma_first_index_of_le(s.drop_last(), c, j);
    }
}

/// Once a prefix of the lines holds a matching line, the whole does at the
/// same index.
proof fn lemma_first_line_with_prefix(lines: Seq<String>, header: Seq<char>, n: int)
    requires
        0 < n <= lines.len(),
        first_line_with(lines.subrange(0, n), header) < n,
    ensures
        first_line_with(lines, header) == first_line_with(lines.subrange(0, n), header),
    decreases lines.len() - n,
{
    if n < lines.len() {
        let q = lines.subrange(0, n + 1);
        assert(q.drop_last() =~= lines.subrange(0, n));
        lemma_first_line_with_prefix(lines, header, n + 1);
    } else {
        assert(lines.subrange(0, n) =~= lines);
    }
}

} // verus!
