//! Reading an offset from text: `[+|-]HH[:]MM`, with the white space around it
//! taken off first.
use vstd::prelude::*;
use vstd::string::*;
use vstd::utf8::{decode_utf8, valid_utf8};
use crate::error::Error;
use crate::offset::{from_offset_pair, valid_pair, UtcOffset};

verus! {

/// Whether `c` is white space: a character with the Unicode property
/// `White_Space`, which the line ends `\n` and `\r` have.
pub open spec fn is_space(c: char) -> bool {
    let v = c as u32;
    (0x09 <= v <= 0x0D) || v == 0x20 || v == 0x85 || v == 0xA0 || v == 0x1680
        || (0x2000 <= v <= 0x200A) || v == 0x2028 || v == 0x2029 || v == 0x202F
        || v == 0x205F || v == 0x3000
}

/// Where the text of `s` begins, looking from `i` on.
pub open spec fn lead(s: Seq<char>, i: int) -> int
    decreases s.len() - i,
{
    if 0 <= i < s.len() && is_space(s[i]) {
        lead(s, i + 1)
    } else {
        i
    }
}

/// Where the text of `s` ends, looking back from `j` and no further than `lo`.
pub open spec fn tail(s: Seq<char>, j: int, lo: int) -> int
    decreases j - lo,
{
    if lo < j <= s.len() && is_space(s[j - 1]) {
        tail(s, j - 1, lo)
    } else {
        j
    }
}

/// `s` without the white space before its first and after its last character
/// that is none; empty where `s` holds nothing else.
pub open spec fn trimmed(s: Seq<char>) -> Seq<char> {
    let from = lead(s, 0);
    s.subrange(from, tail(s, s.len() as int, from))
}

/// Whether `c` is one of `0` to `9`.
pub open spec fn is_digit(c: char) -> bool {
    0x30 <= c as u32 <= 0x39
}

/// The number that the digit `c` stands for.
pub open spec fn digit_value(c: char) -> int {
    c as u32 - 0x30
}

/// How many characters the sign of `s` takes: one or none.
pub open spec fn sign_len(s: Seq<char>) -> int {
    if s.len() > 0 && (s[0] == '+' || s[0] == '-') {
        1
    } else {
        0
    }
}

/// Whether `s` begins with a minus sign.
pub open spec fn is_negative(s: Seq<char>) -> bool {
    s.len() > 0 && s[0] == '-'
}

/// Where in `s` the two minute digits begin.
pub open spec fn minutes_at(s: Seq<char>) -> int {
    if s.len() - sign_len(s) == 5 {
        sign_len(s) + 3
    } else {
        sign_len(s) + 2
    }
}

/// Whether `s` has the shape `[+|-]HH[:]MM`: an optional sign, two digits, an
/// optional colon, two digits, and nothing else.
pub open spec fn well_shaped(s: Seq<char>) -> bool {
    let k = sign_len(s);
    let m = minutes_at(s);
    &&& (s.len() - k == 4 || (s.len() - k == 5 && s[k + 2] == ':'))
    &&& is_digit(s[k])
    &&& is_digit(s[k + 1])
    &&& is_digit(s[m])
    &&& is_digit(s[m + 1])
}

/// The number that the two hour digits of a well shaped `s` spell.
pub open spec fn hour_digits(s: Seq<char>) -> int {
    10 * digit_value(s[sign_len(s)]) + digit_value(s[sign_len(s) + 1])
}

/// The number that the two minute digits of a well shaped `s` spell.
pub open spec fn minute_digits(s: Seq<char>) -> int {
    10 * digit_value(s[minutes_at(s)]) + digit_value(s[minutes_at(s) + 1])
}

/// The hours and minutes that `s` names, if it names an offset: it is well
/// shaped, its hours lie in `-12..=14` and its minutes in `0..=59`. A minus
/// sign before `00` hours with minutes other than `00` names none, for the
/// hours carry the sign.
pub open spec fn offset_fields(s: Seq<char>) -> Option<(int, int)> {
    if !well_shaped(s) {
        None
    } else {
        let hours = if is_negative(s) {
            -hour_digits(s)
        } else {
            hour_digits(s)
        };
        if valid_pair(hours, minute_digits(s)) && !(is_negative(s) && hours == 0
            && minute_digits(s) != 0) {
            Some((hours, minute_digits(s)))
        } else {
            None
        }
    }
}

/// Calls `str::from_utf8` of std, which reads `bytes` as UTF-8 and refuses
/// them where they are none. The contract says so over the definition of
/// UTF-8 that `vstd` gives: the text is what the bytes encode.
#[verifier::external_body]
fn decode_strict(bytes: &[u8]) -> (text: Option<&str>)
    ensures
        match text {
            Some(t) => valid_utf8(bytes@) && t@ == decode_utf8(bytes@),
            None => !valid_utf8(bytes@),
        },
{
    std::str::from_utf8(bytes).ok()
}

fn is_space_char(c: char) -> (space: bool)
    ensures
        space == is_space(c),
{
    let v: u32 = c as u32;
    (0x09 <= v && v <= 0x0D) || v == 0x20 || v == 0x85 || v == 0xA0 || v == 0x1680 || (0x2000 <= v
        && v <= 0x200A) || v == 0x2028 || v == 0x2029 || v == 0x202F || v == 0x205F || v == 0x3000
}

fn digit_of(c: char) -> (d: Option<u8>)
    ensures
        match d {
            Some(v) => is_digit(c) && v == digit_value(c) && v <= 9,
            None => !is_digit(c),
        },
{
    let v: u32 = c as u32;
    if 0x30 <= v && v <= 0x39 {
        Some((v - 0x30) as u8)
    } else {
        None
    }
}

/// Takes the white space off both ends of `s`, line ends of either kind
/// included.
pub fn trim_new_lines(s: &str) -> (t: &str)
    ensures
        t@ == trimmed(s@),
{
    let n: usize = s.unicode_len();
    let mut from: usize = 0;
    let mut scanning: bool = true;
    while scanning && from < n
        invariant
            n == s@.len(),
            from <= n,
            lead(s@, 0) == lead(s@, from as int),
            !scanning ==> from < n && !is_space(s@[from as int]),
        decreases (n - from) + (if scanning { 1int } else { 0int }),
    {
        if is_space_char(s.get_char(from)) {
            from += 1;
        } else {
            scanning = false;
        }
    }
    let mut to: usize = n;
    scanning = true;
    while scanning && to > from
        invariant
            n == s@.len(),
            from <= to <= n,
            tail(s@, n as int, from as int) == tail(s@, to as int, from as int),
            !scanning ==> to > from && !is_space(s@[to - 1]),
        decreases (to - from) + (if scanning { 1int } else { 0int }),
    {
        if is_space_char(s.get_char(to - 1)) {
            to -= 1;
        } else {
            scanning = false;
        }
    }
    s.substring_char(from, to)
}

/// Reads an offset written as `[+|-]HH[:]MM`. Without a sign the offset lies
/// east. Anything else, and hours or minutes out of range, is refused.
pub fn parse_offset(input: &str) -> (res: Result<UtcOffset, Error>)
    ensures
        match res {
            Ok(o) => o.wf() && offset_fields(input@) == Some((o.spec_hours(), o.spec_minutes())),
            Err(e) => offset_fields(input@) is None && e == Error::InvalidOffsetString,
        },
{
    let n: usize = input.unicode_len();
    if n == 0 {
        return Err(Error::InvalidOffsetString);
    }
    let first: char = input.get_char(0);
    let negative: bool = first == '-';
    let k: usize = if first == '-' || first == '+' {
        1
    } else {
        0
    };
    let body: usize = n - k;
    if body != 4 && body != 5 {
        return Err(Error::InvalidOffsetString);
    }
    if body == 5 && input.get_char(k + 2) != ':' {
        return Err(Error::InvalidOffsetString);
    }
    let m: usize = if body == 5 {
        k + 3
    } else {
        k + 2
    };
    let digits = (
        digit_of(input.get_char(k)),
        digit_of(input.get_char(k + 1)),
        digit_of(input.get_char(m)),
        digit_of(input.get_char(m + 1)),
    );
    match digits {
        (Some(h1), Some(h0), Some(m1), Some(m0)) => {
            let hh: i8 = (10 * h1 + h0) as i8;
            let mm: i8 = (10 * m1 + m0) as i8;
            if negative && hh == 0 && mm != 0 {
                return Err(Error::InvalidOffsetString);
            }
            let hours: i8 = if negative {
                -hh
            } else {
                hh
            };
            match from_offset_pair(hours, mm) {
                Ok(o) => Ok(o),
                Err(_) => Err(Error::InvalidOffsetString),
            }
        },
        _ => Err(Error::InvalidOffsetString),
    }
}

/// Reads the offset that a date command printed as `text`: the white space
/// around it is taken off, and what is left has to be `[+|-]HH[:]MM`.
pub fn parse_cmd_text(text: &str) -> (res: Result<UtcOffset, Error>)
    ensures
        match res {
            Ok(o) => o.wf() && offset_fields(trimmed(text@)) == Some(
                (o.spec_hours(), o.spec_minutes()),
            ),
            Err(e) => offset_fields(trimmed(text@)) is None && e == Error::Parse,
        },
{
    match parse_offset(trim_new_lines(text)) {
        Ok(o) => Ok(o),
        Err(_) => Err(Error::Parse),
    }
}

/// What the bytes that a date command wrote give: `NotUtf8` where they are
/// no UTF-8, `Parse` where their text names no offset, else the hours and
/// minutes named.
pub open spec fn output_parts(stdout: Seq<u8>) -> Result<(int, int), Error> {
    if !valid_utf8(stdout) {
        Err(Error::NotUtf8)
    } else {
        match offset_fields(trimmed(decode_utf8(stdout))) {
            Some(parts) => Ok(parts),
            None => Err(Error::Parse),
        }
    }
}

/// Reads the offset that a date command wrote to its standard output. Bytes
/// that are no UTF-8 are refused with `NotUtf8`, text that names no offset
/// with `Parse`.
pub fn parse_cmd_output(stdout: &[u8]) -> (res: Result<UtcOffset, Error>)
    ensures
        match res {
            Ok(o) => o.wf() && output_parts(stdout@) == Ok::<(int, int), Error>(o.parts()),
            Err(e) => output_parts(stdout@) == Err::<(int, int), Error>(e),
        },
{
    match decode_strict(stdout) {
        Some(text) => parse_cmd_text(text),
        None => Err(Error::NotUtf8),
    }
}

/// Trimming twice is trimming once.
pub proof fn lemma_trimmed_is_trim(s: Seq<char>)
    ensures
        trimmed(trimmed(s)) == trimmed(s),
        trimmed(s).len() > 0 ==> !is_space(trimmed(s).first()) && !is_space(trimmed(s).last()),
{
    let from = lead(s, 0);
    lemma_lead_bounds(s, 0);
    let to = tail(s, s.len() as int, from);
    lemma_tail_bounds(s, s.len() as int, from);
    let t = trimmed(s);
    if t.len() > 0 {
        assert(t[0] == s[from]);
        assert(t[t.len() - 1] == s[to - 1]);
        assert(lead(t, 0) == 0);
        assert(tail(t, t.len() as int, 0) == t.len());
        assert(t.subrange(0, t.len() as int) == t);
    } else {
        assert(lead(t, 0) == 0);
        assert(tail(t, 0, 0) == 0);
        assert(t.subrange(0, 0) == t);
    }
}

/// `lead` stops inside `s`, on a character that is no white space or at the end.
pub proof fn lemma_lead_bounds(s: Seq<char>, i: int)
    requires
        0 <= i <= s.len(),
    ensures
        i <= lead(s, i) <= s.len(),
        lead(s, i) < s.len() ==> !is_space(s[lead(s, i)]),
    decreases s.len() - i,
{
    if i < s.len() && is_space(s[i]) {
        lemma_lead_bounds(s, i + 1);
    }
}

/// `tail` stops between `lo` and `j`, behind a character that is no white
/// space or at `lo`.
pub proof fn lemma_tail_bounds(s: Seq<char>, j: int, lo: int)
    requires
        0 <= lo <= j <= s.len(),
    ensures
        lo <= tail(s, j, lo) <= j,
        tail(s, j, lo) > lo ==> !is_space(s[tail(s, j, lo) - 1]),
    decreases j - lo,
{
    if lo < j && is_space(s[j - 1]) {
        lemma_tail_bounds(s, j - 1, lo);
    }
}

} // verus!
