//! The time server's reply line: whitespace-separated fields, of which the
//! second is the date `YY-MM-DD`, the third the time `HH:MM:SS` and the
//! seventh a decimal number of milliseconds.

use crate::calendar::{
    epoch_seconds, lemma_civil_time_is_unique, lemma_epoch_days_bounds, utc_timestamp, valid_civil,
    CivilTime,
};
use crate::instant::AuthoritativeInstant;
use vstd::prelude::*;
use vstd::string::*;

verus! {

/// A reply line that does not hold a date, a time and a millisecond count in
/// the expected places, or holds ones that name no instant.
#[derive(Clone, Copy, Debug, PartialEq, Eq, Structural)]
pub struct FormatError;

/// Whether `c` separates fields: a character that Unicode counts as white space.
pub open spec fn is_space(c: char) -> bool {
    let u = c as u32;
    (0x09 <= u <= 0x0D) || u == 0x20 || u == 0x85 || u == 0xA0 || u == 0x1680 || (0x2000 <= u
        <= 0x200A) || u == 0x2028 || u == 0x2029 || u == 0x202F || u == 0x205F || u == 0x3000
}

/// The first index at or after `i` that holds no space, or the length.
pub open spec fn skip_spaces(s: Seq<char>, i: int) -> int
    decreases s.len() - i,
{
    if 0 <= i < s.len() && is_space(s[i]) {
        skip_spaces(s, i + 1)
    } else {
        i
    }
}

/// The first index at or after `i` that holds a space, or the length.
pub open spec fn skip_word(s: Seq<char>, i: int) -> int
    decreases s.len() - i,
{
    if 0 <= i < s.len() && !is_space(s[i]) {
        skip_word(s, i + 1)
    } else {
        i
    }
}

/// The fields of `s` that begin at or after `i`: the maximal runs of
/// characters that are no spaces, in order.
pub open spec fn fields_from(s: Seq<char>, i: int) -> Seq<Seq<char>>
    decreases s.len() - i,
{
    let a = skip_spaces(s, i);
    let b = skip_word(s, a);
    if i <= a < b <= s.len() {
        seq![s.subrange(a, b)] + fields_from(s, b)
    } else {
        Seq::empty()
    }
}

/// The fields of a reply line.
pub open spec fn fields(s: Seq<char>) -> Seq<Seq<char>> {
    fields_from(s, 0)
}

/// Whether `c` is one of `0` to `9`.
pub open spec fn is_digit(c: char) -> bool {
    0x30 <= c as u32 <= 0x39
}

/// The number that the digit `c` stands for.
pub open spec fn digit_value(c: char) -> int {
    c as u32 - 0x30
}

/// The number written by the two digits at `at` and `at + 1` of `f`.
pub open spec fn two_digits(f: Seq<char>, at: int) -> Option<int> {
    if 0 <= at && at + 2 <= f.len() && is_digit(f[at]) && is_digit(f[at + 1]) {
        Some(digit_value(f[at]) * 10 + digit_value(f[at + 1]))
    } else {
        None
    }
}

/// Whether `c` is an ASCII character, which is one byte on the wire.
pub open spec fn is_ascii_char(c: char) -> bool {
    (c as u32) < 0x80
}

/// Whether `f` begins with `n` ASCII characters, so that its first `n`
/// places are its first `n` bytes.
pub open spec fn ascii_prefix(f: Seq<char>, n: int) -> bool {
    n <= f.len() && forall|k: int| 0 <= k < n ==> is_ascii_char(#[trigger] f[k])
}

/// The three numbers of a date or time field: it begins with eight ASCII
/// characters, and two digits stand at each of the places 0, 3 and 6. What
/// stands at the places 2 and 5 and behind the eighth is not read.
pub open spec fn triple_of(f: Seq<char>) -> Option<(int, int, int)> {
    if ascii_prefix(f, 8) && two_digits(f, 0).is_some() && two_digits(f, 3).is_some()
        && two_digits(f, 6).is_some() {
        Some((two_digits(f, 0).unwrap(), two_digits(f, 3).unwrap(), two_digits(f, 6).unwrap()))
    } else {
        None
    }
}

/// The first index at or after `i` that holds no digit, or the length.
pub open spec fn digits_end(s: Seq<char>, i: int) -> int
    decreases s.len() - i,
{
    if 0 <= i < s.len() && is_digit(s[i]) {
        digits_end(s, i + 1)
    } else {
        i
    }
}

/// The number that a sequence of digits writes in base ten; 0 for none.
pub open spec fn digits_value(s: Seq<char>) -> int
    decreases s.len(),
{
    if s.len() == 0 {
        0
    } else {
        digits_value(s.drop_last()) * 10 + digit_value(s.last())
    }
}

/// Whether `f` begins with a sign.
pub open spec fn has_sign(f: Seq<char>) -> bool {
    f.len() > 0 && (f[0] == '+' || f[0] == '-')
}

/// The whole part of a decimal number, its fraction dropped: an optional
/// sign, digits, and optionally a point and more digits, with a digit on at
/// least one side of the point. `None` where `f` is not written so, or where
/// the whole part is beyond `i64::MAX` in size.
pub open spec fn decimal_whole(f: Seq<char>) -> Option<int> {
    let start: int = if has_sign(f) {
        1
    } else {
        0
    };
    let a = digits_end(f, start);
    let pointed = a < f.len() && f[a] == '.';
    let b = if pointed {
        digits_end(f, a + 1)
    } else {
        a
    };
    let digits = if pointed {
        b - start - 1
    } else {
        b - start
    };
    let size = digits_value(f.subrange(start, a));
    if b == f.len() && digits > 0 && size <= i64::MAX {
        Some(
            if f[0] == '-' {
                -size
            } else {
                size
            },
        )
    } else {
        None
    }
}

/// The instant that the fields of a reply name, in milliseconds since the
/// epoch: the second of the twenty-first century that the date and the time
/// give, and the milliseconds added to it. `None` where a field is missing or
/// malformed, where the date or the time does not exist, or where the sum is
/// out of an `i64`.
pub open spec fn fields_millis(f: Seq<Seq<char>>) -> Option<int> {
    if f.len() < 7 {
        None
    } else {
        match (triple_of(f[1]), triple_of(f[2]), decimal_whole(f[6])) {
            (Some(date), Some(time), Some(ms)) => {
                let total = epoch_seconds(2000 + date.0, date.1, date.2, time.0, time.1, time.2)
                    * 1000 + ms;
                if valid_civil(2000 + date.0, date.1, date.2, time.0, time.1, time.2) && total
                    <= i64::MAX {
                    Some(total)
                } else {
                    None
                }
            },
            _ => None,
        }
    }
}

/// The instant that a reply line names.
pub open spec fn reply_millis(s: Seq<char>) -> Option<int> {
    fields_millis(fields(s))
}

/// The fields held by a vector of vectors.
pub open spec fn field_views(f: Seq<Vec<char>>) -> Seq<Seq<char>> {
    Seq::new(f.len(), |k: int| f[k]@)
}

/// Tells a field separator from the other characters.
pub fn is_space_char(c: char) -> (r: bool)
    ensures
        r == is_space(c),
{
    let u: u32 = c as u32;
    (0x09 <= u && u <= 0x0D) || u == 0x20 || u == 0x85 || u == 0xA0 || u == 0x1680 || (0x2000 <= u
        && u <= 0x200A) || u == 0x2028 || u == 0x2029 || u == 0x202F || u == 0x205F || u == 0x3000
}

/// Tells a decimal digit from the other characters.
pub fn is_digit_char(c: char) -> (r: bool)
    ensures
        r == is_digit(c),
{
    let u: u32 = c as u32;
    0x30 <= u && u <= 0x39
}

/// The characters of a string, one by one.
pub fn chars_of(s: &str) -> (v: Vec<char>)
    ensures
        v@ == s@,
{
    let n: usize = s.unicode_len();
    let mut v: Vec<char> = Vec::new();
    let mut i: usize = 0;
    while i < n
        invariant
            i <= n,
            n == s@.len(),
            v@ == s@.take(i as int),
        decreases n - i,
    {
        v.push(s.get_char(i));
        i += 1;
        assert(v@ =~= s@.take(i as int));
    }
    assert(s@.take(n as int) =~= s@);
    v
}

/// Splits a line into its fields.
pub fn split_fields(text: &Vec<char>) -> (r: Vec<Vec<char>>)
    ensures
        r@.len() == fields(text@).len(),
        forall|k: int| 0 <= k < r@.len() ==> (#[trigger] r@[k])@ == fields(text@)[k],
{
    let n: usize = text.len();
    let mut out: Vec<Vec<char>> = Vec::new();
    let mut i: usize = 0;
    let ghost mut done: Seq<Seq<char>> = Seq::empty();
    loop
        invariant
            i <= n,
            n == text@.len(),
            out@.len() == done.len(),
            forall|k: int| 0 <= k < out@.len() ==> (#[trigger] out@[k])@ == done[k],
            fields(text@) == done + fields_from(text@, i as int),
        decreases n - i,
    {
        let mut a: usize = i;
        while a < n && is_space_char(text[a])
            invariant
                i <= a <= n,
                n == text@.len(),
                skip_spaces(text@, i as int) == skip_spaces(text@, a as int),
            decreases n - a,
        {
            a += 1;
        }
        let mut b: usize = a;
        let mut word: Vec<char> = Vec::new();
        while b < n && !is_space_char(text[b])
            invariant
                a <= b <= n,
                n == text@.len(),
                skip_word(text@, a as int) == skip_word(text@, b as int),
                word@ == text@.subrange(a as int, b as int),
            decreases n - b,
        {
            word.push(text[b]);
            b += 1;
            assert(word@ =~= text@.subrange(a as int, b as int));
        }
        if a == b {
            assert(fields_from(text@, i as int) =~= Seq::empty());
            assert(done + fields_from(text@, i as int) =~= done);
            return out;
        }
        proof {
            assert(fields_from(text@, i as int) == seq![text@.subrange(a as int, b as int)]
                + fields_from(text@, b as int));
            assert(done + (seq![word@] + fields_from(text@, b as int)) =~= done.push(word@)
                + fields_from(text@, b as int));
            done = done.push(word@);
        }
        out.push(word);
        i = b;
    }
}

/// Reads the two digits at `at` and `at + 1` of a field.
pub fn parse_two_digits(f: &Vec<char>, at: usize) -> (r: Option<u32>)
    ensures
        match r {
            Some(v) => two_digits(f@, at as int) == Some(v as int),
            None => two_digits(f@, at as int).is_none(),
        },
{
    if f.len() >= 2 && at <= f.len() - 2 && is_digit_char(f[at]) && is_digit_char(f[at + 1]) {
        let hi: u32 = f[at] as u32 - 0x30;
        let lo: u32 = f[at + 1] as u32 - 0x30;
        Some(hi * 10 + lo)
    } else {
        None
    }
}

/// Tells whether a field begins with `n` ASCII characters.
pub fn has_ascii_prefix(f: &Vec<char>, n: usize) -> (r: bool)
    ensures
        r == ascii_prefix(f@, n as int),
{
    if f.len() < n {
        return false;
    }
    let mut k: usize = 0;
    while k < n
        invariant
            k <= n <= f@.len(),
            forall|j: int| 0 <= j < k ==> is_ascii_char(#[trigger] f@[j]),
        decreases n - k,
    {
        if f[k] as u32 >= 0x80 {
            return false;
        }
        k += 1;
    }
    true
}

/// Reads the three two-digit numbers of a date or time field.
pub fn parse_triple(f: &Vec<char>) -> (r: Option<(u32, u32, u32)>)
    ensures
        match r {
            Some(t) => triple_of(f@) == Some((t.0 as int, t.1 as int, t.2 as int)),
            None => triple_of(f@).is_none(),
        },
{
    if !has_ascii_prefix(f, 8) {
        return None;
    }
    match (parse_two_digits(f, 0), parse_two_digits(f, 3), parse_two_digits(f, 6)) {
        (Some(x), Some(y), Some(z)) => Some((x, y, z)),
        _ => None,
    }
}

/// Reads the millisecond field: the whole part of its decimal number.
pub fn parse_millis_field(f: &Vec<char>) -> (r: Option<i64>)
    ensures
        match r {
            Some(v) => decimal_whole(f@) == Some(v as int),
            None => decimal_whole(f@).is_none(),
        },
{
    let n: usize = f.len();
    let negative: bool = n > 0 && f[0] == '-';
    let start: usize = if n > 0 && (f[0] == '+' || f[0] == '-') {
        1
    } else {
        0
    };
    let mut i: usize = start;
    let mut size: i64 = 0;
    let mut beyond: bool = false;
    while i < n && is_digit_char(f[i])
        invariant
            start <= i <= n,
            n == f@.len(),
            digits_end(f@, start as int) == digits_end(f@, i as int),
            0 <= size,
            !beyond ==> size == digits_value(f@.subrange(start as int, i as int)),
            beyond ==> digits_value(f@.subrange(start as int, i as int)) > i64::MAX,
        decreases n - i,
    {
        let d: i64 = (f[i] as u32 - 0x30) as i64;
        assert(f@.subrange(start as int, i + 1).drop_last() =~= f@.subrange(
            start as int,
            i as int,
        ));
        if !beyond {
            if size > (i64::MAX - d) / 10 {
                beyond = true;
            } else {
                size = size * 10 + d;
            }
        }
        i += 1;
    }
    let a: usize = i;
    let pointed: bool = a < n && f[a] == '.';
    if pointed {
        i += 1;
        while i < n && is_digit_char(f[i])
            invariant
                a < i <= n,
                n == f@.len(),
                digits_end(f@, a + 1) == digits_end(f@, i as int),
            decreases n - i,
        {
            i += 1;
        }
    }
    let digits: usize = if pointed {
        i - start - 1
    } else {
        i - start
    };
    if i == n && digits > 0 && !beyond {
        if negative {
            Some(-size)
        } else {
            Some(size)
        }
    } else {
        None
    }
}

/// Composes the instant from the fields of a reply.
pub fn instant_of_fields(f: &Vec<Vec<char>>) -> (r: Result<AuthoritativeInstant, FormatError>)
    ensures
        match r {
            Ok(t) => fields_millis(field_views(f@)) == Some(t@),
            Err(_) => fields_millis(field_views(f@)).is_none(),
        },
{
    if f.len() < 7 {
        return Err(FormatError);
    }
    let date = parse_triple(&f[1]);
    let time = parse_triple(&f[2]);
    let millis = parse_millis_field(&f[6]);
    match (date, time, millis) {
        (Some(date), Some(time), Some(ms)) => {
            let year: i32 = 2000 + date.0 as i32;
            match utc_timestamp(year, date.1, date.2, time.0, time.1, time.2) {
                Some(seconds) => {
                    proof {
                        lemma_epoch_days_bounds(year as int, date.1 as int, date.2 as int);
                    }
                    let base: i64 = seconds * 1000;
                    if ms > i64::MAX - base {
                        Err(FormatError)
                    } else {
                        Ok(AuthoritativeInstant::from_unix_millis(base + ms))
                    }
                },
                None => Err(FormatError),
            }
        },
        _ => Err(FormatError),
    }
}

/// Decodes a reply line into the instant it names.
pub fn parse_nist_response(response: &str) -> (r: Result<AuthoritativeInstant, FormatError>)
    ensures
        match r {
            Ok(t) => reply_millis(response@) == Some(t@),
            Err(_) => reply_millis(response@).is_none(),
        },
{
    let text = chars_of(response);
    let f = split_fields(&text);
    assert(field_views(f@) =~= fields(response@));
    instant_of_fields(&f)
}

/// The text that lossy decoding makes of bytes: what they spell as UTF-8,
/// with U+FFFD in place of each run of bytes that spells nothing.
pub uninterp spec fn lossy_text(bytes: Seq<u8>) -> Seq<char>;

/// Whether all the bytes are ASCII.
pub open spec fn is_ascii_bytes(bytes: Seq<u8>) -> bool {
    forall|i: int| 0 <= i < bytes.len() ==> bytes[i] < 128
}

/// The characters that ASCII bytes spell.
pub open spec fn ascii_text(bytes: Seq<u8>) -> Seq<char> {
    Seq::new(bytes.len(), |i: int| bytes[i] as char)
}

/// Decodes bytes with std's `String::from_utf8_lossy`.
///
/// Trusted: the text depends on the bytes alone, and ASCII bytes spell one
/// character each, themselves.
#[verifier::external_body]
fn decode_lossy(bytes: &[u8]) -> (r: String)
    ensures
        r@ == lossy_text(bytes@),
        is_ascii_bytes(bytes@) ==> r@ == ascii_text(bytes@),
{
    String::from_utf8_lossy(bytes).into_owned()
}

/// Decodes the bytes that the time server sent into the instant they name.
/// Bytes that are no UTF-8 are replaced, and do no harm outside the fields
/// that are read.
pub fn parse_reply_bytes(bytes: &[u8]) -> (r: Result<AuthoritativeInstant, FormatError>)
    ensures
        match r {
            Ok(t) => reply_millis(lossy_text(bytes@)) == Some(t@),
            Err(_) => reply_millis(lossy_text(bytes@)).is_none(),
        },
        is_ascii_bytes(bytes@) ==> match r {
            Ok(t) => reply_millis(ascii_text(bytes@)) == Some(t@),
            Err(_) => reply_millis(ascii_text(bytes@)).is_none(),
        },
{
    let text = decode_lossy(bytes);
    parse_nist_response(text.as_str())
}

/// A reply with seven fields or more, whose date and time fields hold
/// two-digit numbers at their fixed places that name a day and a second, and
/// whose seventh field is a decimal number, names this instant: the second
/// of the year 2000 plus the two-digit year that the numbers give, and the
/// whole milliseconds added to it. (The sum is to fit in an `i64`.)
pub proof fn lemma_well_formed_reply_names_its_instant(
    s: Seq<char>,
    date: (int, int, int),
    time: (int, int, int),
    ms: int,
)
    requires
        fields(s).len() >= 7,
        triple_of(fields(s)[1]) == Some(date),
        triple_of(fields(s)[2]) == Some(time),
        decimal_whole(fields(s)[6]) == Some(ms),
        valid_civil(2000 + date.0, date.1, date.2, time.0, time.1, time.2),
        epoch_seconds(2000 + date.0, date.1, date.2, time.0, time.1, time.2) * 1000 + ms
            <= i64::MAX,
    ensures
        0 <= date.0 <= 99,
        reply_millis(s) == Some(
            epoch_seconds(2000 + date.0, date.1, date.2, time.0, time.1, time.2) * 1000 + ms,
        ),
{
}

/// A reply names no instant where it has fewer than seven fields, where its
/// date or time field is short, holds a character of more than one byte among
/// its first eight or something else than a digit at one of the six places, where its seventh field is no decimal number, or where the
/// numbers name no day of the calendar or no second of a day.
pub proof fn lemma_malformed_reply_names_none(s: Seq<char>)
    requires
        fields(s).len() < 7 || triple_of(fields(s)[1]).is_none() || triple_of(
            fields(s)[2],
        ).is_none() || decimal_whole(fields(s)[6]).is_none() || !valid_civil(
            2000 + triple_of(fields(s)[1]).unwrap().0,
            triple_of(fields(s)[1]).unwrap().1,
            triple_of(fields(s)[1]).unwrap().2,
            triple_of(fields(s)[2]).unwrap().0,
            triple_of(fields(s)[2]).unwrap().1,
            triple_of(fields(s)[2]).unwrap().2,
        ),
    ensures
        reply_millis(s).is_none(),
{
}

/// A date or time field of fewer than eight characters, or with anything but
/// a digit at place 0, 1, 3, 4, 6 or 7, holds no numbers.
pub proof fn lemma_non_digit_is_refused(f: Seq<char>, at: int)
    requires
        at == 0 || at == 1 || at == 3 || at == 4 || at == 6 || at == 7,
        f.len() < 8 || !is_digit(f[at]),
    ensures
        triple_of(f).is_none(),
{
}

/// A date or time field with a character of more than one byte among its
/// first eight holds no numbers: the places of its bytes are then not those
/// of its characters.
pub proof fn lemma_non_ascii_is_refused(f: Seq<char>, at: int)
    requires
        0 <= at < 8,
        f.len() < 8 || !is_ascii_char(f[at]),
    ensures
        triple_of(f).is_none(),
{
}

/// No month is numbered below 1 or above 12, no day below 1 or above 31, no
/// hour above 23, and no minute or second above 59.
pub proof fn lemma_out_of_range_is_no_date(
    year: int,
    month: int,
    day: int,
    hour: int,
    minute: int,
    second: int,
)
    requires
        month < 1 || month > 12 || day < 1 || day > 31 || hour > 23 || minute > 59 || second
            > 59,
    ensures
        !valid_civil(year, month, day, hour, minute, second),
{
}

/// A run of digits from `i` to `j`, with the line's end or something else
/// than a digit behind it, ends at `j`.
pub proof fn lemma_digits_end_of_run(s: Seq<char>, i: int, j: int)
    requires
        0 <= i <= j <= s.len(),
        forall|k: int| i <= k < j ==> is_digit(#[trigger] s[k]),
        j == s.len() || !is_digit(s[j]),
    ensures
        digits_end(s, i) == j,
    decreases j - i,
{
    if i < j {
        lemma_digits_end_of_run(s, i + 1, j);
    }
}

/// The digits behind the point do not count: a number written as digits, a
/// point and more digits has the value of the digits before the point, as
/// has the same number written without point and fraction.
pub proof fn lemma_fraction_is_dropped(whole: Seq<char>, fraction: Seq<char>)
    requires
        whole.len() > 0,
        forall|k: int| 0 <= k < whole.len() ==> is_digit(#[trigger] whole[k]),
        forall|k: int| 0 <= k < fraction.len() ==> is_digit(#[trigger] fraction[k]),
        digits_value(whole) <= i64::MAX,
    ensures
        decimal_whole(whole + seq!['.'] + fraction) == Some(digits_value(whole)),
        decimal_whole(whole) == Some(digits_value(whole)),
{
    let f = whole + seq!['.'] + fraction;
    let a = whole.len() as int;
    assert(is_digit(whole[0]));
    assert(f[0] == whole[0]);
    assert(!has_sign(f));
    assert(!has_sign(whole));
    assert forall|k: int| 0 <= k < a implies is_digit(#[trigger] f[k]) by {
        assert(f[k] == whole[k]);
    }
    assert(f[a] == '.');
    lemma_digits_end_of_run(f, 0, a);
    assert forall|k: int| a + 1 <= k < f.len() implies is_digit(#[trigger] f[k]) by {
        assert(f[k] == fraction[k - a - 1]);
    }
    lemma_digits_end_of_run(f, a + 1, f.len() as int);
    assert(f.subrange(0, a) =~= whole);
    lemma_digits_end_of_run(whole, 0, a);
    assert(whole.subrange(0, a) =~= whole);
}

/// Read back as calendar and clock, the instant that a well-formed reply
/// names shows the reply's own numbers: the year 2000 plus the two-digit
/// year, the month, the day, the hour, the minute, the second, and the whole
/// milliseconds, where these are fewer than a thousand.
pub proof fn lemma_reply_numbers_come_back(
    s: Seq<char>,
    date: (int, int, int),
    time: (int, int, int),
    ms: int,
    civil: CivilTime,
)
    requires
        fields(s).len() >= 7,
        triple_of(fields(s)[1]) == Some(date),
        triple_of(fields(s)[2]) == Some(time),
        decimal_whole(fields(s)[6]) == Some(ms),
        valid_civil(2000 + date.0, date.1, date.2, time.0, time.1, time.2),
        0 <= ms < 1000,
        civil.wf(),
        reply_millis(s) == Some(civil.epoch_millis()),
    ensures
        civil.year == 2000 + date.0,
        civil.month == date.1,
        civil.day == date.2,
        civil.hour == time.0,
        civil.minute == time.1,
        civil.second == time.2,
        civil.millisecond == ms,
{
    let named = CivilTime {
        year: (2000 + date.0) as i32,
        month: date.1 as u32,
        day: date.2 as u32,
        hour: time.0 as u32,
        minute: time.1 as u32,
        second: time.2 as u32,
        millisecond: ms as u32,
    };
    lemma_epoch_days_bounds(2000 + date.0, date.1, date.2);
    lemma_civil_time_is_unique(named, civil);
}

/// From `from` to the end of the word that it lies in, nothing is a space.
pub proof fn lemma_word_holds_no_space(s: Seq<char>, start: int, from: int)
    requires
        0 <= start <= from <= s.len(),
        skip_word(s, start) == skip_word(s, from),
    ensures
        from <= skip_word(s, start) <= s.len(),
        forall|j: int| from <= j < skip_word(s, start) ==> !is_space(#[trigger] s[j]),
    decreases s.len() - from,
{
    if from < s.len() && !is_space(s[from]) {
        lemma_word_holds_no_space(s, start, from + 1);
    }
}

/// No field is empty, and none holds a space.
pub proof fn lemma_fields_hold_no_space(s: Seq<char>, i: int)
    requires
        0 <= i <= s.len(),
    ensures
        forall|k: int, j: int|
            0 <= k < fields_from(s, i).len() && 0 <= j < fields_from(s, i)[k].len() ==> !is_space(
                #[trigger] fields_from(s, i)[k][j],
            ),
        forall|k: int| 0 <= k < fields_from(s, i).len() ==> (#[trigger] fields_from(s, i)[k]).len() > 0,
    decreases s.len() - i,
{
    let a = skip_spaces(s, i);
    let b = skip_word(s, a);
    if i <= a < b <= s.len() {
        lemma_word_holds_no_space(s, a, a);
        lemma_fields_hold_no_space(s, b);
        let rest = fields_from(s, b);
        let all = fields_from(s, i);
        assert(all == seq![s.subrange(a, b)] + rest);
        assert forall|k: int| 0 <= k < all.len() implies (#[trigger] all[k]).len() > 0 by {
            if k > 0 {
                assert(all[k] == rest[k - 1]);
            }
        }
        assert forall|k: int, j: int| 0 <= k < all.len() && 0 <= j < all[k].len() implies !is_space(
            #[trigger] all[k][j],
        ) by {
            if k > 0 {
                assert(all[k] == rest[k - 1]);
                assert(!is_space(rest[k - 1][j]));
            } else {
                assert(all[0][j] == s[a + j]);
            }
        }
    }
}

} // verus!
