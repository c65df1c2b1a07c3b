//! Recognizing what a sample value of a column holds.
use vstd::prelude::*;

use vstd::pervasive::VecAdditionalExecFns;
use vstd::utf8::encode_utf8;

use crate::dataset::{merged, FieldType};
use crate::error::PitchforkError;

verus! {

/// The text that `b` encodes in UTF-8, if it is valid UTF-8.
pub uninterp spec fn utf8_text(b: Seq<u8>) -> Option<Seq<char>>;

/// Whether chrono reads `s` as a date and time with an offset (relaxed
/// RFC 3339).
pub uninterp spec fn offset_date_time_accepts(s: Seq<char>) -> bool;

/// Whether chrono reads `s` as a date and time without an offset.
pub uninterp spec fn naive_date_time_accepts(s: Seq<char>) -> bool;

/// Whether chrono reads `s` as a date in ISO form (`2019-07-10`).
pub uninterp spec fn naive_date_accepts(s: Seq<char>) -> bool;

/// Whether chrono reads `s` as a date in the strftime-like format `fmt`.
pub uninterp spec fn naive_date_format_accepts(s: Seq<char>, fmt: Seq<char>) -> bool;

/// Relies on `std::str::from_utf8`: the text of the bytes where they are
/// valid UTF-8.
#[verifier::external_body]
fn decode_utf8<'a>(b: &'a [u8]) -> (r: Option<&'a str>)
    ensures
        match r {
            Some(s) => utf8_text(b@) == Some(s@),
            None => utf8_text(b@) is None,
        },
{
    std::str::from_utf8(b).ok()
}

/// Relies on `FromStr for DateTime<FixedOffset>` in chrono, which
/// `DateTime<Utc>` also parses with.
#[verifier::external_body]
fn parses_offset_date_time(s: &str) -> (r: bool)
    ensures
        r == offset_date_time_accepts(s@),
{
    s.parse::<chrono::DateTime<chrono::FixedOffset>>().is_ok()
}

/// Relies on `FromStr for NaiveDateTime` in chrono.
#[verifier::external_body]
fn parses_naive_date_time(s: &str) -> (r: bool)
    ensures
        r == naive_date_time_accepts(s@),
{
    s.parse::<chrono::NaiveDateTime>().is_ok()
}

/// Relies on `FromStr for NaiveDate` in chrono.
#[verifier::external_body]
fn parses_naive_date(s: &str) -> (r: bool)
    ensures
        r == naive_date_accepts(s@),
{
    s.parse::<chrono::NaiveDate>().is_ok()
}

/// Relies on chrono's `NaiveDate::parse_from_str`.
#[verifier::external_body]
fn parses_naive_date_format(s: &str, fmt: &str) -> (r: bool)
    ensures
        r == naive_date_format_accepts(s@, fmt@),
{
    chrono::NaiveDate::parse_from_str(s, fmt).is_ok()
}

pub open spec fn is_digit(c: char) -> bool {
    '0' <= c <= '9'
}

pub open spec fn is_sign(c: char) -> bool {
    c == '+' || c == '-'
}

/// The value of a run of decimal digits.
pub open spec fn digits_value(d: Seq<char>) -> int
    decreases d.len(),
{
    if d.len() == 0 {
        0
    } else {
        digits_value(d.drop_last()) * 10 + (d.last() as int - '0' as int)
    }
}

/// What `i64`'s `FromStr` accepts: an optional sign, then one or more
/// decimal digits, whose value fits in an `i64`.
pub open spec fn i64_text(s: Seq<char>) -> bool {
    let signed = s.len() > 0 && is_sign(s[0]);
    let d = if signed {
        s.drop_first()
    } else {
        s
    };
    &&& d.len() > 0
    &&& forall|i: int| 0 <= i < d.len() ==> is_digit(#[trigger] d[i])
    &&& if signed && s[0] == '-' {
        digits_value(d) <= 0x8000_0000_0000_0000
    } else {
        digits_value(d) <= 0x7fff_ffff_ffff_ffff
    }
}

/// Relies on `FromStr for i64`: an optional `+` or `-`, then decimal digits
/// only, for a value in range.
#[verifier::external_body]
fn parses_i64(s: &str) -> (r: bool)
    ensures
        r == i64_text(s@),
{
    s.parse::<i64>().is_ok()
}

/// The end of the run of digits of `s` that starts at `i`.
pub open spec fn digit_end(s: Seq<char>, i: int) -> int
    decreases s.len() - i,
{
    if 0 <= i < s.len() && is_digit(s[i]) {
        digit_end(s, i + 1)
    } else {
        i
    }
}

pub open spec fn ascii_lower(c: char) -> char {
    if 'A' <= c <= 'Z' {
        ((c as u8) + 32) as char
    } else {
        c
    }
}

/// Whether `s` from `k` on is `word`, ignoring ASCII case.
pub open spec fn word_at(s: Seq<char>, k: int, word: Seq<char>) -> bool {
    &&& s.len() - k == word.len()
    &&& forall|i: int| 0 <= i < word.len() ==> ascii_lower(#[trigger] s[k + i]) == word[i]
}

/// An exponent from `c` to the end: `e` or `E`, an optional sign, digits.
pub open spec fn exponent_at(s: Seq<char>, c: int) -> bool {
    let d = if c < s.len() && is_sign(s[c]) {
        c + 1
    } else {
        c
    };
    digit_end(s, d) > d && digit_end(s, d) == s.len()
}

/// A decimal number from `k` to the end: digits, an optional point with
/// digits, at least one digit in all, and an optional exponent.
pub open spec fn number_at(s: Seq<char>, k: int) -> bool {
    let a = digit_end(s, k);
    let dot = a < s.len() && s[a] == '.';
    let b = if dot {
        digit_end(s, a + 1)
    } else {
        a
    };
    &&& (a > k || (dot && b > a + 1))
    &&& (b == s.len() || ((s[b] == 'e' || s[b] == 'E') && exponent_at(s, b + 1)))
}

/// What the `FromStr` of the floating-point types accepts: an optional sign,
/// then `inf`, `infinity` or `nan` in any case, or a decimal number.
pub open spec fn float_text(s: Seq<char>) -> bool {
    let k = if s.len() > 0 && is_sign(s[0]) {
        1int
    } else {
        0int
    };
    word_at(s, k, "inf"@) || word_at(s, k, "infinity"@) || word_at(s, k, "nan"@) || number_at(
        s,
        k,
    )
}

fn digit_end_exec(s: &str, n: usize, i: usize) -> (r: usize)
    requires
        n == s@.len(),
        i <= n,
    ensures
        r as int == digit_end(s@, i as int),
        i <= r <= n,
{
    let mut j = i;
    while j < n && is_digit_exec(s.get_char(j))
        invariant
            n == s@.len(),
            i <= j <= n,
            digit_end(s@, j as int) == digit_end(s@, i as int),
        decreases n - j,
    {
        j = j + 1;
    }
    j
}

fn is_digit_exec(c: char) -> (r: bool)
    ensures
        r == is_digit(c),
{
    '0' <= c && c <= '9'
}

fn is_sign_exec(c: char) -> (r: bool)
    ensures
        r == is_sign(c),
{
    c == '+' || c == '-'
}

fn word_at_exec(s: &str, n: usize, k: usize, word: &str) -> (r: bool)
    requires
        n == s@.len(),
        k <= n,
    ensures
        r == word_at(s@, k as int, word@),
{
    let m = word.unicode_len();
    if n - k != m {
        return false;
    }
    let mut i: usize = 0;
    while i < m
        invariant
            n == s@.len(),
            m == word@.len(),
            k + m == n,
            i <= m,
            forall|j: int| 0 <= j < i ==> ascii_lower(#[trigger] s@[k + j]) == word@[j],
        decreases m - i,
    {
        let c = s.get_char(k + i);
        let lower = if 'A' <= c && c <= 'Z' {
            ((c as u8) + 32) as char
        } else {
            c
        };
        if lower != word.get_char(i) {
            return false;
        }
        i = i + 1;
    }
    true
}

/// Whether `s` is the text of a floating-point number, as the `FromStr` of
/// the floating-point types decides.
pub fn is_float_text(s: &str) -> (r: bool)
    ensures
        r == float_text(s@),
{
    let n = s.unicode_len();
    let k: usize = if n > 0 && is_sign_exec(s.get_char(0)) {
        1
    } else {
        0
    };
    if word_at_exec(s, n, k, "inf") || word_at_exec(s, n, k, "infinity") || word_at_exec(
        s,
        n,
        k,
        "nan",
    ) {
        return true;
    }
    let a = digit_end_exec(s, n, k);
    let dot = a < n && s.get_char(a) == '.';
    let b = if dot {
        digit_end_exec(s, n, a + 1)
    } else {
        a
    };
    if !(a > k || (dot && b > a + 1)) {
        return false;
    }
    if b == n {
        return true;
    }
    let e = s.get_char(b);
    if e != 'e' && e != 'E' {
        return false;
    }
    let c = b + 1;
    let d = if c < n && is_sign_exec(s.get_char(c)) {
        c + 1
    } else {
        c
    };
    let end = digit_end_exec(s, n, d);
    end > d && end == n
}

/// The type of a sample that is text, given what chrono made of it: an
/// integer, else a float, else a date and time (with or without offset),
/// else a date (ISO, or `%D`, `%m/%d/%Y` or `%v` form), else text.
pub open spec fn text_type(
    t: Seq<char>,
    offset_date_time: bool,
    naive_date_time: bool,
    naive_date: bool,
    formatted_date: bool,
) -> FieldType {
    if i64_text(t) {
        FieldType::TInteger
    } else if float_text(t) {
        FieldType::TFloat
    } else if offset_date_time || naive_date_time {
        FieldType::TDateTime
    } else if naive_date || formatted_date {
        FieldType::TDate
    } else {
        FieldType::TUnicode
    }
}

/// Whether chrono reads `t` as a date in one of the slash or month-name forms.
pub open spec fn formatted_date_accepts(t: Seq<char>) -> bool {
    naive_date_format_accepts(t, "%D"@) || naive_date_format_accepts(t, "%m/%d/%Y"@)
        || naive_date_format_accepts(t, "%v"@)
}

/// The type of a sample: null when empty, unknown when not UTF-8, else
/// [`text_type`] of its text.
pub open spec fn sample_type(b: Seq<u8>) -> FieldType {
    if b.len() == 0 {
        FieldType::TNull
    } else {
        match utf8_text(b) {
            None => FieldType::TUnknown,
            Some(t) => text_type(
                t,
                offset_date_time_accepts(t),
                naive_date_time_accepts(t),
                naive_date_accepts(t),
                formatted_date_accepts(t),
            ),
        }
    }
}

impl FieldType {
    /// The type of a sample that is text, given whether chrono reads it as
    /// a date and time with an offset, as one without, as an ISO date, and
    /// as a date in one of the other accepted forms.
    pub fn from_text(
        t: &str,
        offset_date_time: bool,
        naive_date_time: bool,
        naive_date: bool,
        formatted_date: bool,
    ) -> (r: FieldType)
        ensures
            r == text_type(t@, offset_date_time, naive_date_time, naive_date, formatted_date),
    {
        if parses_i64(t) {
            FieldType::TInteger
        } else if is_float_text(t) {
            FieldType::TFloat
        } else if offset_date_time || naive_date_time {
            FieldType::TDateTime
        } else if naive_date || formatted_date {
            FieldType::TDate
        } else {
            FieldType::TUnicode
        }
    }

    /// The most specific type that the sample value fits.
    pub fn from_sample(sample: &[u8]) -> (r: FieldType)
        ensures
            r == sample_type(sample@),
    {
        if sample.len() == 0 {
            return FieldType::TNull;
        }
        match decode_utf8(sample) {
            None => FieldType::TUnknown,
            Some(t) => {
                let offset_date_time = parses_offset_date_time(t);
                let naive_date_time = parses_naive_date_time(t);
                let naive_date = parses_naive_date(t);
                let formatted_date = parses_naive_date_format(t, "%D") || parses_naive_date_format(
                    t,
                    "%m/%d/%Y",
                ) || parses_naive_date_format(t, "%v");
                FieldType::from_text(t, offset_date_time, naive_date_time, naive_date, formatted_date)
            },
        }
    }
}

/// Column types inferred so far: names with their types, in order of first
/// appearance, each name once.
pub type CsvColumnTypes = Vec<(String, FieldType)>;

/// A CSV record: column names with their values.
pub type Record = Vec<(String, String)>;

pub open spec fn columns_view(cols: Seq<(String, FieldType)>) -> Seq<(Seq<char>, FieldType)> {
    cols.map_values(|p: (String, FieldType)| (p.0@, p.1))
}

pub open spec fn record_view(rec: Seq<(String, String)>) -> Seq<(Seq<char>, Seq<u8>)> {
    rec.map_values(|p: (String, String)| (p.0@, encode_utf8(p.1@)))
}

/// The position of column `k` in `cols` (its last one), or -1.
pub open spec fn key_index(cols: Seq<(Seq<char>, FieldType)>, k: Seq<char>) -> int
    decreases cols.len(),
{
    if cols.len() == 0 {
        -1
    } else if cols.last().0 == k {
        cols.len() - 1
    } else {
        key_index(cols.drop_last(), k)
    }
}

/// Account for one value of type `t` in column `k`: a known column's type
/// is relaxed to cover `t`; a new column is added with type `t`.
pub open spec fn absorb_one(cols: Seq<(Seq<char>, FieldType)>, k: Seq<char>, t: FieldType) -> Seq<
    (Seq<char>, FieldType),
> {
    let i = key_index(cols, k);
    if i >= 0 {
        cols.update(i, (k, merged(cols[i].1, t)))
    } else {
        cols.push((k, t))
    }
}

/// Account for every value of a record, in order, each with the type of
/// its sample.
pub open spec fn absorb(cols: Seq<(Seq<char>, FieldType)>, rec: Seq<(Seq<char>, Seq<u8>)>) -> Seq<
    (Seq<char>, FieldType),
>
    decreases rec.len(),
{
    if rec.len() == 0 {
        cols
    } else {
        absorb_one(absorb(cols, rec.drop_last()), rec.last().0, sample_type(rec.last().1))
    }
}

proof fn lemma_key_index_bounds(cols: Seq<(Seq<char>, FieldType)>, k: Seq<char>)
    ensures
        -1 <= key_index(cols, k) < cols.len(),
        key_index(cols, k) >= 0 ==> cols[key_index(cols, k)].0 == k,
    decreases cols.len(),
{
    if cols.len() > 0 && cols.last().0 != k {
        lemma_key_index_bounds(cols.drop_last(), k);
    }
}

pub(crate) fn find_column(cols: &Vec<(String, FieldType)>, key: &String) -> (r: Option<usize>)
    ensures
        match r {
            Some(i) => i < cols@.len() && key_index(columns_view(cols@), key@) == i as int,
            None => key_index(columns_view(cols@), key@) == -1,
        },
{
    let ghost view = columns_view(cols@);
    let mut i = cols.len();
    proof {
        assert(view.subrange(0, i as int) =~= view);
    }
    while i > 0
        invariant
            i <= cols@.len(),
            view == columns_view(cols@),
            key_index(view.subrange(0, i as int), key@) == key_index(view, key@),
        decreases i,
    {
        proof {
            assert(view.subrange(0, i as int).drop_last() =~= view.subrange(0, i - 1));
        }
        if cols[i - 1].0 == *key {
            return Some(i - 1);
        }
        i = i - 1;
    }
    proof {
        assert(view.subrange(0, 0) =~= Seq::<(Seq<char>, FieldType)>::empty());
    }
    None
}

/// Relax the inferred column types so that they cover every value of `rec`.
pub fn check_field_type(rec: &Record, cols: &mut CsvColumnTypes) -> (r: Result<(), PitchforkError>)
    ensures
        r is Ok,
        columns_view(final(cols)@) == absorb(columns_view(old(cols)@), record_view(rec@)),
{
    let ghost start = columns_view(cols@);
    let ghost recv = record_view(rec@);
    let mut i: usize = 0;
    while i < rec.len()
        invariant
            i <= rec@.len(),
            start == columns_view(old(cols)@),
            recv == record_view(rec@),
            columns_view(cols@) == absorb(start, recv.subrange(0, i as int)),
        decreases rec@.len() - i,
    {
        let key = &rec[i].0;
        let value = &rec[i].1;
        let typ = FieldType::from_sample(value.as_str().as_bytes());
        proof {
            assert(recv.subrange(0, i + 1).drop_last() =~= recv.subrange(0, i as int));
            assert(recv.subrange(0, i + 1).last() == recv[i as int]);
            lemma_key_index_bounds(columns_view(cols@), key@);
        }
        match find_column(cols, key) {
            Some(j) => {
                let mut cur = cols[j].1;
                cur.merge(typ);
                let name = cols[j].0.clone();
                cols.set(j, (name, cur));
                proof {
                    assert(columns_view(cols@) =~= absorb(start, recv.subrange(0, i + 1)));
                }
            },
            None => {
                cols.push((key.clone(), typ));
                proof {
                    assert(columns_view(cols@) =~= absorb(start, recv.subrange(0, i + 1)));
                }
            },
        }
        i = i + 1;
    }
    proof {
        assert(recv.subrange(0, rec@.len() as int) =~= recv);
    }
    Ok(())
}

} // verus!
