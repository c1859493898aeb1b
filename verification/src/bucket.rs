//! Bucket names: the `YYYY-MM` shape, recognising it and producing it.

use vstd::prelude::*;
use vstd::string::*;

verus! {

/// Whether `c` is one of the ten ASCII decimal digits.
pub open spec fn is_digit(c: char) -> bool {
    '0' <= c && c <= '9'
}

/// The shape of a bucket name: four digits, a hyphen, two digits, and
/// nothing else.
pub open spec fn is_bucket_name(s: Seq<char>) -> bool {
    &&& s.len() == 7
    &&& is_digit(s[0])
    &&& is_digit(s[1])
    &&& is_digit(s[2])
    &&& is_digit(s[3])
    &&& s[4] == '-'
    &&& is_digit(s[5])
    &&& is_digit(s[6])
}

/// The character that writes the decimal digit `d`.
pub open spec fn digit_char(d: int) -> char {
    if d == 0 {
        '0'
    } else if d == 1 {
        '1'
    } else if d == 2 {
        '2'
    } else if d == 3 {
        '3'
    } else if d == 4 {
        '4'
    } else if d == 5 {
        '5'
    } else if d == 6 {
        '6'
    } else if d == 7 {
        '7'
    } else if d == 8 {
        '8'
    } else {
        '9'
    }
}

/// The dates that have a bucket: a year that four digits can write and a
/// month of the calendar.
pub open spec fn date_has_bucket(year: int, month: int) -> bool {
    0 <= year <= 9999 && 1 <= month <= 12
}

/// The name of the bucket of a month: the year in four digits, a hyphen, the
/// month in two digits, both padded with zeros.
pub open spec fn bucket_name_of(year: int, month: int) -> Seq<char> {
    seq![
        digit_char(year / 1000),
        digit_char(year / 100 % 10),
        digit_char(year / 10 % 10),
        digit_char(year % 10),
        '-',
        digit_char(month / 10),
        digit_char(month % 10),
    ]
}

fn char_is_digit(c: char) -> (b: bool)
    ensures
        b == is_digit(c),
{
    '0' <= c && c <= '9'
}

/// Tells whether `name` has the shape of a bucket name.
pub fn is_year_month_dir(name: &str) -> (b: bool)
    ensures
        b == is_bucket_name(name@),
{
    if name.unicode_len() != 7 {
        return false;
    }
    char_is_digit(name.get_char(0)) && char_is_digit(name.get_char(1)) && char_is_digit(
        name.get_char(2),
    ) && char_is_digit(name.get_char(3)) && name.get_char(4) == '-' && char_is_digit(
        name.get_char(5),
    ) && char_is_digit(name.get_char(6))
}

fn digit_text(d: u32) -> (t: &'static str)
    requires
        d < 10,
    ensures
        t@ == seq![digit_char(d as int)],
{
    proof {
        reveal_strlit("0");
        reveal_strlit("1");
        reveal_strlit("2");
        reveal_strlit("3");
        reveal_strlit("4");
        reveal_strlit("5");
        reveal_strlit("6");
        reveal_strlit("7");
        reveal_strlit("8");
        reveal_strlit("9");
    }
    match d {
        0 => "0",
        1 => "1",
        2 => "2",
        3 => "3",
        4 => "4",
        5 => "5",
        6 => "6",
        7 => "7",
        8 => "8",
        _ => "9",
    }
}

/// The name of the bucket for a calendar month, where the date has one.
pub fn bucket_name(year: i32, month: u32) -> (r: Option<String>)
    ensures
        match r {
            Some(s) => date_has_bucket(year as int, month as int) && s@ == bucket_name_of(
                year as int,
                month as int,
            ),
            None => !date_has_bucket(year as int, month as int),
        },
{
    if year < 0 || year > 9999 || month < 1 || month > 12 {
        return None;
    }
    let y: u32 = year as u32;
    let mut name = String::new();
    name.append(digit_text(y / 1000));
    name.append(digit_text(y / 100 % 10));
    name.append(digit_text(y / 10 % 10));
    name.append(digit_text(y % 10));
    proof {
        reveal_strlit("-");
    }
    name.append("-");
    name.append(digit_text(month / 10));
    name.append(digit_text(month % 10));
    assert(name@ =~= bucket_name_of(year as int, month as int));
    Some(name)
}

/// Every bucket name that is produced has the shape by which bucket
/// directories are recognised.
pub proof fn lemma_bucket_name_has_shape(year: int, month: int)
    requires
        date_has_bucket(year, month),
    ensures
        is_bucket_name(bucket_name_of(year, month)),
{
}

proof fn lemma_digit_char_injective(a: int, b: int)
    requires
        0 <= a <= 9,
        0 <= b <= 9,
        digit_char(a) == digit_char(b),
    ensures
        a == b,
{
}

/// Different months have different bucket names.
pub proof fn lemma_bucket_name_injective(y1: int, m1: int, y2: int, m2: int)
    requires
        date_has_bucket(y1, m1),
        date_has_bucket(y2, m2),
        bucket_name_of(y1, m1) == bucket_name_of(y2, m2),
    ensures
        y1 == y2,
        m1 == m2,
{
    let a = bucket_name_of(y1, m1);
    let b = bucket_name_of(y2, m2);
    assert(a[0] == b[0] && a[1] == b[1] && a[2] == b[2] && a[3] == b[3]);
    assert(a[5] == b[5] && a[6] == b[6]);
    lemma_digit_char_injective(y1 / 1000, y2 / 1000);
    lemma_digit_char_injective(y1 / 100 % 10, y2 / 100 % 10);
    lemma_digit_char_injective(y1 / 10 % 10, y2 / 10 % 10);
    lemma_digit_char_injective(y1 % 10, y2 % 10);
    lemma_digit_char_injective(m1 / 10, m2 / 10);
    lemma_digit_char_injective(m1 % 10, m2 % 10);
}

} // verus!
