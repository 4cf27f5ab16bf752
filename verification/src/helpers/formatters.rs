use vstd::prelude::*;

verus! {

/// The decimal digit for a value below ten.
pub open spec fn digit(value: int) -> char {
    if value == 0 {
        '0'
    } else if value == 1 {
        '1'
    } else if value == 2 {
        '2'
    } else if value == 3 {
        '3'
    } else if value == 4 {
        '4'
    } else if value == 5 {
        '5'
    } else if value == 6 {
        '6'
    } else if value == 7 {
        '7'
    } else if value == 8 {
        '8'
    } else {
        '9'
    }
}

/// A natural number in decimal, without leading zeros.
pub open spec fn decimal_nat(n: nat) -> Seq<char>
    decreases n,
{
    if n < 10 {
        seq![digit(n as int)]
    } else {
        decimal_nat(n / 10).push(digit((n % 10) as int))
    }
}

/// An integer in decimal, with a minus sign where it is negative.
pub open spec fn decimal(n: int) -> Seq<char> {
    if n < 0 {
        seq!['-'] + decimal_nat((-n) as nat)
    } else {
        decimal_nat(n as nat)
    }
}

/// An integer in decimal, filled with zeros after the sign to a width of
/// two characters.
pub open spec fn decimal_two(n: int) -> Seq<char> {
    if 0 <= n < 10 {
        seq!['0'] + decimal_nat(n as nat)
    } else {
        decimal(n)
    }
}

/// The quotient of `a` by `b` rounded toward zero, as machine arithmetic
/// rounds it.
pub open spec fn quotient(a: int, b: int) -> int
    recommends
        b > 0,
{
    if a >= 0 {
        a / b
    } else {
        -((-a) / b)
    }
}

/// The remainder that goes with `quotient`: it has the sign of `a`.
pub open spec fn remainder(a: int, b: int) -> int
    recommends
        b > 0,
{
    a - quotient(a, b) * b
}

/// One decimal digit as text.
fn digit_text(value: u64) -> (text: &'static str)
    requires
        value < 10,
    ensures
        text@ == seq![digit(value as int)],
{
    proof {
        reveal_strlit("0");
        reveal_strlit("1");
        reveal_strlit("2");
        reveal_strlit("3");
        reveal_strlit("4");
        reveal_strlit("5");
        reveal_strlit("6");
        reveal_strlit("7");
        reveal_strlit("8");
        reveal_strlit("9");
    }
    let text = match value {
        0 => "0",
        1 => "1",
        2 => "2",
        3 => "3",
        4 => "4",
        5 => "5",
        6 => "6",
        7 => "7",
        8 => "8",
        _ => "9",
    };
    assert(text@ =~= seq![digit(value as int)]);
    text
}

/// Appends a natural number in decimal to a text.
pub fn append_decimal_nat(text: &mut String, n: u64)
    ensures
        final(text)@ == old(text)@ + decimal_nat(n as nat),
    decreases n,
{
    if n >= 10 {
        append_decimal_nat(text, n / 10);
    }
    text.append(digit_text(n % 10));
    assert(text@ =~= old(text)@ + decimal_nat(n as nat));
}

/// Appends an integer in decimal to a text.
pub fn append_decimal(text: &mut String, n: i64)
    ensures
        final(text)@ == old(text)@ + decimal(n as int),
{
    if n < 0 {
        proof {
            reveal_strlit("-");
        }
        text.append("-");
        let magnitude: u64 = if n == i64::MIN {
            9_223_372_036_854_775_808u64
        } else {
            (-n) as u64
        };
        append_decimal_nat(text, magnitude);
        assert(text@ =~= old(text)@ + decimal(n as int));
    } else {
        append_decimal_nat(text, n as u64);
    }
}

/// Appends an integer in decimal, filled with zeros to two characters.
pub fn append_decimal_two(text: &mut String, n: i64)
    ensures
        final(text)@ == old(text)@ + decimal_two(n as int),
{
    if 0 <= n && n < 10 {
        proof {
            reveal_strlit("0");
        }
        text.append("0");
        append_decimal_nat(text, n as u64);
        assert(text@ =~= old(text)@ + decimal_two(n as int));
    } else {
        append_decimal(text, n);
    }
}

/// An integer as decimal text.
pub fn to_decimal(n: i64) -> (text: String)
    ensures
        text@ == decimal(n as int),
{
    let mut text = String::new();
    append_decimal(&mut text, n);
    assert(text@ =~= decimal(n as int));
    text
}

/// A duration as hours, minutes and seconds: `h:mm:ss`.
pub open spec fn spec_hms(total_seconds: int) -> Seq<char> {
    decimal(quotient(total_seconds, 3600)) + seq![':'] + decimal_two(
        quotient(remainder(total_seconds, 3600), 60),
    ) + seq![':'] + decimal_two(remainder(total_seconds, 60))
}

/// A duration as hours and minutes: `h:mm`.
pub open spec fn spec_hm(total_seconds: int) -> Seq<char> {
    decimal(quotient(total_seconds, 3600)) + seq![':'] + decimal_two(
        quotient(remainder(total_seconds, 3600), 60),
    )
}

/// Writes a number of seconds as `h:mm:ss`.
pub fn seconds_to_hms(total_seconds: i64) -> (text: String)
    ensures
        text@ == spec_hms(total_seconds as int),
{
    let h = total_seconds / 3600;
    let m = total_seconds % 3600 / 60;
    let s = total_seconds % 60;
    proof {
        reveal_strlit(":");
    }
    let mut text = String::new();
    append_decimal(&mut text, h);
    text.append(":");
    append_decimal_two(&mut text, m);
    text.append(":");
    append_decimal_two(&mut text, s);
    assert(text@ =~= spec_hms(total_seconds as int));
    text
}

/// Writes a number of seconds as `h:mm`.
pub fn seconds_to_hm(total_seconds: i64) -> (text: String)
    ensures
        text@ == spec_hm(total_seconds as int),
{
    let h = total_seconds / 3600;
    let m = total_seconds % 3600 / 60;
    proof {
        reveal_strlit(":");
    }
    let mut text = String::new();
    append_decimal(&mut text, h);
    text.append(":");
    append_decimal_two(&mut text, m);
    assert(text@ =~= spec_hm(total_seconds as int));
    text
}

/// Writes a duration with or without its seconds.
pub fn seconds_to_formatted_duration(total_seconds: i64, show_seconds: bool) -> (text: String)
    ensures
        text@ == if show_seconds {
            spec_hms(total_seconds as int)
        } else {
            spec_hm(total_seconds as int)
        },
{
    if show_seconds {
        seconds_to_hms(total_seconds)
    } else {
        seconds_to_hm(total_seconds)
    }
}

/// How a date is written in a title.
#[derive(Debug, Clone, Copy, PartialEq, Eq, Structural)]
pub enum TitleDate {
    Today,
    Yesterday,
    Tomorrow,
    /// A day of the present year: month and day.
    ThisYear,
    /// A day of another year: month, day and year.
    AnotherYear,
}

pub open spec fn spec_title_date(day: i64, year: i32, today: i64, this_year: i32) -> TitleDate {
    if day == today {
        TitleDate::Today
    } else if day + 1 == today {
        TitleDate::Yesterday
    } else if day - 1 == today {
        TitleDate::Tomorrow
    } else if year == this_year {
        TitleDate::ThisYear
    } else {
        TitleDate::AnotherYear
    }
}

/// Decides how a date is written in a title. Days are numbers that grow
/// with the calendar; `day` and `year` are the date's, `today` and
/// `this_year` the present ones.
pub fn format_title_date(day: i64, year: i32, today: i64, this_year: i32) -> (title: TitleDate)
    ensures
        title == spec_title_date(day, year, today, this_year),
{
    if day == today {
        TitleDate::Today
    } else if day < i64::MAX && day + 1 == today {
        TitleDate::Yesterday
    } else if day > i64::MIN && day - 1 == today {
        TitleDate::Tomorrow
    } else if year == this_year {
        TitleDate::ThisYear
    } else {
        TitleDate::AnotherYear
    }
}

} // verus!
