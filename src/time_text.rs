use vstd::prelude::*;

verus! {

/// The character of a decimal digit.
pub open spec fn digit_char(d: int) -> char {
    if d == 0 {
        '0'
    } else if d == 1 {
        '1'
    } else if d == 2 {
        '2'
    } else if d == 3 {
        '3'
    } else if d == 4 {
        '4'
    } else if d == 5 {
        '5'
    } else if d == 6 {
        '6'
    } else if d == 7 {
        '7'
    } else if d == 8 {
        '8'
    } else {
        '9'
    }
}

/// `n` written in decimal, without leading zeros.
pub open spec fn decimal(n: nat) -> Seq<char>
    decreases n,
{
    if n < 10 {
        seq![digit_char(n as int)]
    } else {
        decimal(n / 10).push(digit_char((n % 10) as int))
    }
}

/// `n < 100` written with exactly two digits.
pub open spec fn two_digits(n: int) -> Seq<char> {
    seq![digit_char(n / 10), digit_char(n % 10)]
}

/// Whole hours in `ms` milliseconds.
pub open spec fn hours_of(ms: nat) -> int {
    (ms / 1000 / 3600) as int
}

/// Whole minutes past the hour in `ms` milliseconds.
pub open spec fn minutes_of(ms: nat) -> int {
    (ms / 1000 % 3600 / 60) as int
}

/// What is left of `ms` after taking away whole hours and minutes, in
/// milliseconds.
pub open spec fn rest_of(ms: nat) -> int {
    ms - 60000 * minutes_of(ms) - 3600000 * hours_of(ms)
}

/// The seconds past the minute in tenths, rounded half up.
pub open spec fn tenths_of(ms: nat) -> int {
    (rest_of(ms) + 50) / 100
}

/// `H:MM:SS.S`: hours as they are, minutes in two digits, seconds in two
/// digits and one decimal.
pub open spec fn time_text(ms: nat) -> Seq<char> {
    decimal(hours_of(ms) as nat) + seq![':'] + two_digits(minutes_of(ms)) + seq![':'] + two_digits(
        tenths_of(ms) / 10,
    ) + seq!['.', digit_char(tenths_of(ms) % 10)]
}

/// The ten characters `0` to `9`.
pub open spec fn is_digit(c: char) -> bool {
    c == '0' || c == '1' || c == '2' || c == '3' || c == '4' || c == '5' || c == '6' || c == '7'
        || c == '8' || c == '9'
}

proof fn lemma_rest_bounds(ms: nat)
    ensures
        0 <= rest_of(ms) < 60000,
        0 <= minutes_of(ms) < 60,
{
    let secs = ms / 1000;
    let (q, r1) = (secs as int, (ms % 1000) as int);
    let (h, r2) = (hours_of(ms), (secs % 3600) as int);
    let (m, r3) = (minutes_of(ms), (secs % 3600 % 60) as int);
    assert(ms == 1000 * q + r1);
    assert(q == 3600 * h + r2);
    assert(r2 == 60 * m + r3);
    assert(ms - 60000 * m - 3600000 * h == r1 + 1000 * r3);
}

proof fn lemma_decimal_digits(n: nat)
    ensures
        decimal(n).len() >= 1,
        forall|i: int| 0 <= i < decimal(n).len() ==> is_digit(#[trigger] decimal(n)[i]),
    decreases n,
{
    if n >= 10 {
        lemma_decimal_digits(n / 10);
    }
}

/// Every time reads `H:MM:SS.S`: the hours in as many digits as they need,
/// a colon, the minutes in two digits and below sixty, a colon, and the
/// seconds in two digits, a point and one digit, never beyond sixty.
pub proof fn lemma_time_text_shape(ms: nat)
    ensures
        ({
            let s = time_text(ms);
            let n = s.len() - 8;
            &&& n >= 1
            &&& s.subrange(0, n) == decimal(hours_of(ms) as nat)
            &&& s[n] == ':'
            &&& s.subrange(n + 1, n + 3) == two_digits(minutes_of(ms))
            &&& s[n + 3] == ':'
            &&& s.subrange(n + 4, n + 6) == two_digits(tenths_of(ms) / 10)
            &&& s[n + 6] == '.'
            &&& s[n + 7] == digit_char(tenths_of(ms) % 10)
            &&& forall|i: int|
                0 <= i < s.len() && i != n && i != n + 3 && i != n + 6 ==> is_digit(#[trigger] s[i])
            &&& 0 <= minutes_of(ms) < 60
            &&& 0 <= tenths_of(ms) <= 600
        }),
{
    lemma_rest_bounds(ms);
    let d = decimal(hours_of(ms) as nat);
    lemma_decimal_digits(hours_of(ms) as nat);
    let s = time_text(ms);
    let n = d.len() as int;
    assert(s.len() == n + 8);
    assert(s.subrange(0, n) =~= d);
    assert(s.subrange(n + 1, n + 3) =~= two_digits(minutes_of(ms)));
    assert(s.subrange(n + 4, n + 6) =~= two_digits(tenths_of(ms) / 10));
    assert forall|i: int|
        0 <= i < s.len() && i != n && i != n + 3 && i != n + 6 implies is_digit(#[trigger] s[i]) by {
        if i < n {
            assert(s[i] == d[i]);
        }
    }
}

fn push_digit(s: &mut String, d: u64)
    requires
        d < 10,
    ensures
        final(s)@ == old(s)@.push(digit_char(d as int)),
{
    let text = match d {
        0 => {
            proof { reveal_strlit("0"); }
            "0"
        },
        1 => {
            proof { reveal_strlit("1"); }
            "1"
        },
        2 => {
            proof { reveal_strlit("2"); }
            "2"
        },
        3 => {
            proof { reveal_strlit("3"); }
            "3"
        },
        4 => {
            proof { reveal_strlit("4"); }
            "4"
        },
        5 => {
            proof { reveal_strlit("5"); }
            "5"
        },
        6 => {
            proof { reveal_strlit("6"); }
            "6"
        },
        7 => {
            proof { reveal_strlit("7"); }
            "7"
        },
        8 => {
            proof { reveal_strlit("8"); }
            "8"
        },
        _ => {
            proof { reveal_strlit("9"); }
            "9"
        },
    };
    assert(text@ =~= seq![digit_char(d as int)]);
    s.append(text);
}

fn push_decimal(s: &mut String, n: u64)
    ensures
        final(s)@ == old(s)@ + decimal(n as nat),
    decreases n,
{
    if n >= 10 {
        push_decimal(s, n / 10);
    }
    push_digit(s, n % 10);
    assert(final(s)@ =~= old(s)@ + decimal(n as nat));
}

fn push_two_digits(s: &mut String, n: u64)
    requires
        n < 100,
    ensures
        final(s)@ == old(s)@ + two_digits(n as int),
{
    push_digit(s, n / 10);
    push_digit(s, n % 10);
    assert(final(s)@ =~= old(s)@ + two_digits(n as int));
}

/// A time of `ms` milliseconds as `H:MM:SS.S`, for instance `0:02:05.3` for
/// 125300.
pub fn time_to_display(ms: u64) -> (r: String)
    ensures
        r@ == time_text(ms as nat),
{
    let secs: u64 = ms / 1000;
    let hours: u64 = secs / 3600;
    let mins: u64 = secs % 3600 / 60;
    proof {
        lemma_rest_bounds(ms as nat);
    }
    let rest: u64 = ms - 60000 * mins - 3600000 * hours;
    let tenths: u64 = (rest + 50) / 100;
    let mut s = String::new();
    push_decimal(&mut s, hours);
    proof { reveal_strlit(":"); reveal_strlit("."); }
    s.append(":");
    push_two_digits(&mut s, mins);
    s.append(":");
    push_two_digits(&mut s, tenths / 10);
    s.append(".");
    push_digit(&mut s, tenths % 10);
    assert(s@ =~= time_text(ms as nat));
    s
}

} // verus!
