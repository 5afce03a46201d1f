//! The presentation formatter: turn a status and an optional deadline into
//! a display string and a color tag. Pure — the caller owns the output
//! stream and any styling side effect.
//!
//! A future deadline renders as an `HH:MM:SS` countdown whose hour field is
//! unbounded (it is not wrapped at twenty-four) while minutes and seconds
//! wrap to 0–59; a deadline already reached renders as a fixed readiness
//! indicator rather than a negative countdown; an absent deadline renders
//! as the empty string.

use vstd::prelude::*;
use vstd::string::StringExecFns;

use crate::status::ColorTag;
use crate::status::Status;
use crate::status::spec_color;

verus! {

/// The decimal digit character for one digit value.
pub open spec fn spec_digit_char(d: int) -> char
    recommends
        0 <= d <= 9,
{
    if d == 0 {
        '0'
    } else if d == 1 {
        '1'
    } else if d == 2 {
        '2'
    } else if d == 3 {
        '3'
    } else if d == 4 {
        '4'
    } else if d == 5 {
        '5'
    } else if d == 6 {
        '6'
    } else if d == 7 {
        '7'
    } else if d == 8 {
        '8'
    } else {
        '9'
    }
}

/// The decimal digit character for one digit value.
fn digit_str(d: u64) -> (r: &'static str)
    requires
        d < 10,
    ensures
        r@ =~= seq![spec_digit_char(d as int)],
{
    proof {
        reveal_strlit("0");
        reveal_strlit("1");
        reveal_strlit("2");
        reveal_strlit("3");
        reveal_strlit("4");
        reveal_strlit("5");
        reveal_strlit("6");
        reveal_strlit("7");
        reveal_strlit("8");
        reveal_strlit("9");
    }
    match d {
        0 => "0",
        1 => "1",
        2 => "2",
        3 => "3",
        4 => "4",
        5 => "5",
        6 => "6",
        7 => "7",
        8 => "8",
        _ => "9",
    }
}

/// The decimal rendering of a non-negative number, most significant digit
/// first, without leading zeroes.
pub open spec fn spec_decimal(n: int) -> Seq<char>
    recommends
        n >= 0,
    decreases n,
{
    if n < 10 {
        seq![spec_digit_char(n)]
    } else {
        spec_decimal(n / 10).push(spec_digit_char(n % 10))
    }
}

/// The decimal rendering of a number.
pub fn decimal_str(n: u64) -> (r: String)
    ensures
        r@ == spec_decimal(n as int),
    decreases n,
{
    if n < 10 {
        digit_str(n).to_owned()
    } else {
        let mut s = decimal_str(n / 10);
        s.append(digit_str(n % 10));
        proof {
            assert(s@ =~= spec_decimal(n as int));
        }
        s
    }
}

/// A decimal field of width at least two: one-digit values get a leading
/// zero, larger values render at their natural width.
pub open spec fn spec_padded(n: int) -> Seq<char>
    recommends
        n >= 0,
{
    if n < 10 {
        seq!['0', spec_digit_char(n)]
    } else {
        spec_decimal(n)
    }
}

/// A decimal field of width at least two.
pub fn padded_decimal(n: u64) -> (r: String)
    ensures
        r@ == spec_padded(n as int),
{
    if n < 10 {
        proof {
            reveal_strlit("0");
        }
        let mut s = "0".to_owned();
        s.append(digit_str(n));
        proof {
            assert(s@ =~= spec_padded(n as int));
        }
        s
    } else {
        decimal_str(n)
    }
}

/// The `HH:MM:SS` countdown for a non-negative number of seconds: unbounded
/// hours, then minutes and seconds wrapped to 0–59, each field at least two
/// digits wide.
pub open spec fn spec_countdown(dur: int) -> Seq<char>
    recommends
        dur >= 0,
{
    spec_padded(dur / 3600) + seq![':'] + spec_padded((dur / 60) % 60) + seq![':'] + spec_padded(
        dur % 60,
    )
}

/// The `HH:MM:SS` countdown for a non-negative number of seconds.
pub fn countdown_text(dur_secs: i64) -> (r: String)
    requires
        dur_secs >= 0,
    ensures
        r@ == spec_countdown(dur_secs as int),
{
    proof {
        reveal_strlit(":");
    }
    let hours: u64 = (dur_secs / 3600) as u64;
    let minutes: u64 = ((dur_secs / 60) % 60) as u64;
    let seconds: u64 = (dur_secs % 60) as u64;
    let mut s = padded_decimal(hours);
    s.append(":");
    let m = padded_decimal(minutes);
    s.append(m.as_str());
    s.append(":");
    let sec = padded_decimal(seconds);
    s.append(sec.as_str());
    proof {
        assert(s@ =~= spec_countdown(dur_secs as int));
    }
    s
}

/// The readiness indicator shown once a deadline has been reached.
pub open spec fn spec_ready_text() -> Seq<char> {
    "Ready"@
}

/// What [`render`] displays: the empty string for an absent deadline, the
/// readiness indicator for a deadline at or before `now`, and otherwise the
/// countdown of the remaining seconds.
pub open spec fn spec_render_text(deadline: Option<i64>, now: int) -> Seq<char> {
    match deadline {
        Option::None => Seq::<char>::empty(),
        Option::Some(d) => if d <= now {
            spec_ready_text()
        } else {
            spec_countdown(d - now)
        },
    }
}

/// Render one aggregated result for display: the text for its deadline and
/// the color tag of its status. The tag depends on the status alone.
pub fn render(status: Status, deadline: Option<i64>, now: i64) -> (r: (String, ColorTag))
    requires
        deadline is Some && now < deadline->0 ==> deadline->0 - now <= i64::MAX,
    ensures
        r.0@ == spec_render_text(deadline, now as int),
        r.1 == spec_color(status),
{
    let text = match deadline {
        None => String::new(),
        Some(d) => if d <= now {
            "Ready".to_owned()
        } else {
            countdown_text(d - now)
        },
    };
    (text, status.color())
}

} // verus!
