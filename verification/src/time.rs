//! Timestamps for log contexts: an opaque UTC instant as plain seconds
//! and nanoseconds, the local calendar fields derived from the clock, and
//! a verified renderer for the `YYYY-MM-DD HH:MM:SS.fffffffff` form the
//! default console target prints.

use vstd::prelude::*;
use vstd::string::StringExecFns;
use chrono::{Datelike, Timelike};

verus! {

/// A UTC instant: whole seconds since the Unix epoch and the nanoseconds
/// since the last whole second (up to 2 seconds' worth, so that a leap
/// second stays representable).
#[derive(Debug, Clone, Copy, PartialEq, Eq, Structural)]
pub struct Timestamp {
    pub secs: i64,
    pub nanos: u32,
}

/// The same instant broken into local calendar fields, as read from the
/// machine's clock and time zone when the log call was made.
#[derive(Debug, Clone, Copy, PartialEq, Eq, Structural)]
pub struct LocalTime {
    pub year: i32,
    pub month: u32,
    pub day: u32,
    pub hour: u32,
    pub minute: u32,
    pub second: u32,
    pub nanos: u32,
}

impl LocalTime {
    /// The ranges calendar fields live in.
    pub open spec fn wf(self) -> bool {
        &&& -262144 <= self.year <= 262144
        &&& 1 <= self.month <= 12
        &&& 1 <= self.day <= 31
        &&& self.hour < 24
        &&& self.minute < 60
        &&& self.second < 60
        &&& self.nanos < 2_000_000_000
    }
}

/// Relies on `chrono`: `Utc::now` reads the system clock;
/// `with_timezone(&Local)` re-expresses the instant in the machine's time
/// zone; `timestamp` and `timestamp_subsec_nanos` give the instant as
/// plain values, the subsecond part staying below two seconds even across
/// a leap second; the `Datelike` / `Timelike` accessors give calendar
/// fields within their documented ranges (month 1-12, day 1-31, hour
/// 0-23, minute and second 0-59, year within the supported calendar).
#[verifier::external_body]
pub(crate) fn now_parts() -> (r: (Timestamp, LocalTime))
    ensures
        r.0.nanos < 2_000_000_000,
        r.1.wf(),
{
    let now = chrono::Utc::now();
    let local = now.with_timezone(&chrono::Local);
    (
        Timestamp { secs: now.timestamp(), nanos: now.timestamp_subsec_nanos() },
        LocalTime {
            year: local.year(),
            month: local.month(),
            day: local.day(),
            hour: local.hour(),
            minute: local.minute(),
            second: local.second(),
            nanos: local.nanosecond(),
        },
    )
}

/// The character of a single decimal digit.
pub open spec fn digit_char(d: nat) -> char {
    if d == 0 {
        '0'
    } else if d == 1 {
        '1'
    } else if d == 2 {
        '2'
    } else if d == 3 {
        '3'
    } else if d == 4 {
        '4'
    } else if d == 5 {
        '5'
    } else if d == 6 {
        '6'
    } else if d == 7 {
        '7'
    } else if d == 8 {
        '8'
    } else {
        '9'
    }
}

/// The decimal digits of `n`, most significant first, with no sign and no
/// leading zeros.
pub open spec fn dec_digits(n: nat) -> Seq<char>
    decreases n,
{
    if n < 10 {
        seq![digit_char(n)]
    } else {
        dec_digits(n / 10).push(digit_char(n % 10))
    }
}

/// `s` left-padded with zeros to at least `width` characters.
pub open spec fn zero_pad(s: Seq<char>, width: nat) -> Seq<char> {
    if s.len() >= width {
        s
    } else {
        Seq::new((width - s.len()) as nat, |i: int| '0') + s
    }
}

/// Append the decimal digit `d` to `out`.
fn push_digit(out: &mut String, d: u64)
    requires
        d < 10,
    ensures
        final(out)@ == old(out)@ + seq![digit_char(d as nat)],
{
    proof {
        reveal_strlit("0");
        reveal_strlit("1");
        reveal_strlit("2");
        reveal_strlit("3");
        reveal_strlit("4");
        reveal_strlit("5");
        reveal_strlit("6");
        reveal_strlit("7");
        reveal_strlit("8");
        reveal_strlit("9");
    }
    match d {
        0 => out.append("0"),
        1 => out.append("1"),
        2 => out.append("2"),
        3 => out.append("3"),
        4 => out.append("4"),
        5 => out.append("5"),
        6 => out.append("6"),
        7 => out.append("7"),
        8 => out.append("8"),
        _ => out.append("9"),
    }
    proof {
        assert(final(out)@ =~= old(out)@ + seq![digit_char(d as nat)]);
    }
}

/// Append the decimal digits of `n` to `out`, most significant first.
fn push_digits(out: &mut String, n: u64)
    ensures
        final(out)@ == old(out)@ + dec_digits(n as nat),
    decreases n,
{
    if n >= 10 {
        push_digits(out, n / 10);
    }
    push_digit(out, n % 10);
    proof {
        assert(final(out)@ =~= old(out)@ + dec_digits(n as nat));
    }
}

/// How many decimal digits `n` has.
fn digit_count(n: u64) -> (r: usize)
    requires
        n < 10_000_000_000,
    ensures
        r == dec_digits(n as nat).len(),
        1 <= r <= 10,
{
    proof {
        reveal_with_fuel(dec_digits, 11);
    }
    if n < 10 {
        1
    } else if n < 100 {
        2
    } else if n < 1_000 {
        3
    } else if n < 10_000 {
        4
    } else if n < 100_000 {
        5
    } else if n < 1_000_000 {
        6
    } else if n < 10_000_000 {
        7
    } else if n < 100_000_000 {
        8
    } else if n < 1_000_000_000 {
        9
    } else {
        10
    }
}

/// Append `n` to `out` in decimal, left-padded with zeros to at least
/// `width` characters.
fn push_padded(out: &mut String, n: u64, width: usize)
    requires
        n < 10_000_000_000,
        width <= 10,
    ensures
        final(out)@ == old(out)@ + zero_pad(dec_digits(n as nat), width as nat),
{
    proof {
        reveal_strlit("0");
    }
    let d = digit_count(n);
    let ghost zeros = if width > d {
        (width - d) as nat
    } else {
        0nat
    };
    let mut z: usize = if width > d {
        width - d
    } else {
        0
    };
    while z > 0
        invariant
            z <= zeros,
            out@ == old(out)@ + Seq::new((zeros - z) as nat, |i: int| '0'),
        decreases z,
    {
        out.append("0");
        z = z - 1;
        proof {
            reveal_strlit("0");
            assert(out@ =~= old(out)@ + Seq::new((zeros - z) as nat, |i: int| '0'));
        }
    }
    push_digits(out, n);
    proof {
        assert(final(out)@ =~= old(out)@ + zero_pad(dec_digits(n as nat), width as nat));
    }
}

impl LocalTime {
    /// The `YYYY-MM-DD HH:MM:SS.fffffffff` form of this local time: each
    /// field zero-padded to its column width, the subsecond part in
    /// nanoseconds, and a leading minus sign for a negative year.
    pub open spec fn rendered(self) -> Seq<char> {
        let year_part = if self.year < 0 {
            seq!['-'] + zero_pad(dec_digits((-self.year) as nat), 4)
        } else {
            zero_pad(dec_digits(self.year as nat), 4)
        };
        year_part + seq!['-'] + zero_pad(dec_digits(self.month as nat), 2) + seq!['-'] + zero_pad(
            dec_digits(self.day as nat),
            2,
        ) + seq![' '] + zero_pad(dec_digits(self.hour as nat), 2) + seq![':'] + zero_pad(
            dec_digits(self.minute as nat),
            2,
        ) + seq![':'] + zero_pad(dec_digits(self.second as nat), 2) + seq!['.'] + zero_pad(
            dec_digits(self.nanos as nat),
            9,
        )
    }

    /// Render this local time for the default console line.
    #[verifier::rlimit(60)]
    pub fn render(&self) -> (r: String)
        requires
            self.wf(),
        ensures
            r@ == self.rendered(),
            r@.len() >= 29,
    {
        proof {
            reveal_strlit("-");
            reveal_strlit(" ");
            reveal_strlit(":");
            reveal_strlit(".");
        }
        let mut out = String::new();
        if self.year < 0 {
            out.append("-");
            let y = -self.year;
            push_padded(&mut out, y as u64, 4);
        } else {
            push_padded(&mut out, self.year as u64, 4);
        }
        out.append("-");
        push_padded(&mut out, self.month as u64, 2);
        out.append("-");
        push_padded(&mut out, self.day as u64, 2);
        out.append(" ");
        push_padded(&mut out, self.hour as u64, 2);
        out.append(":");
        push_padded(&mut out, self.minute as u64, 2);
        out.append(":");
        push_padded(&mut out, self.second as u64, 2);
        out.append(".");
        push_padded(&mut out, self.nanos as u64, 9);
        proof {
            assert(out@ =~= self.rendered());
        }
        out
    }
}

} // verus!
