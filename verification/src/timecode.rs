//! Timestamps and output file names.
//!
//! A capture timestamp is a number of nanoseconds from the start of the
//! stream. The output file for a sample is named
//! `{prefix}-{index}-{MM}-{SS}-{mmm}.png`: minutes, seconds and milliseconds
//! of the captured timestamp, zero-padded to two, two and three digits.

use vstd::prelude::*;
use vstd::string::StrSliceExecFns;
use vstd::string::StringExecFns;

verus! {

pub const NANOS_PER_MILLI: u64 = 1_000_000;

pub const NANOS_PER_SEC: u64 = 1_000_000_000;

pub const NANOS_PER_MINUTE: u64 = 60_000_000_000;

/// Whole minutes of a timestamp of `ns` nanoseconds.
pub open spec fn spec_minutes(ns: nat) -> nat {
    ns / 60_000_000_000
}

/// Seconds of a timestamp within its minute.
pub open spec fn spec_seconds_rem(ns: nat) -> nat {
    (ns / 1_000_000_000) % 60
}

/// Milliseconds of a timestamp within its second.
pub open spec fn spec_millis_rem(ns: nat) -> nat {
    (ns / 1_000_000) % 1000
}

/// Splits a timestamp into whole minutes, seconds within the minute and
/// milliseconds within the second.
pub fn timecode_parts(ns: u64) -> (t: (u64, u64, u64))
    ensures
        t.0 == spec_minutes(ns as nat),
        t.1 == spec_seconds_rem(ns as nat),
        t.2 == spec_millis_rem(ns as nat),
        t.1 < 60,
        t.2 < 1000,
{
    let minutes = ns / NANOS_PER_MINUTE;
    let seconds = (ns / NANOS_PER_SEC) % 60;
    let millis = (ns / NANOS_PER_MILLI) % 1000;
    (minutes, seconds, millis)
}

/// The character for one decimal digit.
pub open spec fn digit_char(d: nat) -> char {
    if d == 0 {
        '0'
    } else if d == 1 {
        '1'
    } else if d == 2 {
        '2'
    } else if d == 3 {
        '3'
    } else if d == 4 {
        '4'
    } else if d == 5 {
        '5'
    } else if d == 6 {
        '6'
    } else if d == 7 {
        '7'
    } else if d == 8 {
        '8'
    } else {
        '9'
    }
}

/// The decimal digits of `n`, most significant first, with no leading zeros
/// (a single zero for `n == 0`).
pub open spec fn spec_decimal(n: nat) -> Seq<char>
    decreases n,
{
    if n < 10 {
        seq![digit_char(n)]
    } else {
        spec_decimal(n / 10).push(digit_char(n % 10))
    }
}

/// The decimal digits of `n`, zero-padded to at least two places.
pub open spec fn spec_pad2(n: nat) -> Seq<char> {
    if n < 10 {
        seq!['0'] + spec_decimal(n)
    } else {
        spec_decimal(n)
    }
}

/// The decimal digits of `n`, zero-padded to at least three places.
pub open spec fn spec_pad3(n: nat) -> Seq<char> {
    if n < 10 {
        seq!['0', '0'] + spec_decimal(n)
    } else if n < 100 {
        seq!['0'] + spec_decimal(n)
    } else {
        spec_decimal(n)
    }
}

/// The name of the output file for one sample: the batch prefix, the task's
/// ordinal in the batch, and the zero-padded minutes, seconds and
/// milliseconds of the captured timestamp.
pub open spec fn spec_sample_name(prefix: Seq<char>, index: nat, ns: nat) -> Seq<char> {
    prefix + seq!['-'] + spec_decimal(index) + seq!['-'] + spec_pad2(spec_minutes(ns)) + seq!['-']
        + spec_pad2(spec_seconds_rem(ns)) + seq!['-'] + spec_pad3(spec_millis_rem(ns)) + seq![
        '.',
        'p',
        'n',
        'g',
    ]
}

fn digit_str(d: u64) -> (r: &'static str)
    requires
        d < 10,
    ensures
        r@ == seq![digit_char(d as nat)],
{
    proof {
        reveal_strlit("0");
        reveal_strlit("1");
        reveal_strlit("2");
        reveal_strlit("3");
        reveal_strlit("4");
        reveal_strlit("5");
        reveal_strlit("6");
        reveal_strlit("7");
        reveal_strlit("8");
        reveal_strlit("9");
    }
    let r = if d == 0 {
        "0"
    } else if d == 1 {
        "1"
    } else if d == 2 {
        "2"
    } else if d == 3 {
        "3"
    } else if d == 4 {
        "4"
    } else if d == 5 {
        "5"
    } else if d == 6 {
        "6"
    } else if d == 7 {
        "7"
    } else if d == 8 {
        "8"
    } else {
        "9"
    };
    proof {
        assert(r@ =~= seq![digit_char(d as nat)]);
    }
    r
}

/// Renders `n` in decimal with no leading zeros.
pub fn decimal_string(n: u64) -> (r: String)
    ensures
        r@ == spec_decimal(n as nat),
    decreases n,
{
    if n < 10 {
        let mut s = String::new();
        s.append(digit_str(n));
        proof {
            assert(s@ =~= spec_decimal(n as nat));
        }
        s
    } else {
        let mut s = decimal_string(n / 10);
        s.append(digit_str(n % 10));
        proof {
            assert(s@ =~= spec_decimal(n as nat));
        }
        s
    }
}

/// Renders `n` in decimal, zero-padded to at least two places.
pub fn padded2_string(n: u64) -> (r: String)
    ensures
        r@ == spec_pad2(n as nat),
{
    proof {
        reveal_strlit("0");
    }
    let mut s = String::new();
    if n < 10 {
        s.append("0");
    }
    let digits = decimal_string(n);
    s.append(digits.as_str());
    proof {
        assert(s@ =~= spec_pad2(n as nat));
    }
    s
}

/// Renders `n` in decimal, zero-padded to at least three places.
pub fn padded3_string(n: u64) -> (r: String)
    ensures
        r@ == spec_pad3(n as nat),
{
    proof {
        reveal_strlit("0");
        reveal_strlit("00");
    }
    let mut s = String::new();
    if n < 10 {
        s.append("00");
    } else if n < 100 {
        s.append("0");
    }
    let digits = decimal_string(n);
    s.append(digits.as_str());
    proof {
        assert(s@ =~= spec_pad3(n as nat));
    }
    s
}

/// Builds the output file name for the sample of `task index` captured at
/// `ns` nanoseconds.
pub fn sample_file_name(prefix: &str, index: u32, ns: u64) -> (r: String)
    ensures
        r@ == spec_sample_name(prefix@, index as nat, ns as nat),
{
    proof {
        reveal_strlit("-");
        reveal_strlit(".png");
    }
    let (minutes, seconds, millis) = timecode_parts(ns);
    let mut s = String::new();
    s.append(prefix);
    s.append("-");
    let part = decimal_string(index as u64);
    s.append(part.as_str());
    s.append("-");
    let part = padded2_string(minutes);
    s.append(part.as_str());
    s.append("-");
    let part = padded2_string(seconds);
    s.append(part.as_str());
    s.append("-");
    let part = padded3_string(millis);
    s.append(part.as_str());
    s.append(".png");
    proof {
        assert(s@ =~= spec_sample_name(prefix@, index as nat, ns as nat));
    }
    s
}

} // verus!
