//! Plain-text rendering of numbers, ages and sizes for logs and listings.
//!
//! Everything here is pure computation with an exact contract; the clock
//! reading that the age formatter needs is handed in by the caller.

use vstd::prelude::*;

verus! {

/// The character for one decimal digit.
pub open spec fn digit_char(d: nat) -> char {
    if d == 0 {
        '0'
    } else if d == 1 {
        '1'
    } else if d == 2 {
        '2'
    } else if d == 3 {
        '3'
    } else if d == 4 {
        '4'
    } else if d == 5 {
        '5'
    } else if d == 6 {
        '6'
    } else if d == 7 {
        '7'
    } else if d == 8 {
        '8'
    } else {
        '9'
    }
}

/// The decimal digits of `n`, most significant first.
pub open spec fn dec_digits(n: nat) -> Seq<char>
    decreases n,
{
    if n < 10 {
        seq![digit_char(n)]
    } else {
        dec_digits(n / 10).push(digit_char(n % 10))
    }
}

/// The single-character string for one decimal digit.
fn digit_str(d: u64) -> (r: &'static str)
    requires
        d < 10,
    ensures
        r@ == seq![digit_char(d as nat)],
{
    let r: &'static str = if d == 0 {
        "0"
    } else if d == 1 {
        "1"
    } else if d == 2 {
        "2"
    } else if d == 3 {
        "3"
    } else if d == 4 {
        "4"
    } else if d == 5 {
        "5"
    } else if d == 6 {
        "6"
    } else if d == 7 {
        "7"
    } else if d == 8 {
        "8"
    } else {
        "9"
    };
    proof {
        reveal_strlit("0");
        reveal_strlit("1");
        reveal_strlit("2");
        reveal_strlit("3");
        reveal_strlit("4");
        reveal_strlit("5");
        reveal_strlit("6");
        reveal_strlit("7");
        reveal_strlit("8");
        reveal_strlit("9");
        assert(r@ =~= seq![digit_char(d as nat)]);
    }
    r
}

/// Render `n` in decimal.
pub fn u64_to_string(n: u64) -> (r: String)
    ensures
        r@ == dec_digits(n as nat),
    decreases n,
{
    if n < 10 {
        digit_str(n).to_owned()
    } else {
        let mut r = u64_to_string(n / 10);
        r.append(digit_str(n % 10));
        proof {
            assert(r@ =~= dec_digits(n as nat));
        }
        r
    }
}

/// How `format_time_relative_to_now` words a moment `seconds_past_epoch`
/// seen from `now`: the difference, in the largest fitting unit of
/// seconds, minutes, hours or days, with `ago` appended when the moment
/// lies in the past.
pub open spec fn rel_time_model(seconds_past_epoch: i64, now: u64) -> Seq<char> {
    let diff = seconds_past_epoch - now;
    if diff < 0 {
        let d = -diff;
        if d < 60 {
            dec_digits(d as nat) + " seconds ago"@
        } else if d < 3600 {
            dec_digits((d / 60) as nat) + " minutes ago"@
        } else if d < 86400 {
            dec_digits((d / 3600) as nat) + " hours ago"@
        } else {
            dec_digits((d / 86400) as nat) + " days ago"@
        }
    } else {
        if diff < 60 {
            dec_digits(diff as nat) + " seconds"@
        } else if diff < 3600 {
            dec_digits((diff / 60) as nat) + " minutes"@
        } else if diff < 86400 {
            dec_digits((diff / 3600) as nat) + " hours"@
        } else {
            dec_digits((diff / 86400) as nat) + " days"@
        }
    }
}

/// Word a moment relative to `now` (both in epoch seconds): `10 seconds
/// ago`, `2 hours`, and so on, in the largest unit that fits.
pub fn format_time_relative_to_now(seconds_past_epoch: i64, now: u64) -> (r: String)
    requires
        now <= i64::MAX as u64,
    ensures
        r@ == rel_time_model(seconds_past_epoch, now),
{
    let diff: i128 = seconds_past_epoch as i128 - now as i128;
    if diff < 0 {
        let d: u64 = (-diff) as u64;
        let (value, suffix): (u64, &'static str) = if d < 60 {
            (d, " seconds ago")
        } else if d < 3600 {
            (d / 60, " minutes ago")
        } else if d < 86400 {
            (d / 3600, " hours ago")
        } else {
            (d / 86400, " days ago")
        };
        let mut r = u64_to_string(value);
        r.append(suffix);
        r
    } else {
        let d: u64 = diff as u64;
        let (value, suffix): (u64, &'static str) = if d < 60 {
            (d, " seconds")
        } else if d < 3600 {
            (d / 60, " minutes")
        } else if d < 86400 {
            (d / 3600, " hours")
        } else {
            (d / 86400, " days")
        };
        let mut r = u64_to_string(value);
        r.append(suffix);
        r
    }
}

/// How many times a byte count is scaled down by 1024 before display:
/// once for each full power of 1024 it exceeds, at most five times.
pub open spec fn size_scale(mag: int) -> nat {
    if mag > 1125899906842624 {
        5
    } else if mag > 1099511627776 {
        4
    } else if mag > 1073741824 {
        3
    } else if mag > 1048576 {
        2
    } else if mag > 1024 {
        1
    } else {
        0
    }
}

/// The divisor that belongs to a scale step.
pub open spec fn scale_divisor(k: nat) -> int {
    if k == 5 {
        1125899906842624
    } else if k == 4 {
        1099511627776
    } else if k == 3 {
        1073741824
    } else if k == 2 {
        1048576
    } else if k == 1 {
        1024
    } else {
        1
    }
}

/// The unit that belongs to a scale step.
pub open spec fn scale_unit(k: nat) -> Seq<char> {
    if k == 5 {
        "PB"@
    } else if k == 4 {
        "TB"@
    } else if k == 3 {
        "GB"@
    } else if k == 2 {
        "MB"@
    } else if k == 1 {
        "KB"@
    } else {
        "B"@
    }
}

/// A non-negative byte count in hundredths of its display unit, rounded
/// half-up.
pub open spec fn size_hundredths(mag: int) -> int {
    let den = scale_divisor(size_scale(mag));
    (mag * 100 + den / 2) / den
}

/// The hundredths value of a byte count in range fits a machine word.
proof fn lemma_hundredths_fits(mag: int)
    requires
        0 <= mag <= u64::MAX as int,
    ensures
        0 <= size_hundredths(mag) <= u64::MAX as int,
{
}

/// How `format_bytes_to_readable_string` words a byte count: the count
/// scaled into the largest unit it exceeds, with two decimal places and
/// the unit appended, and a leading minus for a negative count.
pub open spec fn readable_size_model(bytes: i64) -> Seq<char> {
    let sign: Seq<char> = if bytes < 0 {
        seq!['-']
    } else {
        Seq::empty()
    };
    let mag = if bytes < 0 {
        -(bytes as int)
    } else {
        bytes as int
    };
    let scaled = size_hundredths(mag);
    sign + dec_digits((scaled / 100) as nat) + seq!['.'] + seq![
        digit_char(((scaled / 10) % 10) as nat),
        digit_char((scaled % 10) as nat),
    ] + seq![' '] + scale_unit(size_scale(mag))
}

/// Word a byte count for people: `512.00 B`, `1.50 KB`, `2.35 GB`, with
/// two decimal places and the largest unit the count exceeds.
pub fn format_bytes_to_readable_string(bytes: i64) -> (r: String)
    ensures
        r@ == readable_size_model(bytes),
{
    let mag: u64 = if bytes < 0 {
        (-(bytes as i128)) as u64
    } else {
        bytes as u64
    };
    let (den, unit): (u64, &'static str) = if mag > 1125899906842624 {
        (1125899906842624, "PB")
    } else if mag > 1099511627776 {
        (1099511627776, "TB")
    } else if mag > 1073741824 {
        (1073741824, "GB")
    } else if mag > 1048576 {
        (1048576, "MB")
    } else if mag > 1024 {
        (1024, "KB")
    } else {
        (1, "B")
    };
    let scaled_wide: u128 = (mag as u128 * 100 + den as u128 / 2) / den as u128;
    proof {
        assert(den as int == scale_divisor(size_scale(mag as int)));
        lemma_hundredths_fits(mag as int);
        assert(scaled_wide as int == size_hundredths(mag as int));
    }
    let scaled: u64 = scaled_wide as u64;
    let mut r = if bytes < 0 {
        let mut r = String::from_str("-");
        proof {
            reveal_strlit("-");
        }
        r.append(u64_to_string(scaled / 100).as_str());
        r
    } else {
        u64_to_string(scaled / 100)
    };
    r.append(".");
    r.append(digit_str((scaled / 10) % 10));
    r.append(digit_str(scaled % 10));
    r.append(" ");
    r.append(unit);
    proof {
        reveal_strlit(".");
        reveal_strlit(" ");
        assert(r@ =~= readable_size_model(bytes));
    }
    r
}

} // verus!
