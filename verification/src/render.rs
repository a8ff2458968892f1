//! Human-readable rendering of ETAs and transfer rates, in integer
//! arithmetic: tenths are computed exactly and rounded toward zero.

use vstd::prelude::*;

use crate::text::{append_dec, dec_string, push_char, spec_dec};

verus! {

/// The display form of an ETA: `0` means the rate is still unknown.
pub open spec fn spec_format_eta(seconds: u64) -> Seq<char> {
    if seconds == 0 {
        "calculating..."@
    } else {
        let h = seconds / 3600;
        let m = (seconds % 3600) / 60;
        let s = seconds % 60;
        if h > 0 {
            spec_dec(h as nat) + "h "@ + spec_dec(m as nat) + "m "@ + spec_dec(s as nat) + "s"@
        } else if m > 0 {
            spec_dec(m as nat) + "m "@ + spec_dec(s as nat) + "s"@
        } else {
            spec_dec(s as nat) + "s"@
        }
    }
}

/// Format an ETA in whole seconds for display.
pub fn format_eta(seconds: u64) -> (r: String)
    ensures
        r@ == spec_format_eta(seconds),
{
    if seconds == 0 {
        return String::from_str("calculating...");
    }
    let hours = seconds / 3600;
    let minutes = (seconds % 3600) / 60;
    let secs = seconds % 60;
    let mut r = String::new();
    if hours > 0 {
        append_dec(&mut r, hours);
        r.append("h ");
        append_dec(&mut r, minutes);
        r.append("m ");
        append_dec(&mut r, secs);
        r.append("s");
        proof {
            assert(r@ =~= spec_format_eta(seconds));
        }
    } else if minutes > 0 {
        append_dec(&mut r, minutes);
        r.append("m ");
        append_dec(&mut r, secs);
        r.append("s");
        proof {
            assert(r@ =~= spec_format_eta(seconds));
        }
    } else {
        append_dec(&mut r, secs);
        r.append("s");
        proof {
            assert(r@ =~= spec_format_eta(seconds));
        }
    }
    r
}

/// The display form of a transfer rate, with one decimal place: megabytes
/// per second from one binary megabyte up, kilobytes per second below.
pub open spec fn spec_format_speed(bytes_per_sec: u64) -> Seq<char> {
    if bytes_per_sec >= 1048576 {
        let t = (bytes_per_sec as nat) * 10 / 1048576;
        spec_dec(t / 10) + seq!['.'] + spec_dec(t % 10) + " MB/s"@
    } else {
        let t = (bytes_per_sec as nat) * 10 / 1024;
        spec_dec(t / 10) + seq!['.'] + spec_dec(t % 10) + " KB/s"@
    }
}

/// Format a transfer rate in bytes per second for display.
pub fn format_speed(bytes_per_sec: u64) -> (r: String)
    ensures
        r@ == spec_format_speed(bytes_per_sec),
{
    let divisor: u64 = if bytes_per_sec >= 1048576 {
        1048576
    } else {
        1024
    };
    proof {
        assert((bytes_per_sec as int) * 10 / (divisor as int) <= u64::MAX) by (nonlinear_arith)
            requires
                bytes_per_sec <= u64::MAX,
                divisor == 1048576 || divisor == 1024,
        ;
        assert((bytes_per_sec as int) * 10 / (divisor as int) >= 0) by (nonlinear_arith)
            requires
                bytes_per_sec >= 0,
                divisor >= 1,
        ;
    }
    let t: u64 = ((bytes_per_sec as u128 * 10) / (divisor as u128)) as u64;
    let mut r = dec_string(t / 10);
    push_char(&mut r, '.');
    append_dec(&mut r, t % 10);
    if bytes_per_sec >= 1048576 {
        r.append(" MB/s");
    } else {
        r.append(" KB/s");
    }
    proof {
        assert(r@ =~= spec_format_speed(bytes_per_sec));
    }
    r
}

} // verus!
