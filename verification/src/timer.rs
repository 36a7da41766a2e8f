use vstd::prelude::*;

use crate::calc::{digit_val, is_digit};
use crate::format::digits_of;
use crate::strings::{
    chars_to_string, find_char_from, lower_seq, to_chars, to_lower_chars, trim_chars, trimmed,
};

verus! {

/// One more than the largest second count that fits; the sticky overflow
/// marker of the capped accumulators.
pub open spec fn dur_cap() -> nat {
    18446744073709551616
}

/// Capped digit accumulation over `s[i..j]`, sticky at the cap.
pub open spec fn cap_accum(s: Seq<char>, i: nat, j: nat) -> nat
    decreases j - i,
{
    if j <= i {
        0
    } else {
        let p = cap_accum(s, i, (j - 1) as nat);
        let d = digit_val(s[j - 1]);
        if p * 10 + d >= dur_cap() {
            dur_cap()
        } else {
            p * 10 + d
        }
    }
}

/// A colon-free clock part: all digits, non-empty, in range.
pub open spec fn num_part(s: Seq<char>, i: nat, j: nat) -> Option<nat> {
    if i < j && j <= s.len() && (forall|k: int| i <= k < j ==> is_digit(s[k])) && cap_accum(
        s,
        i,
        j,
    ) < dur_cap() {
        Some(cap_accum(s, i, j))
    } else {
        None
    }
}

/// The unit-suffix scan: digits accumulate, `h`/`m`/`s` close a number
/// into the total, a colon stops the scan, anything else after digits
/// fails, and anything else between numbers is skipped.
pub open spec fn dur_scan(s: Seq<char>, i: nat, total: nat, numv: nat, numlen: nat) -> Option<
    (nat, nat, nat),
>
    decreases s.len() - i,
{
    if total >= dur_cap() {
        None
    } else if i >= s.len() {
        Some((total, numv, numlen))
    } else if is_digit(s[i as int]) {
        let nv = if numv * 10 + digit_val(s[i as int]) >= dur_cap() {
            dur_cap()
        } else {
            numv * 10 + digit_val(s[i as int])
        };
        dur_scan(s, i + 1, total, nv, numlen + 1)
    } else if numlen == 0 {
        dur_scan(s, i + 1, total, 0, 0)
    } else if s[i as int] == 'h' {
        if numv >= dur_cap() || total + numv * 3600 >= dur_cap() {
            None
        } else {
            dur_scan(s, i + 1, total + numv * 3600, 0, 0)
        }
    } else if s[i as int] == 'm' {
        if numv >= dur_cap() || total + numv * 60 >= dur_cap() {
            None
        } else {
            dur_scan(s, i + 1, total + numv * 60, 0, 0)
        }
    } else if s[i as int] == 's' {
        if numv >= dur_cap() || total + numv >= dur_cap() {
            None
        } else {
            dur_scan(s, i + 1, total + numv, 0, 0)
        }
    } else if s[i as int] == ':' {
        Some((total, numv, numlen))
    } else {
        None
    }
}

/// The clock reading of a colon query: minutes and seconds, or hours,
/// minutes and seconds.
pub open spec fn colon_value(s: Seq<char>) -> Option<nat> {
    let p1 = find_char_from(s, ':', 0);
    if p1 >= s.len() {
        None
    } else {
        let p2 = find_char_from(s, ':', p1 + 1);
        if p2 >= s.len() {
            match (num_part(s, 0, p1), num_part(s, p1 + 1, s.len())) {
                (Some(m), Some(sec)) => Some(m * 60 + sec),
                _ => None,
            }
        } else {
            let p3 = find_char_from(s, ':', p2 + 1);
            if p3 < s.len() {
                None
            } else {
                match (num_part(s, 0, p1), num_part(s, p1 + 1, p2), num_part(
                    s,
                    p2 + 1,
                    s.len(),
                )) {
                    (Some(h), Some(m), Some(sec)) => Some(h * 3600 + m * 60 + sec),
                    _ => None,
                }
            }
        }
    }
}

/// The seconds a duration query names: unit-suffixed numbers, a clock
/// reading, or a bare number of minutes; zero means no duration.
pub open spec fn spec_parse_duration(input: Seq<char>) -> Option<u64> {
    let t = lower_seq(trimmed(input));
    if t.len() == 0 {
        None
    } else {
        match dur_scan(t, 0, 0, 0, 0) {
            None => None,
            Some((total0, numv, numlen)) => {
                let total = if numlen > 0 && total0 == 0 {
                    if find_char_from(t, ':', 0) < t.len() {
                        colon_value(t)
                    } else if numv < dur_cap() && numv * 60 < dur_cap() {
                        Some(numv * 60)
                    } else {
                        None
                    }
                } else {
                    Some(total0)
                };
                match total {
                    None => None,
                    Some(v) => if 0 < v < dur_cap() {
                        Some(v as u64)
                    } else {
                        None
                    },
                }
            },
        }
    }
}

/// Two-digit zero padding (longer values print whole).
pub open spec fn pad2(n: nat) -> Seq<char> {
    if n < 10 {
        seq!['0'] + digits_of(n)
    } else {
        digits_of(n)
    }
}

/// A duration rendered as a clock: minutes and seconds, with hours in
/// front when there are any.
pub open spec fn spec_format_duration(secs: nat) -> Seq<char> {
    let h = secs / 3600;
    let m = (secs % 3600) / 60;
    let sec = secs % 60;
    if h > 0 {
        pad2(h) + seq![':'] + pad2(m) + seq![':'] + pad2(sec)
    } else {
        pad2(m) + seq![':'] + pad2(sec)
    }
}

fn num_part_exec(s: &Vec<char>, i: usize, j: usize) -> (r: Option<u64>)
    requires
        i <= j <= s@.len(),
    ensures
        match r {
            Some(v) => num_part(s@, i as nat, j as nat) == Some(v as nat),
            None => num_part(s@, i as nat, j as nat) is None,
        },
{
    if i >= j {
        return None;
    }
    let mut acc: u128 = 0;
    let mut k: usize = i;
    while k < j
        invariant
            i <= k <= j <= s@.len(),
            acc as nat == cap_accum(s@, i as nat, k as nat),
            acc <= dur_cap(),
            forall|t: int| i <= t < k ==> is_digit(s@[t]),
        decreases j - k,
    {
        let c = s[k];
        if !('0' <= c && c <= '9') {
            proof {
                assert(!(forall|t: int| i <= t < j ==> is_digit(s@[t])));
            }
            return None;
        }
        let d: u128 = ((c as u32) - 48) as u128;
        let t: u128 = acc * 10 + d;
        if t >= 0x1_0000_0000_0000_0000 {
            acc = 0x1_0000_0000_0000_0000;
        } else {
            acc = t;
        }
        k = k + 1;
    }
    if acc < 0x1_0000_0000_0000_0000 {
        Some(acc as u64)
    } else {
        None
    }
}

/// Reads a duration query: `5m`, `10m30s`, `1h`, `90s`, `1:30`,
/// `01:30:00`, or a bare number of minutes.
pub fn parse_duration(input: &str) -> (r: Option<u64>)
    ensures
        r == spec_parse_duration(input@),
{
    let raw = to_chars(input);
    let tr = trim_chars(&raw);
    let t = to_lower_chars(&tr);
    let n: usize = t.len();
    if n == 0 {
        return None;
    }
    let mut total: u128 = 0;
    let mut numv: u128 = 0;
    let mut numlen: usize = 0;
    let mut i: usize = 0;
    let mut stopped = false;
    while i < n && !stopped
        invariant
            i <= n,
            n == t@.len(),
            t@ == lower_seq(trimmed(input@)),
            total < dur_cap(),
            numv <= dur_cap(),
            numlen <= i,
            !stopped ==> dur_scan(t@, 0, 0, 0, 0) == dur_scan(
                t@,
                i as nat,
                total as nat,
                numv as nat,
                numlen as nat,
            ),
            stopped ==> dur_scan(t@, 0, 0, 0, 0) == Some(
                (total as nat, numv as nat, numlen as nat),
            ),
            numlen == 0 ==> numv == 0,
        decreases n - i, (if stopped { 0int } else { 1int }),
    {
        let c = t[i];
        if '0' <= c && c <= '9' {
            let d: u128 = ((c as u32) - 48) as u128;
            let nv: u128 = numv * 10 + d;
            if nv >= 0x1_0000_0000_0000_0000 {
                numv = 0x1_0000_0000_0000_0000;
            } else {
                numv = nv;
            }
            numlen = numlen + 1;
        } else if numlen == 0 {
        } else if c == 'h' {
            if numv >= 0x1_0000_0000_0000_0000 || total + numv * 3600
                >= 0x1_0000_0000_0000_0000 {
                return None;
            }
            total = total + numv * 3600;
            numv = 0;
            numlen = 0;
        } else if c == 'm' {
            if numv >= 0x1_0000_0000_0000_0000 || total + numv * 60 >= 0x1_0000_0000_0000_0000 {
                return None;
            }
            total = total + numv * 60;
            numv = 0;
            numlen = 0;
        } else if c == 's' {
            if numv >= 0x1_0000_0000_0000_0000 || total + numv >= 0x1_0000_0000_0000_0000 {
                return None;
            }
            total = total + numv;
            numv = 0;
            numlen = 0;
        } else if c == ':' {
            stopped = true;
        } else {
            return None;
        }
        if !stopped {
            i = i + 1;
        }
    }
    let final_total: Option<u128> = if numlen > 0 && total == 0 {
        let p1 = crate::strings::find_char_idx(&t, ':', 0);
        if p1 < n {
            let p2 = crate::strings::find_char_idx(&t, ':', p1 + 1);
            if p2 >= n {
                match (num_part_exec(&t, 0, p1), num_part_exec(&t, p1 + 1, n)) {
                    (Some(m), Some(sec)) => Some((m as u128) * 60 + (sec as u128)),
                    _ => None,
                }
            } else {
                let p3 = crate::strings::find_char_idx(&t, ':', p2 + 1);
                if p3 < n {
                    None
                } else {
                    match (
                        num_part_exec(&t, 0, p1),
                        num_part_exec(&t, p1 + 1, p2),
                        num_part_exec(&t, p2 + 1, n),
                    ) {
                        (Some(h), Some(m), Some(sec)) => Some(
                            (h as u128) * 3600 + (m as u128) * 60 + (sec as u128),
                        ),
                        _ => None,
                    }
                }
            }
        } else {
            if numv < 0x1_0000_0000_0000_0000 && numv * 60 < 0x1_0000_0000_0000_0000 {
                Some(numv * 60)
            } else {
                None
            }
        }
    } else {
        Some(total)
    };
    match final_total {
        None => None,
        Some(v) => if 0 < v && v < 0x1_0000_0000_0000_0000 {
            Some(v as u64)
        } else {
            None
        },
    }
}

fn push_pad2(out: &mut Vec<char>, n: u64)
    ensures
        final(out)@ == old(out)@ + pad2(n as nat),
{
    if n < 10 {
        out.push('0');
    }
    crate::format::push_digits_u64(out, n);
    proof {
        assert(final(out)@ =~= old(out)@ + pad2(n as nat));
    }
}

/// Renders seconds as a clock reading.
pub fn format_duration(secs: u64) -> (r: String)
    ensures
        r@ == spec_format_duration(secs as nat),
{
    let h: u64 = secs / 3600;
    let m: u64 = (secs % 3600) / 60;
    let s: u64 = secs % 60;
    let mut out: Vec<char> = Vec::new();
    if h > 0 {
        push_pad2(&mut out, h);
        out.push(':');
    }
    push_pad2(&mut out, m);
    out.push(':');
    push_pad2(&mut out, s);
    proof {
        assert(out@ =~= spec_format_duration(secs as nat));
    }
    chars_to_string(&out)
}

} // verus!
