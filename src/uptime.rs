use vstd::prelude::*;
use crate::packages::{output_text, ProbeOutput};
use crate::text::{char_vec, find_pattern, occurs_at};

verus! {

/// The largest uptime believed: ten years of 365 days, in seconds.
pub const MAX_UPTIME_SECS: u64 = 315360000;

/// An uptime that a source may report: positive and at most ten years.
pub open spec fn plausible(s: int) -> bool {
    0 < s && s <= MAX_UPTIME_SECS
}

/// The key before the boot time's seconds in the kernel's boot-time record.
pub open spec fn sec_key() -> Seq<char> {
    "sec = "@
}

pub open spec fn is_digit(c: char) -> bool {
    '0' <= c && c <= '9'
}

/// The value of a run of decimal digits.
pub open spec fn digits_value(d: Seq<char>) -> nat
    decreases d.len(),
{
    if d.len() == 0 {
        0
    } else {
        10 * digits_value(d.drop_last()) + (d.last() as nat - '0' as nat) as nat
    }
}

/// How many decimal digits stand in `s` from position `i` on.
pub open spec fn digit_run(s: Seq<char>, i: int) -> nat
    decreases s.len() - i,
{
    if 0 <= i < s.len() && is_digit(s[i]) {
        1 + digit_run(s, i + 1)
    } else {
        0
    }
}

pub open spec fn first_key_at(s: Seq<char>, k: int) -> bool {
    occurs_at(s, sec_key(), k) && forall|j: int| 0 <= j < k ==> !occurs_at(s, sec_key(), j)
}

/// The boot time in a record such as `{ sec = 1234567890, usec = 0 }`: the digits after
/// the first `sec = `, when there are some and they fit in 64 bits.
pub open spec fn boottime_spec(s: Seq<char>) -> Option<u64> {
    if exists|k: int| first_key_at(s, k) {
        let k = choose|k: int| first_key_at(s, k);
        let start = k + sec_key().len();
        let n = digit_run(s, start);
        let v = digits_value(s.subrange(start, start + n));
        if n > 0 && v <= u64::MAX {
            Some(v as u64)
        } else {
            None
        }
    } else {
        None
    }
}

/// The uptime derived from a boot-time record and the time now, when it is plausible.
pub open spec fn sysctl_uptime_spec(s: Seq<char>, now: u64) -> Option<u64> {
    match boottime_spec(s) {
        Some(boot) => if plausible(now - boot) {
            Some((now - boot) as u64)
        } else {
            None
        },
        None => None,
    }
}

pub open spec fn sat_sub(a: u64, b: u64) -> u64 {
    if a >= b {
        (a - b) as u64
    } else {
        0
    }
}

/// The last source: the time since boot, or the facility's own uptime where that is
/// zero or too large.
pub open spec fn generic_uptime_spec(now: u64, boot_time: u64, own_uptime: u64) -> Option<u64> {
    let s = sat_sub(now, boot_time);
    let s = if s == 0 || s > MAX_UPTIME_SECS {
        own_uptime
    } else {
        s
    };
    if plausible(s as int) {
        Some(s)
    } else {
        None
    }
}

/// The first plausible uptime of the chain: the native reading, then the boot-time record,
/// then the generic boot time.
pub open spec fn uptime_spec(
    native: Option<u64>,
    boottime: Option<Seq<char>>,
    now: Option<u64>,
    boot_time: u64,
    own_uptime: u64,
) -> Option<u64> {
    match native {
        Some(s) if plausible(s as int) => Some(s),
        _ => {
            let second = match (boottime, now) {
                (Some(t), Some(n)) => sysctl_uptime_spec(t, n),
                _ => None,
            };
            match second {
                Some(s) => Some(s),
                None => generic_uptime_spec(
                    match now {
                        Some(n) => n,
                        None => 0,
                    },
                    boot_time,
                    own_uptime,
                ),
            }
        },
    }
}

proof fn lemma_digits_value_push(d: Seq<char>, c: char)
    ensures
        digits_value(d.push(c)) == 10 * digits_value(d) + (c as nat - '0' as nat) as nat,
{
    assert(d.push(c).drop_last() =~= d);
}

proof fn lemma_digit_run(s: Seq<char>, i: int, e: int)
    requires
        0 <= i <= e <= s.len(),
        forall|m: int| i <= m < e ==> is_digit(s[m]),
        e == s.len() || !is_digit(s[e]),
    ensures
        digit_run(s, i) == e - i,
    decreases e - i,
{
    if i < e {
        lemma_digit_run(s, i + 1, e);
    }
}

/// The boot time, in seconds since the epoch, read from a kernel boot-time record.
pub fn parse_boottime(text: &str) -> (r: Option<u64>)
    ensures
        r == boottime_spec(text@),
{
    let cs = char_vec(text);
    let key = char_vec("sec = ");
    proof {
        reveal_strlit("sec = ");
    }
    let k = match find_pattern(&cs, &key) {
        Some(k) => k,
        None => {
            assert(!exists|k: int| first_key_at(text@, k));
            return None;
        },
    };
    assert(first_key_at(text@, k as int));
    assert forall|k2: int| first_key_at(text@, k2) implies k2 == k by {
        if k2 > k {
            assert(!occurs_at(text@, sec_key(), k as int));
        }
    }
    let klen: usize = key.len();
    assert(k + klen <= cs.len());
    let start = k + klen;
    let mut e = start;
    let mut v: u64 = 0;
    let mut over = false;
    while e < cs.len() && '0' <= cs[e] && cs[e] <= '9'
        invariant
            start <= e <= cs@.len(),
            cs@ == text@,
            forall|m: int| start <= m < e ==> is_digit(cs@[m]),
            !over ==> v == digits_value(cs@.subrange(start as int, e as int)),
            over ==> digits_value(cs@.subrange(start as int, e as int)) > u64::MAX,
        decreases cs@.len() - e,
    {
        let ghost before = cs@.subrange(start as int, e as int);
        assert(cs@.subrange(start as int, e + 1) =~= before.push(cs@[e as int]));
        proof {
            lemma_digits_value_push(before, cs@[e as int]);
        }
        let d = (cs[e] as u32 - '0' as u32) as u64;
        if !over {
            if v > 1844674407370955161 || (v == 1844674407370955161 && d > 5) {
                over = true;
            } else {
                v = v * 10 + d;
            }
        }
        e += 1;
    }
    proof {
        lemma_digit_run(text@, start as int, e as int);
    }
    if e == start || over {
        None
    } else {
        Some(v)
    }
}

/// The uptime from a kernel boot-time record and the seconds since the epoch now, when it
/// is plausible.
pub fn uptime_from_boottime(text: &str, now: u64) -> (r: Option<u64>)
    ensures
        r == sysctl_uptime_spec(text@, now),
        r matches Some(s) ==> plausible(s as int),
{
    match parse_boottime(text) {
        Some(boot) => if now > boot && now - boot <= MAX_UPTIME_SECS {
            Some(now - boot)
        } else {
            None
        },
        None => None,
    }
}

/// The OS's own uptime reading where it is plausible; the first step of the chain. Where
/// it gives none, the rest of the chain decides as if there had been no reading.
pub fn plausible_uptime(native: Option<u64>) -> (r: Option<u64>)
    ensures
        r == (match native {
            Some(s) if plausible(s as int) => Some(s),
            _ => None,
        }),
        r is None ==> forall|b: Option<Seq<char>>, n: Option<u64>, t: u64, u: u64|
            #[trigger] uptime_spec(native, b, n, t, u) == uptime_spec(None, b, n, t, u),
{
    match native {
        Some(s) if 0 < s && s <= MAX_UPTIME_SECS => Some(s),
        _ => None,
    }
}

/// Resolves the uptime in seconds. `native` is the OS's own uptime reading, `boottime`
/// the kernel boot-time probe's output, `now` the seconds since the epoch (`None` where
/// the clock is before it), `boot_time` and `own_uptime` the generic facility's readings.
/// The first plausible value wins; `None` where no source gave one.
pub fn resolve_uptime(
    native: Option<u64>,
    boottime: &ProbeOutput,
    now: Option<u64>,
    boot_time: u64,
    own_uptime: u64,
) -> (r: Option<u64>)
    ensures
        r == uptime_spec(native, output_text(*boottime), now, boot_time, own_uptime),
        r matches Some(s) ==> plausible(s as int),
{
    if let Some(s) = native {
        if 0 < s && s <= MAX_UPTIME_SECS {
            return Some(s);
        }
    }
    if let (Ok(t), Some(n)) = (boottime, now) {
        if let Some(s) = uptime_from_boottime(t.as_str(), n) {
            return Some(s);
        }
    }
    let n = match now {
        Some(n) => n,
        None => 0,
    };
    let mut s = if n >= boot_time {
        n - boot_time
    } else {
        0
    };
    if s == 0 || s > MAX_UPTIME_SECS {
        s = own_uptime;
    }
    if 0 < s && s <= MAX_UPTIME_SECS {
        Some(s)
    } else {
        None
    }
}

/// Two resolutions from readings that agree give the same uptime, and either is absent or
/// plausible.
pub proof fn lemma_uptime_repeatable(
    native: Option<u64>,
    first: ProbeOutput,
    second: ProbeOutput,
    now: Option<u64>,
    boot_time: u64,
    own_uptime: u64,
)
    requires
        output_text(first) == output_text(second),
    ensures
        uptime_spec(native, output_text(first), now, boot_time, own_uptime) == uptime_spec(
            native,
            output_text(second),
            now,
            boot_time,
            own_uptime,
        ),
        uptime_spec(native, output_text(first), now, boot_time, own_uptime) matches Some(s)
            ==> plausible(s as int),
{
}

} // verus!
