use vstd::prelude::*;
use vstd::string::StringExecFns;

verus! {

/// Bytes in a gigabyte, in binary units.
pub const BYTES_PER_GB: u64 = 1073741824;

pub open spec fn digit_char(d: nat) -> char {
    if d == 0 {
        '0'
    } else if d == 1 {
        '1'
    } else if d == 2 {
        '2'
    } else if d == 3 {
        '3'
    } else if d == 4 {
        '4'
    } else if d == 5 {
        '5'
    } else if d == 6 {
        '6'
    } else if d == 7 {
        '7'
    } else if d == 8 {
        '8'
    } else {
        '9'
    }
}

/// The decimal digits of `n`, without leading zeros.
pub open spec fn dec_text(n: nat) -> Seq<char>
    decreases n,
{
    if n < 10 {
        seq![digit_char(n)]
    } else {
        dec_text(n / 10).push(digit_char(n % 10))
    }
}

fn digit_str(d: u64) -> (r: &'static str)
    requires
        d < 10,
    ensures
        r@ == seq![digit_char(d as nat)],
{
    proof {
        reveal_strlit("0");
        reveal_strlit("1");
        reveal_strlit("2");
        reveal_strlit("3");
        reveal_strlit("4");
        reveal_strlit("5");
        reveal_strlit("6");
        reveal_strlit("7");
        reveal_strlit("8");
        reveal_strlit("9");
    }
    match d {
        0 => "0",
        1 => "1",
        2 => "2",
        3 => "3",
        4 => "4",
        5 => "5",
        6 => "6",
        7 => "7",
        8 => "8",
        _ => "9",
    }
}

/// `n` written in decimal.
pub fn decimal(n: u64) -> (r: String)
    ensures
        r@ == dec_text(n as nat),
    decreases n,
{
    if n < 10 {
        String::from_str(digit_str(n))
    } else {
        let mut s = decimal(n / 10);
        s.append(digit_str(n % 10));
        s
    }
}

/// `bytes` in gigabytes, in hundredths, rounded to the nearest and a tie to the even one.
pub open spec fn gb_hundredths(bytes: nat) -> nat {
    let q = bytes * 100 / (BYTES_PER_GB as nat);
    let r = bytes * 100 % (BYTES_PER_GB as nat);
    if 2 * r > BYTES_PER_GB || (2 * r == BYTES_PER_GB && q % 2 == 1) {
        q + 1
    } else {
        q
    }
}

/// A number of hundredths written with two decimals, as `12.34`.
pub open spec fn two_decimals(h: nat) -> Seq<char> {
    dec_text(h / 100) + seq!['.', digit_char((h / 10) % 10), digit_char(h % 10)]
}

/// The gigabyte figure shown for a size in bytes, as `2.00`: one divisor for memory, swap
/// and disk alike.
pub open spec fn gb_text_spec(bytes: nat) -> Seq<char> {
    two_decimals(gb_hundredths(bytes))
}

/// A size in bytes shown in gigabytes with two decimals.
pub fn gb_text(bytes: u64) -> (r: String)
    ensures
        r@ == gb_text_spec(bytes as nat),
{
    let wide = bytes as u128 * 100;
    let q = wide / (BYTES_PER_GB as u128);
    let rem = wide % (BYTES_PER_GB as u128);
    assert(q <= u64::MAX as u128 / 10) by {
        assert(wide <= u64::MAX as u128 * 100);
    }
    let h: u64 = if 2 * rem > BYTES_PER_GB as u128 || (2 * rem == BYTES_PER_GB as u128 && q % 2
        == 1) {
        (q + 1) as u64
    } else {
        q as u64
    };
    assert(h as nat == gb_hundredths(bytes as nat));
    let mut s = decimal(h / 100);
    proof {
        reveal_strlit(".");
    }
    s.append(".");
    s.append(digit_str((h / 10) % 10));
    s.append(digit_str(h % 10));
    assert(s@ =~= two_decimals(h as nat));
    s
}

/// The uptime text for a number of seconds: whole days, hours and minutes.
pub open spec fn uptime_text_spec(secs: nat) -> Seq<char> {
    dec_text(secs / 86400) + " Days "@ + dec_text((secs % 86400) / 3600) + " Hours "@
        + dec_text((secs % 3600) / 60) + " Minutes"@
}

/// Shows an uptime as `D Days H Hours M Minutes`; seconds are not shown.
pub fn uptime_text(secs: u64) -> (r: String)
    ensures
        r@ == uptime_text_spec(secs as nat),
{
    proof {
        reveal_strlit(" Days ");
        reveal_strlit(" Hours ");
        reveal_strlit(" Minutes");
    }
    let mut s = decimal(secs / 86400);
    s.append(" Days ");
    let h = decimal((secs % 86400) / 3600);
    s.append(h.as_str());
    s.append(" Hours ");
    let m = decimal((secs % 3600) / 60);
    s.append(m.as_str());
    s.append(" Minutes");
    s
}

} // verus!
