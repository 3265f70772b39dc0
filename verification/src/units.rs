//! Human-readable sizes and durations.
//!
//! Sizes use binary units with one decimal (`1.5 KiB`). The value shown is
//! the byte count as the nearest double, divided by the unit, rounded to
//! one decimal with ties to even: the number `{:.1}` prints for
//! `bytes as f64 / unit`. Both roundings are stated here over integers.

use vstd::prelude::*;
use crate::text::{dec, digit, digit_char, pad2, push_char, push_decimal, push_pad2, push_str};

verus! {

pub const KIB: u64 = 1024;
pub const MIB: u64 = 1048576;
pub const GIB: u64 = 1073741824;
pub const TIB: u64 = 1099511627776;

/// Largest power of two below which every integer is an exact double.
pub const F64_EXACT: u128 = 9007199254740992;

/// `a / b` rounded to the nearest integer, ties to the even neighbour.
pub open spec fn div_round_even(a: nat, b: nat) -> nat {
    let q = a / b;
    let r = a % b;
    if 2 * r > b {
        q + 1
    } else if 2 * r == b && q % 2 == 1 {
        q + 1
    } else {
        q
    }
}

/// `n` rounded to a multiple of `u`, where `u` is the first doubling (from
/// the one given) at which `n` has at most 53 significant binary digits.
pub open spec fn round_at_unit(n: nat, u: nat) -> nat
    decreases n - u,
{
    if u == 0 {
        n
    } else if n < u * 9007199254740992 {
        div_round_even(n, u) * u
    } else {
        round_at_unit(n, 2 * u)
    }
}

/// The value of `n as f64`: `n` rounded to 53 significant bits, ties to even.
pub open spec fn as_double(n: nat) -> nat {
    round_at_unit(n, 1)
}

/// `v / unit` with one decimal, ties to even, followed by `" "` and `suffix`.
pub open spec fn scaled_text(v: nat, unit: nat, suffix: Seq<char>) -> Seq<char> {
    let tenths = div_round_even(10 * v, unit);
    dec(tenths / 10) + seq!['.', digit(tenths % 10), ' '] + suffix
}

/// What `format_bytes` shows for `bytes`.
pub open spec fn bytes_text(bytes: nat) -> Seq<char> {
    let v = as_double(bytes);
    if bytes >= TIB {
        scaled_text(v, TIB as nat, "TiB"@)
    } else if bytes >= GIB {
        scaled_text(v, GIB as nat, "GiB"@)
    } else if bytes >= MIB {
        scaled_text(v, MIB as nat, "MiB"@)
    } else if bytes >= KIB {
        scaled_text(v, KIB as nat, "KiB"@)
    } else {
        dec(bytes) + " B"@
    }
}

proof fn lemma_exact_below_2_53(n: nat, u: nat)
    requires
        u == 1,
        n < 9007199254740992,
    ensures
        round_at_unit(n, u) == n,
{
}

/// Below 2^53 a byte count is its own double.
pub proof fn lemma_as_double_exact(n: nat)
    requires
        n < 9007199254740992,
    ensures
        as_double(n) == n,
{
    lemma_exact_below_2_53(n, 1);
}

fn div_round_even_exec(a: u128, b: u128) -> (r: u128)
    requires
        b > 0,
        a < 0x1_0000_0000_0000_0000_0000_0000_0000,
    ensures
        r == div_round_even(a as nat, b as nat),
{
    let q = a / b;
    let rem = a % b;
    if rem > b - rem {
        q + 1
    } else if rem == b - rem && q % 2 == 1 {
        q + 1
    } else {
        q
    }
}

/// `n as f64`, as an exact integer.
fn nearest_double(n: u64) -> (r: u128)
    ensures
        r == as_double(n as nat),
        r <= 0x1_0000_0000_0000_1000,
{
    let mut u: u128 = 1;
    while (n as u128) >= u * 9007199254740992
        invariant
            1 <= u <= 4096,
            round_at_unit(n as nat, u as nat) == as_double(n as nat),
        decreases n - u,
    {
        u = u * 2;
    }
    let q = div_round_even_exec(n as u128, u);
    assert(q <= (n as int) / (u as int) + 1);
    assert(q * u <= (n as int) + u) by (nonlinear_arith)
        requires
            q <= (n as int) / (u as int) + 1,
            u > 0,
            n >= 0,
    ;
    q * u
}

/// Appends `v / unit` with one decimal, a space and `suffix`.
fn push_scaled(s: &mut String, v: u128, unit: u64, suffix: &str)
    requires
        unit >= 1024,
        v <= 0x1_0000_0000_0000_1000,
    ensures
        final(s)@ == old(s)@ + scaled_text(v as nat, unit as nat, suffix@),
{
    let tenths = div_round_even_exec(10 * v, unit as u128);
    assert(tenths <= (10 * v as int) / (unit as int) + 1);
    assert((10 * v as int) / (unit as int) <= (10 * v as int) / 1024) by (nonlinear_arith)
        requires
            unit >= 1024,
            v >= 0,
    ;
    let whole = (tenths / 10) as u64;
    push_decimal(s, whole);
    push_char(s, '.');
    push_char(s, digit_char((tenths % 10) as u64));
    push_char(s, ' ');
    push_str(s, suffix);
    proof {
        let t = div_round_even(10 * v as nat, unit as nat);
        assert(s@ =~= old(s)@ + dec(t / 10) + seq!['.', digit(t % 10), ' '] + suffix@);
    }
}

/// Binary-unit rendering of a byte count: `512 B`, `1.5 KiB`, `1.0 TiB`.
pub fn format_bytes(bytes: u64) -> (r: String)
    ensures
        r@ == bytes_text(bytes as nat),
{
    let v = nearest_double(bytes);
    let mut s = String::new();
    if bytes >= TIB {
        push_scaled(&mut s, v, TIB, "TiB");
    } else if bytes >= GIB {
        push_scaled(&mut s, v, GIB, "GiB");
    } else if bytes >= MIB {
        push_scaled(&mut s, v, MIB, "MiB");
    } else if bytes >= KIB {
        push_scaled(&mut s, v, KIB, "KiB");
    } else {
        push_decimal(&mut s, bytes);
        push_str(&mut s, " B");
    }
    s
}

/// What `format_eta` shows for a duration of `secs` seconds.
pub open spec fn eta_text(secs: nat) -> Seq<char> {
    if secs < 60 {
        dec(secs) + "s"@
    } else if secs < 3600 {
        dec(secs / 60) + "m"@ + pad2(secs % 60) + "s"@
    } else if secs < 86400 {
        dec(secs / 3600) + "h"@ + pad2((secs % 3600) / 60) + "m"@
    } else {
        dec(secs / 86400) + "d "@ + dec((secs % 86400) / 3600) + "h"@
    }
}

/// Remaining time with explicit unit letters: `45s`, `2m33s`, `1h02m`,
/// `2d 5h`. Never colon-separated, so `HH:MM` cannot be read as `MM:SS`.
pub fn format_eta(secs: u64) -> (r: String)
    ensures
        r@ == eta_text(secs as nat),
{
    let mut s = String::new();
    if secs < 60 {
        push_decimal(&mut s, secs);
        push_str(&mut s, "s");
    } else if secs < 3600 {
        push_decimal(&mut s, secs / 60);
        push_str(&mut s, "m");
        push_pad2(&mut s, secs % 60);
        push_str(&mut s, "s");
    } else if secs < 86_400 {
        push_decimal(&mut s, secs / 3600);
        push_str(&mut s, "h");
        push_pad2(&mut s, (secs % 3600) / 60);
        push_str(&mut s, "m");
    } else {
        push_decimal(&mut s, secs / 86_400);
        push_str(&mut s, "d ");
        push_decimal(&mut s, (secs % 86_400) / 3600);
        push_str(&mut s, "h");
    }
    s
}

/// The decimal rendering of a positive number is not empty and does not
/// start with `0`.
proof fn lemma_dec_leading(n: nat)
    requires
        n >= 1,
    ensures
        dec(n).len() >= 1,
        dec(n)[0] != '0',
    decreases n,
{
    if n >= 10 {
        lemma_dec_leading(n / 10);
        assert(dec(n) == dec(n / 10).push(digit(n % 10)));
    }
}

/// Decimal renderings hold digits only, never a colon.
proof fn lemma_dec_no_colon(n: nat)
    ensures
        forall|i: int| 0 <= i < dec(n).len() ==> dec(n)[i] != ':',
    decreases n,
{
    if n >= 10 {
        lemma_dec_no_colon(n / 10);
        assert(dec(n) == dec(n / 10).push(digit(n % 10)));
    }
}

proof fn lemma_pad2_no_colon(n: nat)
    ensures
        forall|i: int| 0 <= i < pad2(n).len() ==> pad2(n)[i] != ':',
{
    lemma_dec_no_colon(n);
}

/// An ETA is never written with colons, so `HH:MM` and `MM:SS` cannot be
/// confused, and a positive one starts with a non-zero count, so a short
/// wait shows as e.g. `45s` rather than collapsing to zero.
pub proof fn lemma_eta_text_shape(secs: nat)
    ensures
        forall|i: int| 0 <= i < eta_text(secs).len() ==> eta_text(secs)[i] != ':',
        secs > 0 ==> eta_text(secs).len() >= 1 && eta_text(secs)[0] != '0',
{
    reveal_strlit("s");
    reveal_strlit("m");
    reveal_strlit("h");
    reveal_strlit("d ");
    let t = eta_text(secs);
    if secs < 60 {
        lemma_dec_no_colon(secs);
        if secs > 0 {
            lemma_dec_leading(secs);
        }
        assert(t == dec(secs) + "s"@);
    } else if secs < 3600 {
        lemma_dec_no_colon(secs / 60);
        lemma_pad2_no_colon(secs % 60);
        lemma_dec_leading(secs / 60);
        assert(t == dec(secs / 60) + "m"@ + pad2(secs % 60) + "s"@);
    } else if secs < 86400 {
        lemma_dec_no_colon(secs / 3600);
        lemma_pad2_no_colon((secs % 3600) / 60);
        lemma_dec_leading(secs / 3600);
        assert(t == dec(secs / 3600) + "h"@ + pad2((secs % 3600) / 60) + "m"@);
    } else {
        lemma_dec_no_colon(secs / 86400);
        lemma_dec_no_colon((secs % 86400) / 3600);
        lemma_dec_leading(secs / 86400);
        assert(t == dec(secs / 86400) + "d "@ + dec((secs % 86400) / 3600) + "h"@);
    }
}

} // verus!
