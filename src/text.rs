//! Building the decimal and hexadecimal text used in reasons and hashes.

use vstd::prelude::*;
use vstd::string::StringExecFns;

verus! {

/// The text of one digit, `0` to `f`.
pub open spec fn digit_text(d: nat) -> Seq<char> {
    if d == 0 {
        "0"@
    } else if d == 1 {
        "1"@
    } else if d == 2 {
        "2"@
    } else if d == 3 {
        "3"@
    } else if d == 4 {
        "4"@
    } else if d == 5 {
        "5"@
    } else if d == 6 {
        "6"@
    } else if d == 7 {
        "7"@
    } else if d == 8 {
        "8"@
    } else if d == 9 {
        "9"@
    } else if d == 10 {
        "a"@
    } else if d == 11 {
        "b"@
    } else if d == 12 {
        "c"@
    } else if d == 13 {
        "d"@
    } else if d == 14 {
        "e"@
    } else {
        "f"@
    }
}

/// Decimal notation of `n`, without leading zeros.
pub open spec fn decimal(n: nat) -> Seq<char>
    decreases n,
{
    if n < 10 {
        digit_text(n)
    } else {
        decimal(n / 10) + digit_text(n % 10)
    }
}

/// The hexadecimal digit of `v` at position `i`, counting from the most
/// significant of sixteen.
pub open spec fn hex_digit_at(v: u64, i: nat) -> nat {
    ((v >> (4 * (15 - i)) as u64) & 15) as nat
}

/// The first `n` of the sixteen hexadecimal digits of `v`, most significant
/// first, zero-padded.
pub open spec fn hex_prefix(v: u64, n: nat) -> Seq<char>
    decreases n,
{
    if n == 0 {
        Seq::empty()
    } else {
        hex_prefix(v, (n - 1) as nat) + digit_text(hex_digit_at(v, (n - 1) as nat))
    }
}

/// The sixteen hexadecimal digits of `v`, zero-padded.
pub open spec fn hex16(v: u64) -> Seq<char> {
    hex_prefix(v, 16)
}

/// The text of the digit `d`.
pub fn digit_str(d: u64) -> (r: &'static str)
    requires
        d < 16,
    ensures
        r@ == digit_text(d as nat),
{
    if d == 0 {
        "0"
    } else if d == 1 {
        "1"
    } else if d == 2 {
        "2"
    } else if d == 3 {
        "3"
    } else if d == 4 {
        "4"
    } else if d == 5 {
        "5"
    } else if d == 6 {
        "6"
    } else if d == 7 {
        "7"
    } else if d == 8 {
        "8"
    } else if d == 9 {
        "9"
    } else if d == 10 {
        "a"
    } else if d == 11 {
        "b"
    } else if d == 12 {
        "c"
    } else if d == 13 {
        "d"
    } else if d == 14 {
        "e"
    } else {
        "f"
    }
}

/// Appends the decimal notation of `n` to `out`.
pub fn push_decimal(out: &mut String, n: u64)
    ensures
        final(out)@ == old(out)@ + decimal(n as nat),
    decreases n,
{
    if n < 10 {
        out.append(digit_str(n));
    } else {
        push_decimal(out, n / 10);
        out.append(digit_str(n % 10));
        assert(old(out)@ + decimal(n as nat) =~= old(out)@ + decimal((n / 10) as nat)
            + digit_text((n % 10) as nat));
    }
}

/// Decimal notation of `n`.
pub fn decimal_text(n: u64) -> (r: String)
    ensures
        r@ == decimal(n as nat),
{
    let mut out = String::new();
    push_decimal(&mut out, n);
    assert(out@ =~= decimal(n as nat));
    out
}

/// Appends the first `n` hexadecimal digits of `v` to `out`.
pub fn push_hex_prefix(out: &mut String, v: u64, n: u64)
    requires
        n <= 16,
    ensures
        final(out)@ == old(out)@ + hex_prefix(v, n as nat),
{
    let mut i: u64 = 0;
    while i < n
        invariant
            i <= n <= 16,
            out@ == old(out)@ + hex_prefix(v, i as nat),
        decreases n - i,
    {
        let d = digit_of(v, i);
        out.append(digit_str(d));
        assert(old(out)@ + hex_prefix(v, (i + 1) as nat) =~= old(out)@ + hex_prefix(v, i as nat)
            + digit_text(d as nat));
        i = i + 1;
    }
}

/// The hexadecimal digit of `v` at position `i`, most significant first.
fn digit_of(v: u64, i: u64) -> (r: u64)
    requires
        i < 16,
    ensures
        r == hex_digit_at(v, i as nat),
        r < 16,
{
    let shift: u64 = 4 * (15 - i);
    let r = (v >> shift) & 15;
    assert((v >> shift) & 15 < 16) by (bit_vector);
    r
}

} // verus!
