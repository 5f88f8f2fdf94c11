//! Size metrics: the processed-to-original ratio and human-readable byte counts.
use vstd::prelude::*;
use crate::text::{decimal, digit, digit_char, push_decimal, push_str, string_of};

verus! {

pub const KB: u64 = 1024;

pub const MB: u64 = 1048576;

pub const GB: u64 = 1073741824;

/// `new` as a percentage of `original`, rounded to the nearest integer with
/// halves rounded up; `100` when `original` is zero.
pub open spec fn ratio_of(original: nat, new: nat) -> nat {
    if original == 0 {
        100
    } else {
        (200 * new + original) / (2 * original)
    }
}

/// Processed size as a whole percentage of the original size.
pub fn ratio_percent(original_size: u64, new_size: u64) -> (r: u128)
    ensures
        r as nat == ratio_of(original_size as nat, new_size as nat),
{
    if original_size == 0 {
        100
    } else {
        let o = original_size as u128;
        let n = new_size as u128;
        (200 * n + o) / (2 * o)
    }
}

/// `x / u` rounded to the nearest integer, ties going to the even neighbour.
pub open spec fn round_half_even(x: nat, u: nat) -> nat
    recommends
        u > 0,
{
    let q = x / u;
    let r = x % u;
    if 2 * r > u {
        q + 1
    } else if 2 * r < u {
        q
    } else if q % 2 == 0 {
        q
    } else {
        q + 1
    }
}

/// A count of hundredths written with two decimals, such as `2.05`.
pub open spec fn hundredths_text(h: nat) -> Seq<char> {
    decimal(h / 100) + seq!['.', digit_char((h / 10) % 10), digit_char(h % 10)]
}

/// The text of a byte count: plain below one kibibyte, otherwise in the
/// largest binary unit that fits, with two decimals.
pub open spec fn byte_size_text(b: nat) -> Seq<char> {
    if b >= GB as nat {
        hundredths_text(round_half_even(b * 100, GB as nat)) + " GB"@
    } else if b >= MB as nat {
        hundredths_text(round_half_even(b * 100, MB as nat)) + " MB"@
    } else if b >= KB as nat {
        hundredths_text(round_half_even(b * 100, KB as nat)) + " KB"@
    } else {
        decimal(b) + " bytes"@
    }
}

fn scaled_hundredths(bytes: u64, unit: u64) -> (h: u128)
    requires
        unit > 0,
    ensures
        h as nat == round_half_even(bytes as nat * 100, unit as nat),
{
    let x = bytes as u128 * 100;
    let u = unit as u128;
    let q = x / u;
    let r = x % u;
    if 2 * r > u {
        q + 1
    } else if 2 * r < u {
        q
    } else if q % 2 == 0 {
        q
    } else {
        q + 1
    }
}

fn push_hundredths(out: &mut Vec<char>, h: u128)
    ensures
        final(out)@ == old(out)@ + hundredths_text(h as nat),
{
    push_decimal(out, h / 100);
    out.push('.');
    out.push(digit(h / 10));
    out.push(digit(h));
    assert(digit_char((h / 10) as nat) == digit_char(((h / 10) % 10) as nat));
    assert(final(out)@ =~= old(out)@ + hundredths_text(h as nat));
}

/// Renders a byte count for people: `512 bytes`, `2.00 KB`, `1.00 MB`.
pub fn format_bytes(bytes: u64) -> (r: String)
    ensures
        r@ == byte_size_text(bytes as nat),
{
    let mut out: Vec<char> = Vec::new();
    if bytes >= GB {
        push_hundredths(&mut out, scaled_hundredths(bytes, GB));
        push_str(&mut out, " GB");
    } else if bytes >= MB {
        push_hundredths(&mut out, scaled_hundredths(bytes, MB));
        push_str(&mut out, " MB");
    } else if bytes >= KB {
        push_hundredths(&mut out, scaled_hundredths(bytes, KB));
        push_str(&mut out, " KB");
    } else {
        push_decimal(&mut out, bytes as u128);
        push_str(&mut out, " bytes");
    }
    assert(out@ =~= byte_size_text(bytes as nat));
    string_of(&out)
}

} // verus!

verus! {

/// With an empty original the ratio is exactly one hundred, whatever the new size.
pub proof fn ratio_of_empty_original(new: nat)
    ensures
        ratio_of(0, new) == 100,
{
}

/// With a non-empty original the ratio is the percentage `100 * new / original`
/// rounded to the nearest integer, halves rounded up: it lies within one half
/// below and strictly less than one half above.
pub proof fn ratio_is_rounded_percentage(original: nat, new: nat)
    requires
        original > 0,
    ensures
        2 * ratio_of(original, new) * original <= 200 * new + original,
        200 * new + original < 2 * (ratio_of(original, new) + 1) * original,
{
    let x = 200 * new + original;
    let d = 2 * original;
    let q = x / d;
    assert(x == d * q + x % d) by (nonlinear_arith)
        requires
            d > 0,
            q == x / d,
    ;
    assert(0 <= x % d < d) by (nonlinear_arith)
        requires
            d > 0,
    ;
    assert(2 * q * original == d * q) by (nonlinear_arith)
        requires
            d == 2 * original,
    ;
    assert(2 * (q + 1) * original == d * q + d) by (nonlinear_arith)
        requires
            d == 2 * original,
    ;
}

} // verus!
