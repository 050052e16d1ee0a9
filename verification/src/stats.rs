//! Human-readable byte counts for the statistics page: numbers padded to a
//! column width and byte counts scaled to k, M or G with three decimals.
use vstd::prelude::*;
use vstd::arithmetic::div_mod::lemma_div_denominator;

use crate::text::{decimal, decimal_string, lemma_decimal_len, push_char, run_of};

verus! {

broadcast use vstd::string::group_string_axioms;

/// `number` in decimal, padded with `fill` to at least `length`
/// characters: on the left when `left`, else on the right.
pub open spec fn filled(number: nat, length: nat, fill: char, left: bool) -> Seq<char> {
    let digits = decimal(number);
    if length > digits.len() {
        let pad = run_of(fill, (length - digits.len()) as nat);
        if left {
            pad + digits
        } else {
            digits + pad
        }
    } else {
        digits
    }
}

/// The whole part, the three digits below it and the unit letter that
/// `bytes_to_string` shows for `bytes`: the count is divided by 1000 as
/// long as the quotient stays positive, at most three times.
pub open spec fn byte_parts(bytes: nat) -> (nat, nat, Seq<char>) {
    if bytes < 1000 {
        (bytes, 0, seq![])
    } else if bytes < 1_000_000 {
        (bytes / 1000, bytes % 1000, seq!['k'])
    } else if bytes < 1_000_000_000 {
        (bytes / 1_000_000, (bytes / 1000) % 1000, seq!['M'])
    } else {
        (bytes / 1_000_000_000, (bytes / 1_000_000) % 1000, seq!['G'])
    }
}

/// The text that `bytes_to_string` gives for `bytes`: the whole part
/// right-aligned in three columns, a point, the remainder digits filled
/// with zeros on the right to three columns, a space, the unit letter and
/// `B`.
pub open spec fn byte_text(bytes: nat) -> Seq<char> {
    let (whole, rest, unit) = byte_parts(bytes);
    filled(whole, 3, ' ', true) + seq!['.'] + filled(rest, 3, '0', false) + seq![' '] + unit
        + seq!['B']
}

/// A string of `count` copies of `c`.
fn run_string(c: char, count: u64) -> (s: String)
    ensures
        s@ == run_of(c, count as nat),
{
    let mut s = String::new();
    let mut k: u64 = 0;
    while k < count
        invariant
            k <= count,
            s@ == run_of(c, k as nat),
        decreases count - k,
    {
        push_char(&mut s, c);
        assert(run_of(c, k as nat).push(c) =~= run_of(c, (k + 1) as nat));
        k = k + 1;
    }
    s
}

/// Writes `number` in decimal and pads it with `fill_character` until it
/// is `length` characters long: on the left when `left` holds, else on the
/// right. A number that is already long enough is left as it is.
pub fn fill_number_string(number: u64, length: u64, fill_character: char, left: bool) -> (s: String)
    ensures
        s@ == filled(number as nat, length as nat, fill_character, left),
{
    let mut digits = decimal_string(number);
    let number_len = digits.unicode_len() as u64;
    if length > number_len {
        let to_fill = length - number_len;
        let mut pad = run_string(fill_character, to_fill);
        if left {
            pad.append(digits.as_str());
            pad
        } else {
            digits.append(pad.as_str());
            digits
        }
    } else {
        digits
    }
}

/// Shows a byte count with three decimals in the largest unit among
/// B, kB, MB and GB that keeps the whole part positive, e.g.
/// `1_234_567` as `"  1.234 MB"`.
///
/// The digits after the point are those of the remainder of the last
/// division, padded on the right as `fill_number_string` pads them, so
/// `1_005` is shown as `"  1.500 kB"`.
pub fn bytes_to_string(bytes: u64) -> (s: String)
    ensures
        s@ == byte_text(bytes as nat),
{
    let ghost given = bytes as nat;
    let mut bytes = bytes;
    let mut rest: u64 = 0;
    let mut unit = "";
    proof {
        reveal_strlit("");
        reveal_strlit("k");
        reveal_strlit("M");
        reveal_strlit("G");
    }
    if bytes / 1000 > 0 {
        rest = bytes % 1000;
        bytes = bytes / 1000;
        unit = "k";
        if bytes / 1000 > 0 {
            rest = bytes % 1000;
            bytes = bytes / 1000;
            unit = "M";
            if bytes / 1000 > 0 {
                rest = bytes % 1000;
                bytes = bytes / 1000;
                unit = "G";
            }
        }
    }
    proof {
        lemma_div_denominator(given as int, 1000, 1000);
        lemma_div_denominator(given as int, 1_000_000, 1000);
        assert(byte_parts(given) == (bytes as nat, rest as nat, unit@));
    }
    let mut out = fill_number_string(bytes, 3, ' ', true);
    out.append(".");
    let tail = fill_number_string(rest, 3, '0', false);
    out.append(tail.as_str());
    out.append(" ");
    out.append(unit);
    out.append("B");
    proof {
        reveal_strlit(".");
        reveal_strlit(" ");
        reveal_strlit("B");
    }
    out
}

/// Byte counts below a thousand gigabytes are shown in a fixed layout: the
/// point stands in the fourth column and three digits follow it, so the
/// text is nine characters long for plain bytes and ten with a unit letter.
pub proof fn lemma_byte_text_aligned(bytes: nat)
    requires
        bytes < 1_000_000_000_000,
    ensures
        byte_text(bytes)[3] == '.',
        bytes < 1000 ==> byte_text(bytes).len() == 9,
        bytes >= 1000 ==> byte_text(bytes).len() == 10,
{
    let (whole, rest, unit) = byte_parts(bytes);
    assert(whole < 1000) by {
        if bytes >= 1_000_000_000 {
            assert(bytes / 1_000_000_000 < 1000);
        }
    }
    assert(rest < 1000);
    lemma_decimal_len(whole);
    lemma_decimal_len(rest);
    assert(filled(whole, 3, ' ', true).len() == 3);
    assert(filled(rest, 3, '0', false).len() == 3);
}

/// How many bytes a unit letter stands for: none means bytes, `k` a
/// thousand, `M` a million and `G` a billion.
pub open spec fn unit_scale(unit: Seq<char>) -> nat {
    if unit == seq!['k'] {
        1000
    } else if unit == seq!['M'] {
        1000 * 1000
    } else if unit == seq!['G'] {
        1000 * 1000 * 1000
    } else {
        1
    }
}

/// What the shown parts mean: the whole part is the count in the shown
/// unit, rounded down; the three digits after the point are the next three
/// decimal digits of the count (the part below one unit, in thousandths of
/// the unit); and the unit is the largest of B, k, M, G in which the whole
/// part is at least one.
pub proof fn lemma_byte_parts_meaning(bytes: nat)
    ensures
        ({
            let (whole, rest, unit) = byte_parts(bytes);
            let m = unit_scale(unit);
            &&& whole * m <= bytes < (whole + 1) * m
            &&& m == 1 ==> rest == 0
            &&& m > 1 ==> rest == (bytes % m) / (m / 1000)
            &&& (unit.len() == 0 <==> bytes < 1000)
            &&& (unit == seq!['k'] <==> 1000 <= bytes < 1000 * 1000)
            &&& (unit == seq!['M'] <==> 1000 * 1000 <= bytes < 1000 * 1000 * 1000)
            &&& (unit == seq!['G'] <==> 1000 * 1000 * 1000 <= bytes)
        }),
{
    let (whole, rest, unit) = byte_parts(bytes);
    assert(seq!['k'] != seq!['M'] && seq!['k'] != seq!['G'] && seq!['M'] != seq!['G']) by {
        assert(seq!['k'][0] != seq!['M'][0]);
        assert(seq!['k'][0] != seq!['G'][0]);
        assert(seq!['M'][0] != seq!['G'][0]);
    }
    if bytes < 1000 {
        assert(unit.len() == 0);
        assert(seq!['k'].len() == 1 && seq!['M'].len() == 1 && seq!['G'].len() == 1);
        assert(unit != seq!['k'] && unit != seq!['M'] && unit != seq!['G']);
        assert(unit_scale(unit) == 1);
    } else if bytes < 1_000_000 {
        assert(unit_scale(unit) == 1000);
        assert(whole * 1000 <= bytes < (whole + 1) * 1000) by (nonlinear_arith)
            requires
                whole == bytes / 1000,
        ;
        assert(rest == (bytes % 1000) / (1000nat / 1000nat));
    } else if bytes < 1_000_000_000 {
        assert(unit_scale(unit) == 1_000_000);
        assert(whole * 1_000_000 <= bytes < (whole + 1) * 1_000_000) by (nonlinear_arith)
            requires
                whole == bytes / 1_000_000,
        ;
        assert((bytes / 1000) % 1000 == (bytes % 1_000_000) / 1000) by (nonlinear_arith)
            requires
                bytes >= 0,
        {
            let q = bytes / 1_000_000;
            let x = bytes % 1_000_000;
            assert(bytes == q * 1_000_000 + x);
            assert(bytes / 1000 == q * 1000 + x / 1000);
        }
    } else {
        assert(unit_scale(unit) == 1_000_000_000);
        assert(whole * 1_000_000_000 <= bytes < (whole + 1) * 1_000_000_000) by (nonlinear_arith)
            requires
                whole == bytes / 1_000_000_000,
        ;
        assert((bytes / 1_000_000) % 1000 == (bytes % 1_000_000_000) / 1_000_000) by (
        nonlinear_arith)
            requires
                bytes >= 0,
        {
            let q = bytes / 1_000_000_000;
            let x = bytes % 1_000_000_000;
            assert(bytes == q * 1_000_000_000 + x);
            assert(bytes / 1_000_000 == q * 1000 + x / 1_000_000);
        }
    }
}

/// A filled number is as long as the requested length or its numeral,
/// whichever is longer; the numeral stands at the right end when filling on
/// the left and at the left end otherwise, and every other character is the
/// fill character.
pub proof fn lemma_filled_layout(number: nat, length: nat, fill: char, left: bool)
    ensures
        ({
            let out = filled(number, length, fill, left);
            let d = decimal(number);
            let pad = if length > d.len() { length - d.len() } else { 0int };
            &&& out.len() == if length > d.len() { length as int } else { d.len() as int }
            &&& left ==> out.subrange(pad, out.len() as int) == d
            &&& !left ==> out.subrange(0, d.len() as int) == d
            &&& left ==> forall|i: int| 0 <= i < pad ==> #[trigger] out[i] == fill
            &&& !left ==> forall|i: int| d.len() <= i < out.len() ==> #[trigger] out[i] == fill
        }),
{
    let out = filled(number, length, fill, left);
    let d = decimal(number);
    let pad = if length > d.len() { length - d.len() } else { 0int };
    if left {
        assert(out.subrange(pad, out.len() as int) =~= d);
    } else {
        assert(out.subrange(0, d.len() as int) =~= d);
    }
}

} // verus!
