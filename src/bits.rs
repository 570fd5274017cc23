//! Bit fields of 128-bit instruction words.

use vstd::prelude::*;
use vstd::arithmetic::power2::{pow2, lemma_pow2_adds, lemma_pow2_pos, lemma2_to64};
use vstd::arithmetic::div_mod::{lemma_mod_mod, lemma_div_multiples_vanish, lemma_small_mod};
use vstd::arithmetic::power2::lemma_pow2_strictly_increases;
use vstd::arithmetic::mul::lemma_mul_strict_inequality;
use vstd::bits::{lemma_u128_shr_is_div, lemma_u64_low_bits_mask_is_mod, lemma_u64_shl_is_mul, lemma_u64_pow2_no_overflow, low_bits_mask};

verus! {

/// The value of the `width`-bit field that starts at bit `offset` of `word`.
pub open spec fn field_value(word: u128, offset: nat, width: nat) -> nat {
    (word as nat / pow2(offset)) % pow2(width)
}

/// Reads the `width`-bit field at bit `offset` of `word`, zero-extended.
pub fn field(word: u128, offset: u32, width: u32) -> (r: u64)
    requires
        offset + width <= 128,
        width <= 64,
    ensures
        r as nat == field_value(word, offset as nat, width as nat),
        (r as nat) < pow2(width as nat),
{
    proof {
        lemma_pow2_pos(width as nat);
    }
    if width == 0 {
        proof {
            lemma2_to64();
        }
        return 0;
    }
    let shifted: u128 = word >> offset;
    let low: u64 = #[verifier::truncate] (shifted as u64);
    proof {
        lemma_u128_shr_is_div(word, offset as u128);
        assert(low == shifted % 0x1_0000_0000_0000_0000) by (bit_vector)
            requires
                low == shifted as u64,
        ;
        lemma2_to64();
        lemma_pow2_pos(width as nat);
        lemma_pow2_pos((64 - width) as nat);
        lemma_pow2_adds(width as nat, (64 - width) as nat);
        lemma_mod_mod(shifted as int, pow2(width as nat) as int, pow2((64 - width) as nat) as int);
    }
    if width == 64 {
        low
    } else {
        proof {
            lemma_u64_pow2_no_overflow(width as nat);
            lemma_u64_shl_is_mul(1, width as u64);
        }
        let mask: u64 = (1u64 << width) - 1;
        proof {
            assert(mask == low_bits_mask(width as nat));
            lemma_u64_low_bits_mask_is_mod(low, width as nat);
        }
        low & mask
    }
}

/// The word whose only set bits are those of `value`, moved up to start at bit `offset`.
pub open spec fn packed(value: nat, offset: nat) -> nat {
    value * pow2(offset)
}

proof fn lemma_pow2_128()
    ensures
        pow2(128) == 0x1_0000_0000_0000_0000_0000_0000_0000_0000,
{
    lemma2_to64();
    lemma_pow2_adds(64, 64);
}

/// A value below `2^width`, moved to bit `offset`, still fits in 128 bits.
proof fn lemma_packed_fits(value: nat, offset: nat, width: nat)
    requires
        value < pow2(width),
        offset + width <= 128,
    ensures
        packed(value, offset) < pow2(offset + width),
        pow2(offset + width) <= pow2(128),
{
    lemma_pow2_pos(offset);
    lemma_mul_strict_inequality(value as int, pow2(width) as int, pow2(offset) as int);
    lemma_pow2_adds(width, offset);
    if offset + width < 128 {
        lemma_pow2_strictly_increases(offset + width, 128);
    }
}

/// Builds the word whose `width`-bit field at bit `offset` holds `value`, every
/// other bit being zero.
pub fn pack(value: u64, offset: u32, width: u32) -> (r: u128)
    requires
        offset + width <= 128,
        width <= 64,
        value < pow2(width as nat),
    ensures
        r as nat == packed(value as nat, offset as nat),
{
    proof {
        lemma2_to64();
        lemma_pow2_128();
    }
    let mut r: u128 = value as u128;
    let mut i: u32 = 0;
    while i < offset
        invariant
            i <= offset,
            offset + width <= 128,
            value < pow2(width as nat),
            r as nat == packed(value as nat, i as nat),
            pow2(0) == 1,
            pow2(128) == 0x1_0000_0000_0000_0000_0000_0000_0000_0000,
        decreases offset - i,
    {
        proof {
            lemma_packed_fits(value as nat, (i + 1) as nat, width as nat);
            lemma_pow2_adds(i as nat, 1);
            assert(pow2(1) == 2) by {
                lemma2_to64();
            }
            assert(packed(value as nat, (i + 1) as nat) == 2 * packed(value as nat, i as nat))
                by (nonlinear_arith)
                requires
                    pow2((i + 1) as nat) == pow2(i as nat) * 2,
            ;
        }
        r = r * 2;
        i = i + 1;
    }
    r
}

/// Packing a value into a word and reading the same field back gives the value.
pub proof fn lemma_field_of_packed(v: nat, offset: nat, width: nat)
    requires
        v < pow2(width),
        offset + width <= 128,
    ensures
        packed(v, offset) < pow2(128),
        field_value(packed(v, offset) as u128, offset, width) == v,
{
    lemma_packed_fits(v, offset, width);
    lemma_pow2_pos(offset);
    lemma_pow2_pos(width);
    lemma_pow2_128();
    let w = packed(v, offset);
    assert((w as u128) as nat == w);
    assert(pow2(offset) * v == w) by (nonlinear_arith)
        requires
            w == v * pow2(offset),
    ;
    lemma_div_multiples_vanish(v as int, pow2(offset) as int);
    lemma_small_mod(v, pow2(width));
}

/// One piece of a field that is scattered over the word: the `width` bits at
/// `offset` in the word stand at bit `shift` of the field's value.
#[derive(Clone, Copy, Debug, PartialEq, Eq)]
pub struct FieldPart {
    pub shift: u32,
    pub offset: u32,
    pub width: u32,
}

/// The value of a field made of `parts`: the sum of each part's bits, shifted to
/// its place.
pub open spec fn composite_value(word: u128, parts: Seq<FieldPart>) -> nat
    decreases parts.len(),
{
    if parts.len() == 0 {
        0
    } else {
        let p = parts.last();
        composite_value(word, parts.drop_last()) + field_value(word, p.offset as nat, p.width as nat)
            * pow2(p.shift as nat)
    }
}

/// The bound `sum 2^(shift + width)` over the parts, above every value they can hold.
pub open spec fn composite_span(parts: Seq<FieldPart>) -> nat
    decreases parts.len(),
{
    if parts.len() == 0 {
        0
    } else {
        let p = parts.last();
        composite_span(parts.drop_last()) + pow2((p.shift + p.width) as nat)
    }
}

/// Each part lies inside the word, and its bits fit in 64 bits once shifted.
pub open spec fn parts_in_bounds(parts: Seq<FieldPart>) -> bool {
    forall|i: int|
        0 <= i < parts.len() ==> {
            &&& #[trigger] parts[i].offset + parts[i].width <= 128
            &&& parts[i].shift + parts[i].width <= 64
            &&& parts[i].shift < 64
        }
}

proof fn lemma_span_prefix(parts: Seq<FieldPart>, i: int)
    requires
        0 <= i <= parts.len(),
    ensures
        composite_span(parts.take(i)) <= composite_span(parts),
    decreases parts.len(),
{
    if i < parts.len() {
        assert(parts.drop_last().take(i) == parts.take(i));
        lemma_span_prefix(parts.drop_last(), i);
    } else {
        assert(parts.take(i) == parts);
    }
}

/// Reads a field made of several parts of the word: each part's bits are
/// shifted to their place in the field and the parts are added up.
pub fn composite(word: u128, parts: &[FieldPart]) -> (r: u64)
    requires
        parts_in_bounds(parts@),
        composite_span(parts@) <= pow2(64),
    ensures
        r as nat == composite_value(word, parts@),
{
    let mut acc: u64 = 0;
    let mut i: usize = 0;
    proof {
        lemma2_to64();
        assert(parts@.take(0) == Seq::<FieldPart>::empty());
    }
    while i < parts.len()
        invariant
            i <= parts.len(),
            parts_in_bounds(parts@),
            composite_span(parts@) <= pow2(64),
            pow2(64) == 0x1_0000_0000_0000_0000,
            acc as nat == composite_value(word, parts@.take(i as int)),
            acc as nat <= composite_span(parts@.take(i as int)),
        decreases parts.len() - i,
    {
        let p = parts[i];
        assert(p == parts@[i as int]);
        let v = field(word, p.offset, p.width);
        proof {
            lemma_pow2_pos(p.shift as nat);
            lemma_pow2_pos(p.width as nat);
            lemma_pow2_adds(p.shift as nat, p.width as nat);
            lemma_mul_strict_inequality(v as int, pow2(p.width as nat) as int, pow2(p.shift as nat) as int);
            assert(parts@.take(i + 1).drop_last() == parts@.take(i as int));
            assert(parts@.take(i + 1).last() == p);
            lemma_span_prefix(parts@, i + 1);
            lemma_u64_shl_is_mul(v, p.shift as u64);
        }
        let term = v << p.shift;
        acc = acc + term;
        i = i + 1;
    }
    assert(parts@.take(parts.len() as int) == parts@);
    acc
}

} // verus!
