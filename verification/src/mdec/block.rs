use vstd::prelude::*;

use std::collections::VecDeque;

use crate::cpu::instrs::trunc_div;
use crate::gte::math::clamp;
use crate::mdec::util::{
    div_trunc, idct, idct_pass_exec, signed10bit, spec_signed10bit, zag_zig, zag_zig_table,
};

verus! {

broadcast use vstd::std_specs::vecdeque::group_vec_dequeue_axioms;

/// The marker word that pads the end of a block.
pub const PADDING: u16 = 0xFE00;

/// What is left of `s` once the padding words at its front are dropped.
pub open spec fn skip_padding(s: Seq<u16>) -> Seq<u16>
    decreases s.len(),
{
    if s.len() > 0 && s[0] == PADDING {
        skip_padding(s.drop_first())
    } else {
        s
    }
}

/// The value of an AC coefficient with run/level word `n` at zig-zag index
/// `k`, under quantization factor `q`.
pub open spec fn ac_value(n: u16, q: int, qt: Seq<u8>, k: int) -> int {
    let level = spec_signed10bit(n);
    if q == 0 {
        clamp(level * 2, -0x400, 0x3FF)
    } else {
        clamp(trunc_div(level * qt[k] * q + 4, 8), -0x400, 0x3FF)
    }
}

/// Where the `k`-th coefficient lands: in zig-zag order when the block is
/// quantized, in row-major order when `q` is zero.
pub open spec fn ac_target(q: int, k: int) -> int {
    if q == 0 {
        k
    } else {
        zag_zig_table()[k] as int
    }
}

/// Reads AC words from `s` into `block`, the last coefficient at index `k`:
/// it stops before padding or the end of the data, and after the word that
/// passes index 63 or lands on it. Gives the block and what is left of `s`.
pub open spec fn ac_fill(s: Seq<u16>, k: int, q: int, qt: Seq<u8>, block: Seq<i16>) -> (Seq<i16>, Seq<u16>)
    decreases s.len(),
{
    if s.len() == 0 || s[0] == PADDING {
        (block, s)
    } else {
        let n = s[0];
        let k2 = k + 1 + n / 1024;
        if k2 > 63 {
            (block, s.drop_first())
        } else {
            let b2 = block.update(ac_target(q, k2), ac_value(n, q, qt, k2) as i16);
            if k2 == 63 {
                (b2, s.drop_first())
            } else {
                ac_fill(s.drop_first(), k2, q, qt, b2)
            }
        }
    }
}

/// The DC coefficient given by the first word of a block.
pub open spec fn dc_value(first: u16, qt: Seq<u8>) -> int {
    let dc = spec_signed10bit(first);
    if first / 1024 == 0 {
        clamp(dc * 2, -0x400, 0x3FF)
    } else {
        clamp((dc as i16).wrapping_mul(qt[0] as i16) as int, -0x400, 0x3FF)
    }
}

pub open spec fn zero_block() -> Seq<i16> {
    Seq::new(64, |i: int| 0i16)
}

/// The coefficients of the block at the front of `t` (which starts with a
/// word other than padding), and what is left of `t` after it.
pub open spec fn coefficients(t: Seq<u16>, qt: Seq<u8>) -> (Seq<i16>, Seq<u16>) {
    let first = t[0];
    ac_fill(t.drop_first(), 0, (first / 1024) as int, qt, zero_block().update(0, dc_value(first, qt) as i16))
}

/// The decoded block at the front of `s` and what is left of `s` after it:
/// all zero, and nothing left, when `s` holds only padding.
pub open spec fn decoded_block(s: Seq<u16>, qt: Seq<u8>, scale: Seq<i16>) -> (Seq<i16>, Seq<u16>) {
    let t = skip_padding(s);
    if t.len() == 0 {
        (zero_block(), t)
    } else {
        let c = coefficients(t, qt);
        (idct(c.0, scale), c.1)
    }
}

pub proof fn lemma_skip_padding_len(s: Seq<u16>)
    ensures
        skip_padding(s).len() <= s.len(),
        skip_padding(s).len() > 0 ==> skip_padding(s)[0] != PADDING,
    decreases s.len(),
{
    if s.len() > 0 && s[0] == PADDING {
        lemma_skip_padding_len(s.drop_first());
    }
}

pub proof fn lemma_skip_padding_idempotent(s: Seq<u16>)
    ensures
        skip_padding(skip_padding(s)) == skip_padding(s),
    decreases s.len(),
{
    if s.len() > 0 && s[0] == PADDING {
        lemma_skip_padding_idempotent(s.drop_first());
    }
}

proof fn lemma_ac_fill_len(s: Seq<u16>, k: int, q: int, qt: Seq<u8>, block: Seq<i16>)
    ensures
        ac_fill(s, k, q, qt, block).1.len() <= s.len(),
        block.len() == 64 && 0 <= k < 64 ==> ac_fill(s, k, q, qt, block).0.len() == 64,
    decreases s.len(),
{
    if s.len() == 0 || s[0] == PADDING {
    } else {
        let n = s[0];
        let k2 = k + 1 + n / 1024;
        if k2 <= 63 && k2 != 63 {
            let b2 = block.update(ac_target(q, k2), ac_value(n, q, qt, k2) as i16);
            lemma_ac_fill_len(s.drop_first(), k2, q, qt, b2);
        }
    }
}

/// Decoding a block never lengthens the data, and it consumes at least one
/// word where there is more than padding.
pub proof fn lemma_decoded_block_len(s: Seq<u16>, qt: Seq<u8>, scale: Seq<i16>)
    ensures
        decoded_block(s, qt, scale).1.len() <= skip_padding(s).len(),
        skip_padding(s).len() <= s.len(),
        skip_padding(s).len() > 0 ==> decoded_block(s, qt, scale).1.len() < skip_padding(s).len(),
{
    lemma_skip_padding_len(s);
    let t = skip_padding(s);
    if t.len() > 0 {
        let first = t[0];
        lemma_ac_fill_len(
            t.drop_first(),
            0,
            (first / 1024) as int,
            qt,
            zero_block().update(0, dc_value(first, qt) as i16),
        );
    }
}

/// Drops the padding words at the front of `source`.
pub fn drop_padding(source: &mut VecDeque<u16>)
    ensures
        final(source)@ == skip_padding(old(source)@),
{
    while source.len() > 0 && source[0] == PADDING
        invariant
            skip_padding(source@) == skip_padding(old(source)@),
        decreases source@.len(),
    {
        proof {
            assert(source@.drop_first() =~= source@.subrange(1, source@.len() as int));
        }
        source.pop_front();
    }
}

/// Reads the coefficients of one block from the front of `source` (which
/// starts with a word other than padding), and consumes them.
pub fn read_coefficients(source: &mut VecDeque<u16>, qt: &[u8]) -> (block: [i16; 64])
    requires
        old(source)@.len() > 0,
        old(source)@[0] != PADDING,
        qt@.len() >= 64,
    ensures
        block@ == coefficients(old(source)@, qt@).0,
        final(source)@ == coefficients(old(source)@, qt@).1,
{
    let ghost s0 = source@;
    let first = source[0];
    source.pop_front();
    proof {
        assert(source@ =~= s0.drop_first());
    }
    let q_fact: i32 = (first / 1024) as i32;
    let dc_coeff = signed10bit(first);
    let dc_val: i32 = if q_fact == 0 {
        let v = dc_coeff as i32 * 2;
        if v < -0x400 { -0x400 } else if v > 0x3FF { 0x3FF } else { v }
    } else {
        let v = dc_coeff.wrapping_mul(qt[0] as i16) as i32;
        if v < -0x400 { -0x400 } else if v > 0x3FF { 0x3FF } else { v }
    };
    let mut block = [0i16; 64];
    block[0] = dc_val as i16;
    proof {
        assert(block@ =~= zero_block().update(0, dc_value(first, qt@) as i16));
    }
    let mut k: usize = 0;
    loop
        invariant_except_break
            k < 63,
            qt@.len() >= 64,
            q_fact == first / 1024,
            block@.len() == 64,
            ac_fill(source@, k as int, q_fact as int, qt@, block@) == coefficients(s0, qt@),
        ensures
            block@ == coefficients(s0, qt@).0,
            source@ == coefficients(s0, qt@).1,
        decreases source@.len(),
    {
        if source.len() == 0 || source[0] == PADDING {
            break;
        }
        let n = source[0];
        let ghost s1 = source@;
        source.pop_front();
        proof {
            assert(source@ =~= s1.drop_first());
        }
        let run = (n / 1024) as usize;
        if k + 1 + run > 63 {
            break;
        }
        k = k + 1 + run;
        let ac_level = signed10bit(n) as i32;
        let val: i32 = if q_fact == 0 {
            let v = ac_level * 2;
            if v < -0x400 { -0x400 } else if v > 0x3FF { 0x3FF } else { v }
        } else {
            let qt_val = qt[k] as i32;
            proof {
                assert(-512 * 255 <= ac_level * qt_val <= 512 * 255
                    && -512 * 255 * 63 <= ac_level * qt_val * q_fact <= 512 * 255 * 63)
                    by (nonlinear_arith)
                    requires
                        -512 <= ac_level < 512,
                        0 <= qt_val < 256,
                        0 < q_fact < 64,
                ;
            }
            let v = div_trunc(ac_level * qt_val * q_fact + 4, 8);
            if v < -0x400 { -0x400 } else if v > 0x3FF { 0x3FF } else { v }
        };
        let target = if q_fact == 0 { k } else { zag_zig(k) };
        block[target] = val as i16;
        if k == 63 {
            break;
        }
    }
    block
}

/// Decodes the block at the front of `source` with quantization table `qt`
/// and IDCT scale table `scale`, and consumes its words: an all-zero block,
/// with everything consumed, where only padding is left.
pub fn decode_block_from(source: &mut VecDeque<u16>, qt: &[u8], scale: &[i16; 64]) -> (block: [i16; 64])
    requires
        qt@.len() >= 64,
    ensures
        block@ == decoded_block(old(source)@, qt@, scale@).0,
        final(source)@ == decoded_block(old(source)@, qt@, scale@).1,
{
    drop_padding(source);
    proof {
        lemma_skip_padding_len(old(source)@);
    }
    if source.len() == 0 {
        let z = [0i16; 64];
        proof {
            assert(z@ =~= zero_block());
        }
        return z;
    }
    let coeffs = read_coefficients(source, qt);
    let pass1 = idct_pass_exec(&coeffs, scale);
    idct_pass_exec(&pass1, scale)
}

proof fn lemma_zag_zig_in_block(k: int)
    requires
        0 <= k < 64,
    ensures
        zag_zig_table()[k] < 64,
{
    assert(forall|j: int| 0 <= j < 64 ==> #[trigger] zag_zig_table()[j] < 64);
}

/// Dequantization of a quantized block (scale `q`, the top 6 bits of its
/// first word, above zero): an AC word of run `r` and 10-bit level `L` as
/// the block's only AC word puts clamp(trunc((L * qt[k] * q + 4) / 8),
/// -400h, 3FFh) at zig-zag position k = 1 + r. So, away from clamping, the
/// coefficient grows with the scale and with the table entry.
pub proof fn lemma_ac_dequantized(t: Seq<u16>, qt: Seq<u8>)
    requires
        t.len() >= 2,
        t[0] / 1024 > 0,
        t[1] != PADDING,
        1 + t[1] / 1024 <= 63,
        t.len() == 2 || t[2] == PADDING,
    ensures
        ({
            let q = (t[0] / 1024) as int;
            let k = 1 + t[1] / 1024;
            let level = if t[1] % 1024 >= 512 { t[1] % 1024 - 1024 } else { (t[1] % 1024) as int };
            coefficients(t, qt).0[zag_zig_table()[k as int] as int] as int == clamp(
                trunc_div(level * qt[k as int] * q + 4, 8),
                -0x400,
                0x3FF,
            )
        }),
{
    let first = t[0];
    let q = (first / 1024) as int;
    let n = t[1];
    let k2 = 1 + n / 1024;
    lemma_zag_zig_in_block(k2 as int);
    let s = t.drop_first();
    let block0 = zero_block().update(0, dc_value(first, qt) as i16);
    assert(coefficients(t, qt) == ac_fill(s, 0, q, qt, block0));
    assert(s[0] == n);
    let b2 = block0.update(ac_target(q, k2 as int), ac_value(n, q, qt, k2 as int) as i16);
    assert(s.drop_first().len() == 0 || s.drop_first()[0] == PADDING);
    if k2 != 63 {
        assert(ac_fill(s.drop_first(), k2 as int, q, qt, b2) == (b2, s.drop_first()));
    }
    assert(ac_fill(s, 0, q, qt, block0).0 == b2);
    assert(ac_target(q, k2 as int) == zag_zig_table()[k2 as int] as int);
    assert(b2[zag_zig_table()[k2 as int] as int] == ac_value(n, q, qt, k2 as int) as i16);
}

/// An unquantized block (scale 0): its only AC word, of run `r` and 10-bit
/// level `L`, puts clamp(2 L, -400h, 3FFh) at position k = 1 + r in
/// row-major order, not zig-zag order.
pub proof fn lemma_ac_unquantized(t: Seq<u16>, qt: Seq<u8>)
    requires
        t.len() >= 2,
        t[0] / 1024 == 0,
        t[1] != PADDING,
        1 + t[1] / 1024 <= 63,
        t.len() == 2 || t[2] == PADDING,
    ensures
        ({
            let k = 1 + t[1] / 1024;
            let level = if t[1] % 1024 >= 512 { t[1] % 1024 - 1024 } else { (t[1] % 1024) as int };
            coefficients(t, qt).0[k as int] as int == clamp(2 * level, -0x400, 0x3FF)
        }),
{
    let first = t[0];
    let n = t[1];
    let k2 = 1 + n / 1024;
    let s = t.drop_first();
    let block0 = zero_block().update(0, dc_value(first, qt) as i16);
    assert(coefficients(t, qt) == ac_fill(s, 0, 0, qt, block0));
    assert(s[0] == n);
    let b2 = block0.update(k2 as int, ac_value(n, 0, qt, k2 as int) as i16);
    assert(s.drop_first().len() == 0 || s.drop_first()[0] == PADDING);
    if k2 != 63 {
        assert(ac_fill(s.drop_first(), k2 as int, 0, qt, b2) == (b2, s.drop_first()));
    }
    assert(ac_fill(s, 0, 0, qt, block0).0 == b2);
}

proof fn lemma_zag_zig_not_dc(k: int)
    requires
        1 <= k < 64,
    ensures
        zag_zig_table()[k] != 0,
        zag_zig_table()[k] < 64,
{
    assert(forall|j: int| 1 <= j < 64 ==> #[trigger] zag_zig_table()[j] != 0 && zag_zig_table()[j] < 64);
}

/// Reading AC words never writes the DC position.
proof fn lemma_ac_fill_keeps_dc(s: Seq<u16>, k: int, q: int, qt: Seq<u8>, block: Seq<i16>)
    requires
        0 <= k,
        block.len() == 64,
    ensures
        ac_fill(s, k, q, qt, block).0.len() == 64,
        ac_fill(s, k, q, qt, block).0[0] == block[0],
    decreases s.len(),
{
    if s.len() == 0 || s[0] == PADDING {
    } else {
        let n = s[0];
        let k2 = k + 1 + n / 1024;
        if k2 <= 63 {
            if q != 0 {
                lemma_zag_zig_not_dc(k2);
            }
            let b2 = block.update(ac_target(q, k2), ac_value(n, q, qt, k2) as i16);
            if k2 != 63 {
                lemma_ac_fill_keeps_dc(s.drop_first(), k2, q, qt, b2);
            }
        }
    }
}

/// A block's DC coefficient (position 0) comes from its first word alone,
/// whatever AC words follow: the signed 10-bit value D of that word times
/// 2 when the block is unquantized (scale 0), times qt[0] in 16 bits when
/// it is quantized, clamped to -400h..3FFh.
pub proof fn lemma_dc_coefficient(t: Seq<u16>, qt: Seq<u8>)
    requires
        t.len() >= 1,
    ensures
        ({
            let d = if t[0] % 1024 >= 512 { t[0] % 1024 - 1024 } else { (t[0] % 1024) as int };
            let dc = coefficients(t, qt).0[0] as int;
            &&& t[0] / 1024 == 0 ==> dc == clamp(2 * d, -0x400, 0x3FF)
            &&& t[0] / 1024 != 0 ==> dc == clamp((d as i16).wrapping_mul(qt[0] as i16) as int, -0x400, 0x3FF)
        }),
{
    let first = t[0];
    let block0 = zero_block().update(0, dc_value(first, qt) as i16);
    lemma_ac_fill_keeps_dc(t.drop_first(), 0, (first / 1024) as int, qt, block0);
}

} // verus!
