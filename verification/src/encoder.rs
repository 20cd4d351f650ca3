//! Encoding logical colors into the pulse-train byte layout.
//!
//! The output buffer is an ordered run of one-byte samples: a quiet
//! prefix, then for every LED slot twenty-four three-sample pulse groups
//! (a lead sample fixed high, a data sample the encoder rewrites, a trail
//! sample fixed low), then a long quiet suffix that satisfies the LED
//! string's reset timing.  Each sample byte carries one bit per output
//! wire; the encoder drives wire 0.

use vstd::prelude::*;
use crate::mem::VcMem;

verus! {

/// Data bits per LED.
pub const LED_NBITS: usize = 24;
/// Output samples per LED bit: lead, data, trail.
pub const BIT_NPULSES: usize = 3;
/// Quiet samples before the LED data.
pub const LED_PREBITS: usize = 0;
/// Quiet samples after the LED data, sized for the string's reset time.
pub const LED_POSTBITS: usize = 100;
/// Samples taken by one LED slot.
pub const LED_DLEN: usize = LED_NBITS * BIT_NPULSES;
/// The largest LED count a buffer is ever sized for.
pub const CHAN_MAXLEDS: usize = 128;
/// How many LEDs are driven on the strip.
pub const CHAN_LED_COUNT: usize = 2;
/// The output-wire bit the encoder drives within each sample.
pub const CHANNEL_MASK: u8 = 1;

/// Byte offset of LED slot `n`'s first sample.
pub open spec fn spec_led_tx_offset(n: int) -> int {
    LED_PREBITS + LED_DLEN * n
}

/// Samples in a buffer that carries `n` LED slots and the quiet suffix.
pub open spec fn spec_tx_buff_len(n: int) -> int {
    spec_led_tx_offset(n) + LED_POSTBITS
}

/// Byte offset of LED slot `n`'s first sample.
pub fn led_tx_offset(n: usize) -> (r: usize)
    requires
        n <= CHAN_MAXLEDS,
    ensures
        r == spec_led_tx_offset(n as int),
{
    LED_PREBITS + LED_DLEN * n
}

/// Samples in a buffer that carries `n` LED slots and the quiet suffix.
pub fn tx_buff_len(n: usize) -> (r: usize)
    requires
        n <= CHAN_MAXLEDS,
    ensures
        r == spec_tx_buff_len(n as int),
{
    led_tx_offset(n) + LED_POSTBITS
}

/// Bytes of such a buffer: every sample is one byte wide.
pub fn tx_buff_size(n: usize) -> (r: usize)
    requires
        n <= CHAN_MAXLEDS,
    ensures
        r == spec_tx_buff_len(n as int),
{
    tx_buff_len(n)
}

/// The fixed value of template byte `k`: every group's lead sample is
/// high on all wires, its data and trail samples start low.
pub open spec fn spec_template_byte(k: int) -> u8 {
    if k % 3 == 0 {
        0xFFu8
    } else {
        0u8
    }
}

/// Write the pulse template for `nleds` LED slots: for every bit group
/// the lead sample high, the data and trail samples low.  Bytes outside
/// the groups are untouched.
pub fn write_pulse_template(buf: &mut VcMem, nleds: usize)
    requires
        nleds <= CHAN_MAXLEDS,
        spec_led_tx_offset(nleds as int) <= old(buf)@.len(),
    ensures
        final(buf)@.len() == old(buf)@.len(),
        forall|k: int|
            LED_PREBITS <= k < spec_led_tx_offset(nleds as int) ==> final(buf)@[k]
                == spec_template_byte(k - LED_PREBITS),
        forall|k: int|
            0 <= k < old(buf)@.len() && !(LED_PREBITS <= k < spec_led_tx_offset(nleds as int))
                ==> final(buf)@[k] == old(buf)@[k],
        final(buf).spec_busaddr() == old(buf).spec_busaddr(),
{
    let end = led_tx_offset(nleds);
    let mut k: usize = LED_PREBITS;
    while k < end
        invariant
            LED_PREBITS <= k <= end,
            end == spec_led_tx_offset(nleds as int),
            end <= buf@.len(),
            buf@.len() == old(buf)@.len(),
            forall|m: int|
                LED_PREBITS <= m < k ==> buf@[m] == spec_template_byte(m - LED_PREBITS),
            forall|m: int|
                0 <= m < old(buf)@.len() && !(LED_PREBITS <= m < k) ==> buf@[m] == old(buf)@[m],
            buf.spec_busaddr() == old(buf).spec_busaddr(),
        decreases end - k,
    {
        let b: u8 = if (k - LED_PREBITS) % BIT_NPULSES == 0 {
            0xFF
        } else {
            0
        };
        buf.write_byte(k, b);
        k = k + 1;
    }
}

/// Whether byte `k` of a buffer holding `n` LED slots is the data sample
/// of some bit group: inside the slots' run, one past a group's start.
pub open spec fn spec_is_data_sample(k: int, n: int) -> bool {
    &&& LED_PREBITS <= k < spec_led_tx_offset(n)
    &&& (k - LED_PREBITS) % 3 == 1
}

/// A data sample after encoding: the driven wire's bit follows the
/// color's bit for this group — groups run from the most significant
/// color bit down — and every other wire's bit is untouched.
pub open spec fn spec_data_byte(old_byte: u8, color: u32, group: int) -> u8 {
    if color & (1u32 << ((LED_NBITS - 1 - group) as u32)) != 0 {
        old_byte | CHANNEL_MASK
    } else {
        old_byte & !CHANNEL_MASK
    }
}

/// The data sample at byte `k` belongs to slot `k / 72` and group
/// `(k % 72) / 3`.
proof fn lemma_sample_index(i: int, j: int)
    requires
        0 <= i,
        0 <= j < 24,
    ensures
        (72 * i + 3 * j + 1) / 72 == i,
        ((72 * i + 3 * j + 1) % 72) / 3 == j,
        (72 * i + 3 * j) % 3 == 0,
        (72 * i + 3 * j + 1) % 3 == 1,
        (72 * i + 3 * j + 2) % 3 == 2,
{
    assert((72 * i + 3 * j + 1) / 72 == i && ((72 * i + 3 * j + 1) % 72) / 3 == j && (72 * i + 3
        * j) % 3 == 0 && (72 * i + 3 * j + 1) % 3 == 1 && (72 * i + 3 * j + 2) % 3 == 2)
        by (nonlinear_arith)
        requires
            0 <= i,
            0 <= j < 24,
    ;
}

/// What one encoding pass leaves in the buffer, given what was there:
/// every data sample of the supplied slots is rewritten from its slot's
/// color, everything else is untouched.
pub open spec fn spec_encoded(b: Seq<u8>, leds: Seq<u32>) -> Seq<u8> {
    Seq::new(
        b.len(),
        |k: int|
            if spec_is_data_sample(k, leds.len() as int) {
                spec_data_byte(b[k], leds[(k - LED_PREBITS) / 72], (((k - LED_PREBITS) % 72) / 3))
            } else {
                b[k]
            },
    )
}

/// Rewrite the data sample of every bit group of every supplied LED slot
/// from its color, most significant bit first, leaving lead and trail
/// samples and every other byte untouched.
#[verifier::rlimit(50)]
pub fn write_leds(buf: &mut VcMem, leds: &[u32])
    requires
        leds@.len() <= CHAN_LED_COUNT,
        spec_led_tx_offset(leds@.len() as int) <= old(buf)@.len(),
    ensures
        final(buf)@ == spec_encoded(old(buf)@, leds@),
        final(buf).spec_busaddr() == old(buf).spec_busaddr(),
{
    let ghost origv = buf@;
    let ghost obus = buf.spec_busaddr();
    let ghost n = leds@.len() as int;
    let mut i: usize = 0;
    while i < leds.len()
        invariant
            0 <= i <= leds@.len(),
            n == leds@.len() as int,
            leds@.len() <= CHAN_LED_COUNT,
            spec_led_tx_offset(n) <= buf@.len(),
            buf@.len() == origv.len(),
            forall|k: int|
                0 <= k < buf@.len() ==> buf@[k] == (if spec_is_data_sample(k, n) && k
                    < spec_led_tx_offset(i as int) {
                    spec_encoded(origv, leds@)[k]
                } else {
                    origv[k]
                }),
            buf.spec_busaddr() == obus,
        decreases leds@.len() - i,
    {
        let color = leds[i];
        let base = led_tx_offset(i);
        let mut j: usize = 0;
        while j < LED_NBITS
            invariant
                0 <= i < leds@.len(),
                0 <= j <= LED_NBITS,
                n == leds@.len() as int,
                leds@.len() <= CHAN_LED_COUNT,
                color == leds@[i as int],
                base == spec_led_tx_offset(i as int),
                spec_led_tx_offset(n) <= buf@.len(),
                buf@.len() == origv.len(),
                forall|k: int|
                    0 <= k < buf@.len() ==> buf@[k] == (if spec_is_data_sample(k, n) && k < base
                        + 3 * j {
                        spec_encoded(origv, leds@)[k]
                    } else {
                        origv[k]
                    }),
                buf.spec_busaddr() == obus,
            decreases LED_NBITS - j,
        {
            let idx = base + BIT_NPULSES * j + 1;
            let ghost before = buf@;
            proof {
                assert(forall|k: int|
                    0 <= k < before.len() ==> before[k] == (if spec_is_data_sample(k, n) && k
                        < base + 3 * j {
                        spec_encoded(origv, leds@)[k]
                    } else {
                        origv[k]
                    }));
            }
            let prev = buf.read_byte(idx);
            let bit = 1u32 << ((LED_NBITS - 1 - j) as u32);
            let next: u8 = if color & bit != 0 {
                prev | CHANNEL_MASK
            } else {
                prev & !CHANNEL_MASK
            };
            buf.write_byte(idx, next);
            proof {
                lemma_sample_index(i as int, j as int);
                assert(spec_is_data_sample(idx as int, n));
                assert(buf@[idx as int] == spec_encoded(origv, leds@)[idx as int]);
                assert forall|k: int|
                    0 <= k < buf@.len() implies buf@[k] == (if spec_is_data_sample(k, n) && k
                    < base + 3 * (j + 1) {
                    spec_encoded(origv, leds@)[k]
                } else {
                    origv[k]
                }) by {
                    if k == idx as int {
                        assert(spec_is_data_sample(k, n));
                        assert(k < base + 3 * (j + 1));
                        assert(buf@[k] == spec_encoded(origv, leds@)[k]);
                    } else {
                        assert(buf@[k] == before.update(idx as int, next)[k]);
                        assert(buf@[k] == before[k]);
                        assert(before[k] == (if spec_is_data_sample(k, n) && k < base + 3 * j {
                            spec_encoded(origv, leds@)[k]
                        } else {
                            origv[k]
                        }));
                        if spec_is_data_sample(k, n) && base + 3 * j <= k < base + 3 * (j + 1) {
                            lemma_sample_index(i as int, j as int);
                            assert((k - LED_PREBITS) % 3 == 1);
                            assert(k == 72 * i + 3 * j || k == 72 * i + 3 * j + 2);
                            assert(false);
                        }
                    }
                }
            }
            j = j + 1;
        }
        proof {
            assert(forall|k: int|
                0 <= k < buf@.len() ==> buf@[k] == (if spec_is_data_sample(k, n) && k < base + 3
                    * j {
                    spec_encoded(origv, leds@)[k]
                } else {
                    origv[k]
                }));
            assert(spec_led_tx_offset(i as int + 1) == base + 72);
            assert(forall|k: int|
                0 <= k < buf@.len() ==> buf@[k] == (if spec_is_data_sample(k, n) && k
                    < spec_led_tx_offset(i as int + 1) {
                    spec_encoded(origv, leds@)[k]
                } else {
                    origv[k]
                }));
        }
        i = i + 1;
    }
    proof {
        assert forall|k: int| 0 <= k < buf@.len() implies buf@[k] == spec_encoded(origv, leds@)[k]
        by {
            if spec_is_data_sample(k, n) {
                assert(k < spec_led_tx_offset(n));
            }
        }
        assert(buf@ =~= spec_encoded(origv, leds@));
    }
}

/// Re-running the encoder with identical input produces byte-identical
/// output: one pass already leaves every data sample at its final value.
pub proof fn lemma_encode_idempotent(b: Seq<u8>, leds: Seq<u32>)
    ensures
        spec_encoded(spec_encoded(b, leds), leds) == spec_encoded(b, leds),
{
    assert(forall|x: u8| #![auto] (x | CHANNEL_MASK) | CHANNEL_MASK == x | CHANNEL_MASK)
        by (bit_vector);
    assert(forall|x: u8| #![auto] (x & !CHANNEL_MASK) & !CHANNEL_MASK == x & !CHANNEL_MASK)
        by (bit_vector);
    assert(spec_encoded(spec_encoded(b, leds), leds) =~= spec_encoded(b, leds));
}

} // verus!
