use vstd::prelude::*;

use crate::error::Error;

verus! {

/// Fixed high bits of every device address byte.
pub const ADDR_BASE: u8 = 0x80;

/// OR'd into the address byte when commanding sleep.
pub const SLEEP_ENABLE_MASK: u8 = 0x00;

/// OR'd into the address byte when commanding wake or any grayscale write.
pub const SLEEP_DISABLE_MASK: u8 = 0x20;

/// Sub-address of the output-enable register.
pub const OUT_ENABLE_MASK: u8 = 0x00;

/// Grayscale sub-address of physical output channel 1.
pub const OUT1_GRAYSCALE_MASK: u8 = 0x6;

/// Grayscale sub-address of physical output channel 2.
pub const OUT2_GRAYSCALE_MASK: u8 = 0x8;

/// Grayscale sub-address of physical output channel 3.
pub const OUT3_GRAYSCALE_MASK: u8 = 0xA;

/// Grayscale sub-address of physical output channel 4.
pub const OUT4_GRAYSCALE_MASK: u8 = 0xC;

/// Grayscale sub-address of physical output channel 5.
pub const OUT5_GRAYSCALE_MASK: u8 = 0xE;

/// Output-enable payload byte with all five outputs enabled.
pub const OUT_ALL_ENABLE: u8 = 0x1F;

/// Output-enable payload byte with all five outputs disabled.
pub const OUT_ALL_DISABLE: u8 = 0x00;

/// BP5758d output channels on which operations can be performed.
pub enum Bp5758dChannel {
    OUT1,
    OUT2,
    OUT3,
    OUT4,
    OUT5,
}

/// Grayscale sub-address selecting `c`'s 2-byte register pair.
pub open spec fn grayscale_mask(c: Bp5758dChannel) -> u8 {
    match c {
        Bp5758dChannel::OUT1 => OUT1_GRAYSCALE_MASK,
        Bp5758dChannel::OUT2 => OUT2_GRAYSCALE_MASK,
        Bp5758dChannel::OUT3 => OUT3_GRAYSCALE_MASK,
        Bp5758dChannel::OUT4 => OUT4_GRAYSCALE_MASK,
        Bp5758dChannel::OUT5 => OUT5_GRAYSCALE_MASK,
    }
}

impl Bp5758dChannel {
    /// Grayscale sub-address selecting this channel's 2-byte register pair.
    pub fn get_grayscale_mask(&self) -> (r: u8)
        ensures
            r == grayscale_mask(*self),
    {
        match self {
            Bp5758dChannel::OUT1 => OUT1_GRAYSCALE_MASK,
            Bp5758dChannel::OUT2 => OUT2_GRAYSCALE_MASK,
            Bp5758dChannel::OUT3 => OUT3_GRAYSCALE_MASK,
            Bp5758dChannel::OUT4 => OUT4_GRAYSCALE_MASK,
            Bp5758dChannel::OUT5 => OUT5_GRAYSCALE_MASK,
        }
    }
}

/// Wire encoding of one current-limit value: values above 64 are moved to
/// the chip's high-range representation (62 subtracted, flag 0x60 set),
/// values up to 64 are kept as they are.
pub open spec fn transform_current(v: u8) -> u8 {
    if v > 64 {
        (((v - 62) as u8) | 0x60) as u8
    } else {
        v
    }
}

/// Low data byte of a 10-bit grayscale value: its 5 low bits.
pub open spec fn low_byte(v: u16) -> u8 {
    (v & 0x1F) as u8
}

/// High data byte of a 10-bit grayscale value: its 5 high bits.
pub open spec fn high_byte(v: u16) -> u8 {
    (v >> 5) as u8
}

/// Validate the five current-limit settings and re-encode them in place
/// into wire format.
///
/// An entry above 90 fails the whole call with `InvalidArg`; entries before
/// the first offending one are already transformed at that point, the
/// offending entry and the ones after it are left as given.
pub fn validate_transform_current(values: &mut [u8; 5]) -> (r: Result<(), Error>)
    ensures
        r.is_ok() <==> (forall|i: int| 0 <= i < 5 ==> old(values)@[i] <= 90),
        r.is_err() ==> r == Err::<(), Error>(Error::InvalidArg),
        forall|i: int|
            0 <= i < 5 ==> #[trigger] final(values)@[i] == (if old(values)@[i] <= 90
                && (forall|j: int| 0 <= j < i ==> old(values)@[j] <= 90) {
                transform_current(old(values)@[i])
            } else {
                old(values)@[i]
            }),
{
    let mut i: usize = 0;
    while i < 5
        invariant
            i <= 5,
            values@.len() == 5,
            forall|j: int| 0 <= j < i ==> old(values)@[j] <= 90,
            forall|j: int|
                0 <= j < i ==> #[trigger] values@[j] == transform_current(old(values)@[j]),
            forall|j: int| i <= j < 5 ==> #[trigger] values@[j] == old(values)@[j],
        decreases 5 - i,
    {
        let v: u8 = values[i];
        if v > 90 {
            return Err(Error::InvalidArg);
        }
        if v > 64 {
            values[i] = (v - 62) | 0x60;
        }
        i = i + 1;
    }
    Ok(())
}

/// The 10-byte grayscale payload after the first `n` logical values have
/// been placed, each at the 2-byte slot its mapping entry selects:
/// physical channel `p` occupies payload bytes `2*(p-1)` and `2*(p-1)+1`,
/// low byte first. A later logical channel mapped to the same physical
/// channel overwrites an earlier one.
pub open spec fn place_values(mapping: Seq<u8>, values: Seq<u16>, n: int) -> Seq<u8>
    decreases n,
{
    if n <= 0 {
        Seq::new(10, |i: int| 0u8)
    } else {
        let prev = place_values(mapping, values, n - 1);
        let slot = mapping[n - 1] - 1;
        prev.update(2 * slot, low_byte(values[n - 1])).update(2 * slot + 1, high_byte(values[n - 1]))
    }
}

/// A grayscale payload built from in-range mapping entries always covers
/// the five 2-byte register pairs.
pub proof fn lemma_place_values_len(mapping: Seq<u8>, values: Seq<u16>, n: int)
    requires
        mapping.len() == 5,
        forall|k: int| 0 <= k < 5 ==> 1 <= #[trigger] mapping[k] <= 5,
        n <= 5,
    ensures
        place_values(mapping, values, n).len() == 10,
    decreases n,
{
    if n > 0 {
        lemma_place_values_len(mapping, values, n - 1);
    }
}

/// Placing the logical values after channel `i` does not disturb the two
/// bytes that `i` wrote, as long as no later channel maps to the same
/// physical slot.
proof fn lemma_place_values_untouched(mapping: Seq<u8>, values: Seq<u16>, i: int, n: int)
    requires
        mapping.len() == 5,
        values.len() == 5,
        forall|k: int| 0 <= k < 5 ==> 1 <= #[trigger] mapping[k] <= 5,
        forall|k1: int, k2: int| 0 <= k1 < k2 < 5 ==> #[trigger] mapping[k1] != #[trigger] mapping[k2],
        0 <= i < n <= 5,
    ensures
        place_values(mapping, values, n)[2 * (mapping[i] - 1)] == low_byte(values[i]),
        place_values(mapping, values, n)[2 * (mapping[i] - 1) + 1] == high_byte(values[i]),
    decreases n,
{
    lemma_place_values_len(mapping, values, n - 1);
    if n - 1 > i {
        lemma_place_values_untouched(mapping, values, i, n - 1);
        assert(mapping[n - 1] != mapping[i]);
    }
}

/// With an injective mapping, each logical value's two bytes land in the
/// full grayscale payload at the offset of its mapped physical slot, not
/// at its logical position.
pub proof fn lemma_rgbcw_placement(mapping: Seq<u8>, values: Seq<u16>, i: int)
    requires
        mapping.len() == 5,
        values.len() == 5,
        forall|k: int| 0 <= k < 5 ==> 1 <= #[trigger] mapping[k] <= 5,
        forall|k1: int, k2: int| 0 <= k1 < k2 < 5 ==> #[trigger] mapping[k1] != #[trigger] mapping[k2],
        0 <= i < 5,
    ensures
        place_values(mapping, values, 5)[2 * (mapping[i] - 1)] == low_byte(values[i]),
        place_values(mapping, values, 5)[2 * (mapping[i] - 1) + 1] == high_byte(values[i]),
{
    lemma_place_values_untouched(mapping, values, i, 5);
}

/// Whether `a` is one of the five grayscale-write addresses this driver
/// issues: the base address with the sleep-disable bit and one grayscale
/// sub-address.
pub open spec fn is_grayscale_addr(a: u8) -> bool {
    ||| a == ADDR_BASE | SLEEP_DISABLE_MASK | OUT1_GRAYSCALE_MASK
    ||| a == ADDR_BASE | SLEEP_DISABLE_MASK | OUT2_GRAYSCALE_MASK
    ||| a == ADDR_BASE | SLEEP_DISABLE_MASK | OUT3_GRAYSCALE_MASK
    ||| a == ADDR_BASE | SLEEP_DISABLE_MASK | OUT4_GRAYSCALE_MASK
    ||| a == ADDR_BASE | SLEEP_DISABLE_MASK | OUT5_GRAYSCALE_MASK
}

/// Current limits up to 64 are stored on the wire unchanged.
pub proof fn lemma_transform_keeps_low_range(v: u8)
    requires
        v <= 64,
    ensures
        transform_current(v) == v,
{
}

/// Current limits above 64 and within range are re-encoded into the
/// high-range representation: 62 subtracted, then flag 0x60 set.
pub proof fn lemma_transform_high_range(v: u8)
    requires
        64 < v <= 90,
    ensures
        transform_current(v) == (((v - 62) as u8) | 0x60),
{
}

} // verus!
