//! Bit encoding for the single on-board WS2812 (addressable RGB) pixel.
//!
//! A pixel takes 24 bits in **GRB** order, most significant bit first. Each
//! bit is a high pulse followed by a low pulse; the lengths, in RMT ticks of
//! 12.5 ns, tell a 0 from a 1. The device build hands the pulses computed
//! here to the RMT peripheral.

use vstd::prelude::*;

verus! {

/// High time of a 0 bit (0.35 us) in ticks.
pub const T0H: u16 = 28;

/// Low time of a 0 bit (0.8 us) in ticks.
pub const T0L: u16 = 64;

/// High time of a 1 bit (0.7 us) in ticks.
pub const T1H: u16 = 56;

/// Low time of a 1 bit (0.6 us) in ticks.
pub const T1L: u16 = 48;

/// Bits sent per pixel.
pub const PIXEL_BITS: usize = 24;

/// The 24-bit wire word of a color: green, then red, then blue.
pub open spec fn grb(r: u8, g: u8, b: u8) -> u32 {
    ((g as u32) << 16u32) | ((r as u32) << 8u32) | (b as u32)
}

/// The `i`-th bit sent for a wire word, most significant first.
pub open spec fn wire_bit(word: u32, i: u32) -> bool {
    (word >> ((23 - i) as u32)) & 1u32 == 1u32
}

/// The bit `k` (0 = least significant) of a byte.
pub open spec fn byte_bit(x: u8, k: u32) -> bool {
    (x >> k) & 1u8 == 1u8
}

/// The (high, low) tick lengths of one bit.
pub open spec fn pulse_for(bit: bool) -> (u16, u16) {
    if bit {
        (T1H, T1L)
    } else {
        (T0H, T0L)
    }
}

/// The wire word of a color.
pub fn grb_word(r: u8, g: u8, b: u8) -> (w: u32)
    ensures
        w == grb(r, g, b),
        w < 0x100_0000,
{
    let w = ((g as u32) << 16u32) | ((r as u32) << 8u32) | (b as u32);
    assert(((g as u32) << 16u32) | ((r as u32) << 8u32) | (b as u32) < 0x100_0000) by (bit_vector);
    w
}

/// The (high, low) tick lengths of one bit.
pub fn pulse(bit: bool) -> (p: (u16, u16))
    ensures
        p == pulse_for(bit),
{
    if bit {
        (T1H, T1L)
    } else {
        (T0H, T0L)
    }
}

/// The 24 pulses that set the pixel to a color, in the order they are sent.
pub fn pixel_pulses(r: u8, g: u8, b: u8) -> (pulses: Vec<(u16, u16)>)
    ensures
        pulses@.len() == PIXEL_BITS,
        forall|i: int| 0 <= i < PIXEL_BITS ==> #[trigger] pulses@[i] == pulse_for(wire_bit(grb(r, g, b), i as u32)),
{
    let word = grb_word(r, g, b);
    let mut pulses: Vec<(u16, u16)> = Vec::new();
    let mut i: u32 = 0;
    while i < 24
        invariant
            i <= 24,
            word == grb(r, g, b),
            pulses@.len() == i,
            forall|j: int| 0 <= j < i ==> #[trigger] pulses@[j] == pulse_for(wire_bit(word, j as u32)),
        decreases 24 - i,
    {
        let bit = (word >> (23 - i)) & 1 == 1;
        pulses.push(pulse(bit));
        i += 1;
    }
    pulses
}

/// Wire-order law: the 24 bits go out green first, then red, then blue, each
/// byte most significant bit first.
pub proof fn law_grb_msb_first(r: u8, g: u8, b: u8, k: u32)
    requires
        k < 8,
    ensures
        wire_bit(grb(r, g, b), k) == byte_bit(g, (7 - k) as u32),
        wire_bit(grb(r, g, b), (8 + k) as u32) == byte_bit(r, (7 - k) as u32),
        wire_bit(grb(r, g, b), (16 + k) as u32) == byte_bit(b, (7 - k) as u32),
{
    let w = grb(r, g, b);
    let s: u32 = (7 - k) as u32;
    let s_green: u32 = (23 - k) as u32;
    let s_red: u32 = (15 - k) as u32;
    assert((w >> s_green) & 1u32 == 1u32 <==> (g >> s) & 1u8 == 1u8) by (bit_vector)
        requires
            w == ((g as u32) << 16u32) | ((r as u32) << 8u32) | (b as u32),
            s < 8u32,
            s_green == s + 16u32,
    ;
    assert((w >> s_red) & 1u32 == 1u32 <==> (r >> s) & 1u8 == 1u8) by (bit_vector)
        requires
            w == ((g as u32) << 16u32) | ((r as u32) << 8u32) | (b as u32),
            s < 8u32,
            s_red == s + 8u32,
    ;
    assert((w >> s) & 1u32 == 1u32 <==> (b >> s) & 1u8 == 1u8) by (bit_vector)
        requires
            w == ((g as u32) << 16u32) | ((r as u32) << 8u32) | (b as u32),
            s < 8u32,
    ;
}

} // verus!
