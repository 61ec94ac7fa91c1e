//! Volumes. A volume is a single precision float, held here by its bits:
//! the top bit is the sign, the lower thirty-one the magnitude. Magnitudes
//! order as the numbers do, up to infinity; those above it are not numbers.

use vstd::prelude::*;

verus! {

/// The bits of 0.0.
pub const SILENT: u32 = 0;

/// The bits of 0.5, the volume that a player starts with.
pub const HALF: u32 = 0x3f00_0000;

/// The bits of 1.0.
pub const FULL: u32 = 0x3f80_0000;

/// The bits of infinity.
pub const INFINITE: u32 = 0x7f80_0000;

/// The sign bit.
pub const SIGN: u32 = 0x8000_0000;

/// The magnitude that the bits hold below the sign.
pub open spec fn magnitude(bits: u32) -> int {
    if bits >= SIGN {
        bits - SIGN
    } else {
        bits as int
    }
}

/// Whether the bits are no number.
pub open spec fn is_nan(bits: u32) -> bool {
    magnitude(bits) > INFINITE
}

/// Where a number stands among the numbers: of two, the smaller one has the
/// smaller rank, and both zeros have rank 0.
pub open spec fn rank(bits: u32) -> int {
    if bits >= SIGN {
        -magnitude(bits)
    } else {
        magnitude(bits)
    }
}

/// Whether a volume can be handed to the sink: from 0.0 to 1.0, or no number.
pub open spec fn in_range(bits: u32) -> bool {
    is_nan(bits) || rank(SILENT) <= rank(bits) <= rank(FULL)
}

/// The volume brought into the range from 0.0 to 1.0.
pub open spec fn clamped(bits: u32) -> u32 {
    if in_range(bits) {
        bits
    } else if rank(bits) < rank(SILENT) {
        SILENT
    } else {
        FULL
    }
}

/// Brings a volume into the range from 0.0 to 1.0. What is in it stays, the
/// negative zero too, and what is no number stays as it is.
pub fn clamp(bits: u32) -> (result: u32)
    ensures
        result == clamped(bits),
        bits <= 0x3f80_0000 || 0x7f80_0000 < bits <= 0x8000_0000 || 0xff80_0000 < bits ==> result
            == bits,
        0x3f80_0000 < bits <= 0x7f80_0000 ==> result == 0x3f80_0000,
        0x8000_0000 < bits <= 0xff80_0000 ==> result == 0,
{
    if bits >= SIGN {
        if bits == SIGN || bits > SIGN + INFINITE {
            bits
        } else {
            SILENT
        }
    } else if bits > FULL && bits <= INFINITE {
        FULL
    } else {
        bits
    }
}

/// A clamped volume is in range, and clamping it again changes nothing.
pub proof fn law_clamp_settles(bits: u32)
    ensures
        in_range(clamped(bits)),
        clamped(clamped(bits)) == clamped(bits),
{
}

/// Clamping keeps the order of two numbers.
pub proof fn law_clamp_keeps_order(low: u32, high: u32)
    requires
        !is_nan(low),
        !is_nan(high),
        rank(low) <= rank(high),
    ensures
        rank(clamped(low)) <= rank(clamped(high)),
{
}

/// A volume from 0.0 to 1.0 is kept as it is, bit for bit; one above becomes
/// 1.0, infinity too; one below becomes 0.0; the negative zero, and what is no
/// number, is kept.
pub proof fn law_clamp_keeps_range(bits: u32)
    ensures
        bits <= 0x3f80_0000 ==> clamped(bits) == bits,
        0x3f80_0000 <= bits <= 0x7f80_0000 ==> clamped(bits) == 0x3f80_0000,
        0x7f80_0000 < bits <= 0x8000_0000 ==> clamped(bits) == bits,
        0x8000_0000 < bits <= 0xff80_0000 ==> clamped(bits) == 0,
        0xff80_0000 < bits ==> clamped(bits) == bits,
{
}

/// A number is clamped to the nearest volume: no other one in range lies in
/// between.
pub proof fn law_clamp_is_nearest(bits: u32, other: u32)
    requires
        !is_nan(bits),
        !is_nan(other),
        in_range(other),
    ensures
        !is_nan(clamped(bits)),
        rank(bits) <= rank(clamped(bits)) ==> rank(other) <= rank(bits) || rank(clamped(bits))
            <= rank(other),
        rank(bits) >= rank(clamped(bits)) ==> rank(other) >= rank(bits) || rank(clamped(bits))
            >= rank(other),
{
}

} // verus!
