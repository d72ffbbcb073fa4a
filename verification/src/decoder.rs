//! Decoding a complete 23-byte telemetry frame into the three raw
//! fixed-point readings it carries. Each reading is a 48-bit
//! little-endian code widened into a 64-bit signed container by two zero
//! bytes at the most-significant end, exactly as the wire format has it;
//! the physical value is the code divided by a field-specific power of
//! two (2^24 for voltage and wattage, 2^30 for current), a floating-point
//! step that callers perform on the codes returned here.

use vstd::prelude::*;

use crate::reassembler::TELEMETRY_FRAME_LEN;

verus! {

/// Offset of the voltage code within a telemetry frame.
pub const VOLTAGE_OFFSET: usize = 5;

/// Offset of the current code within a telemetry frame.
pub const CURRENT_OFFSET: usize = 11;

/// Offset of the wattage code within a telemetry frame.
pub const WATTAGE_OFFSET: usize = 17;

/// Binary scale (as a power of two) of the voltage and wattage codes.
pub const VOLTAGE_SCALE_BITS: u32 = 24;

/// Binary scale (as a power of two) of the current code.
pub const CURRENT_SCALE_BITS: u32 = 30;

/// The value of six bytes read as a little-endian 48-bit unsigned
/// integer.
pub open spec fn le48(s: Seq<u8>) -> int
    recommends
        s.len() == 6,
{
    s[0] + 256 * (s[1] + 256 * (s[2] + 256 * (s[3] + 256 * (s[4] + 256 * s[5]))))
}

/// One decoded telemetry reading, as the raw fixed-point codes from the
/// frame. Each code sits in a signed 64-bit container but is always in
/// `0 .. 2^48`: the widening appends zero bytes, so a code whose 48-bit
/// pattern would be negative comes out as the corresponding large
/// positive value, an asymmetry the wire format owners chose.
pub struct Measurement {
    /// Voltage code; volts are `voltage_code / 2^24`.
    pub voltage_code: i64,
    /// Current code; amperes are `current_code / 2^30`.
    pub current_code: i64,
    /// Wattage code; watts are `wattage_code / 2^24`.
    pub wattage_code: i64,
}

/// Read the 48-bit little-endian code at `off`, widened into an `i64` by
/// zero bytes at the most-significant end.
fn read_le48(frame: &[u8], off: usize) -> (r: i64)
    requires
        off + 6 <= frame@.len(),
    ensures
        r == le48(frame@.subrange(off as int, off as int + 6)),
        0 <= r < 0x1_0000_0000_0000,
{
    let b0 = frame[off] as u64;
    let b1 = frame[off + 1] as u64;
    let b2 = frame[off + 2] as u64;
    let b3 = frame[off + 3] as u64;
    let b4 = frame[off + 4] as u64;
    let b5 = frame[off + 5] as u64;
    let acc: u64 = b0 + 256 * (b1 + 256 * (b2 + 256 * (b3 + 256 * (b4 + 256 * b5))));
    proof {
        let s = frame@.subrange(off as int, off as int + 6);
        assert(s[0] == frame@[off as int]);
        assert(s[1] == frame@[off as int + 1]);
        assert(s[2] == frame@[off as int + 2]);
        assert(s[3] == frame@[off as int + 3]);
        assert(s[4] == frame@[off as int + 4]);
        assert(s[5] == frame@[off as int + 5]);
    }
    acc as i64
}

/// Decode a complete telemetry frame into its three raw readings: the
/// 48-bit little-endian codes at the voltage, current and wattage
/// offsets. Total for every 23-byte frame.
pub fn decode_frame(frame: &[u8]) -> (r: Measurement)
    requires
        frame@.len() == TELEMETRY_FRAME_LEN,
    ensures
        r.voltage_code == le48(frame@.subrange(5, 11)),
        r.current_code == le48(frame@.subrange(11, 17)),
        r.wattage_code == le48(frame@.subrange(17, 23)),
        0 <= r.voltage_code < 0x1_0000_0000_0000,
        0 <= r.current_code < 0x1_0000_0000_0000,
        0 <= r.wattage_code < 0x1_0000_0000_0000,
{
    Measurement {
        voltage_code: read_le48(frame, VOLTAGE_OFFSET),
        current_code: read_le48(frame, CURRENT_OFFSET),
        wattage_code: read_le48(frame, WATTAGE_OFFSET),
    }
}

} // verus!
