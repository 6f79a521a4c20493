use vstd::prelude::*;

use crate::errors::KondisError;
use crate::ftms::{spec_le_val, FTMSData};

verus! {

/// Telemetry notifications are variable-length records: a 2-byte
/// little-endian flags word, then one field per set flag bit, in bit order.
/// Field presence and width per bit: speed (bit 0, 2 bytes), cadence (bit 1,
/// 2 bytes), distance (bit 2, 3 bytes), resistance (bit 3, 2 bytes, signed),
/// power (bit 4, 1 byte), calories (bit 5, 2 bytes), heart rate (bit 6,
/// 1 byte), elapsed time (bit 7, 2 bytes). Flag bits above 7 are unknown and
/// skipped; a field absent from a payload keeps its previous value.

/// Whether a flag bit is set in the flags word.
pub open spec fn spec_has_flag(flags: u16, bit: u16) -> bool {
    flags & bit != 0
}

/// The width a field contributes when present.
pub open spec fn spec_field_width(present: bool, width: int) -> int {
    if present {
        width
    } else {
        0
    }
}

/// Offset of the speed field.
pub open spec fn spec_off_speed(flags: u16) -> int {
    2
}

/// Offset of the cadence field.
pub open spec fn spec_off_cadence(flags: u16) -> int {
    spec_off_speed(flags) + spec_field_width(spec_has_flag(flags, 0x01), 2)
}

/// Offset of the distance field.
pub open spec fn spec_off_distance(flags: u16) -> int {
    spec_off_cadence(flags) + spec_field_width(spec_has_flag(flags, 0x02), 2)
}

/// Offset of the resistance field.
pub open spec fn spec_off_resistance(flags: u16) -> int {
    spec_off_distance(flags) + spec_field_width(spec_has_flag(flags, 0x04), 3)
}

/// Offset of the power field.
pub open spec fn spec_off_power(flags: u16) -> int {
    spec_off_resistance(flags) + spec_field_width(spec_has_flag(flags, 0x08), 2)
}

/// Offset of the calories field.
pub open spec fn spec_off_calories(flags: u16) -> int {
    spec_off_power(flags) + spec_field_width(spec_has_flag(flags, 0x10), 1)
}

/// Offset of the heart-rate field.
pub open spec fn spec_off_heart_rate(flags: u16) -> int {
    spec_off_calories(flags) + spec_field_width(spec_has_flag(flags, 0x20), 2)
}

/// Offset of the elapsed-time field.
pub open spec fn spec_off_time(flags: u16) -> int {
    spec_off_heart_rate(flags) + spec_field_width(spec_has_flag(flags, 0x40), 1)
}

/// The byte length a payload with the given flags word must have at least;
/// bytes beyond it belong to unknown flags and are skipped.
pub open spec fn spec_required_len(flags: u16) -> int {
    spec_off_time(flags) + spec_field_width(spec_has_flag(flags, 0x80), 2)
}

/// Unsigned 16-bit field read, little endian.
pub open spec fn spec_le_u16(p: Seq<u8>, i: int) -> u16 {
    (p[i] as u16 + (p[i + 1] as u16) * 256) as u16
}

/// Unsigned 24-bit field read, little endian.
pub open spec fn spec_le_u24(p: Seq<u8>, i: int) -> u32 {
    (p[i] as u32 + (p[i + 1] as u32) * 256 + (p[i + 2] as u32) * 65536) as u32
}

/// Spec decoding of a telemetry payload against the previously known record:
/// `None` marks a malformed payload (shorter than its flags demand); in a
/// well-formed one, each present field takes its wire value and each absent
/// field keeps its previous value.
pub open spec fn spec_decode_telemetry(p: Seq<u8>, prev: FTMSData) -> Option<FTMSData> {
    if p.len() < 2 {
        None
    } else {
        let flags = spec_le_u16(p, 0);
        if p.len() < spec_required_len(flags) {
            None
        } else {
            Some(
                FTMSData {
                    speed: if spec_has_flag(flags, 0x01) {
                        spec_le_u16(p, spec_off_speed(flags))
                    } else {
                        prev.speed
                    },
                    cadence: if spec_has_flag(flags, 0x02) {
                        spec_le_u16(p, spec_off_cadence(flags))
                    } else {
                        prev.cadence
                    },
                    distance: if spec_has_flag(flags, 0x04) {
                        spec_le_u24(p, spec_off_distance(flags))
                    } else {
                        prev.distance
                    },
                    resistance: if spec_has_flag(flags, 0x08) {
                        spec_le_val(p[spec_off_resistance(flags)], p[spec_off_resistance(flags) + 1])
                    } else {
                        prev.resistance
                    },
                    power: if spec_has_flag(flags, 0x10) {
                        p[spec_off_power(flags)]
                    } else {
                        prev.power
                    },
                    calories: if spec_has_flag(flags, 0x20) {
                        spec_le_u16(p, spec_off_calories(flags))
                    } else {
                        prev.calories
                    },
                    heart_rate: if spec_has_flag(flags, 0x40) {
                        p[spec_off_heart_rate(flags)]
                    } else {
                        prev.heart_rate
                    },
                    time: if spec_has_flag(flags, 0x80) {
                        spec_le_u16(p, spec_off_time(flags))
                    } else {
                        prev.time
                    },
                },
            )
        }
    }
}

/// Law: bytes beyond what the known flags demand belong to unknown flags
/// and are skipped — appending them to a payload that is exactly as long
/// as its flags demand never changes what is decoded, and never turns a
/// well-formed payload into a malformed one.
pub proof fn lemma_unknown_trailing_bytes_skipped(p: Seq<u8>, extra: Seq<u8>, prev: FTMSData)
    requires
        p.len() >= 2,
        p.len() == spec_required_len(spec_le_u16(p, 0)),
    ensures
        spec_decode_telemetry(p + extra, prev) == spec_decode_telemetry(p, prev),
{
    let q = p + extra;
    assert(q[0] == p[0] && q[1] == p[1]);
    assert(spec_le_u16(q, 0) == spec_le_u16(p, 0));
    let flags = spec_le_u16(p, 0);
    assert(forall|i: int| 0 <= i < p.len() ==> q[i] == p[i]);
}

/// Read an unsigned 16-bit little-endian field.
fn read_le_u16(p: &Vec<u8>, i: usize) -> (r: u16)
    requires
        i + 2 <= p@.len(),
    ensures
        r == spec_le_u16(p@, i as int),
{
    let n: usize = p.len();
    assert(i + 2 <= n);
    (p[i] as u16) + (p[i + 1] as u16) * 256
}

/// Read an unsigned 24-bit little-endian field.
fn read_le_u24(p: &Vec<u8>, i: usize) -> (r: u32)
    requires
        i + 3 <= p@.len(),
    ensures
        r == spec_le_u24(p@, i as int),
{
    let n: usize = p.len();
    assert(i + 3 <= n);
    (p[i] as u32) + (p[i + 1] as u32) * 256 + (p[i + 2] as u32) * 65536
}

/// Decode a telemetry notification payload into a fresh record, carrying the
/// previous record's value for every absent field. A payload shorter than
/// its flags demand is rejected as a protocol error, never a panic.
pub fn decode_telemetry(payload: &Vec<u8>, prev: &FTMSData) -> (r: Result<
    FTMSData,
    KondisError,
>)
    ensures
        match r {
            Ok(d) => spec_decode_telemetry(payload@, *prev) == Some(d),
            Err(e) => spec_decode_telemetry(payload@, *prev) is None && e
                == KondisError::ProtocolDecode,
        },
{
    if payload.len() < 2 {
        return Err(KondisError::ProtocolDecode);
    }
    let flags: u16 = read_le_u16(payload, 0);
    let mut need: usize = 2;
    if flags & 0x01 != 0 {
        need = need + 2;
    }
    if flags & 0x02 != 0 {
        need = need + 2;
    }
    if flags & 0x04 != 0 {
        need = need + 3;
    }
    if flags & 0x08 != 0 {
        need = need + 2;
    }
    if flags & 0x10 != 0 {
        need = need + 1;
    }
    if flags & 0x20 != 0 {
        need = need + 2;
    }
    if flags & 0x40 != 0 {
        need = need + 1;
    }
    if flags & 0x80 != 0 {
        need = need + 2;
    }
    assert(need == spec_required_len(flags));
    if payload.len() < need {
        return Err(KondisError::ProtocolDecode);
    }
    let mut data: FTMSData = *prev;
    let mut i: usize = 2;
    if flags & 0x01 != 0 {
        data.speed = read_le_u16(payload, i);
        i = i + 2;
    }
    assert(i == spec_off_cadence(flags));
    if flags & 0x02 != 0 {
        data.cadence = read_le_u16(payload, i);
        i = i + 2;
    }
    assert(i == spec_off_distance(flags));
    if flags & 0x04 != 0 {
        data.distance = read_le_u24(payload, i);
        i = i + 3;
    }
    assert(i == spec_off_resistance(flags));
    if flags & 0x08 != 0 {
        data.resistance = crate::ftms::le_val(payload[i], payload[i + 1]);
        i = i + 2;
    }
    assert(i == spec_off_power(flags));
    if flags & 0x10 != 0 {
        data.power = payload[i];
        i = i + 1;
    }
    assert(i == spec_off_calories(flags));
    if flags & 0x20 != 0 {
        data.calories = read_le_u16(payload, i);
        i = i + 2;
    }
    assert(i == spec_off_heart_rate(flags));
    if flags & 0x40 != 0 {
        data.heart_rate = payload[i];
        i = i + 1;
    }
    assert(i == spec_off_time(flags));
    if flags & 0x80 != 0 {
        data.time = read_le_u16(payload, i);
    }
    Ok(data)
}

} // verus!
