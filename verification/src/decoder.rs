//! Decoding a raw telemetry packet into a controller snapshot.
//!
//! A packet is valid exactly when it is 20 bytes long. The touchpad
//! coordinates and button flags live in a fixed bit layout across bytes
//! 16, 17 and 18; every other byte is ignored.

use vstd::prelude::*;
use crate::snapshot::DaydreamControllerData;

verus! {

/// Touchpad x coordinate: the low five bits of byte 16 shifted up,
/// filled with the top five bits of byte 17.
pub open spec fn spec_touchpad_x(b16: u8, b17: u8) -> u8 {
    (b16 << 3) | ((b17 >> 5) & 0b00011111)
}

/// Touchpad y coordinate: the low five bits of byte 17 shifted up,
/// filled with the top three bits of byte 18.
pub open spec fn spec_touchpad_y(b17: u8, b18: u8) -> u8 {
    (b17 << 3) | ((b18 >> 5) & 0b00000111)
}

/// The snapshot that a valid 20-byte packet decodes to.
///
/// The touch-presence flag is a heuristic, not a documented bit of the
/// protocol: a nonzero byte 17 (the low byte of the touchpad-y encoding)
/// is taken to mean that a finger is on the pad. This is reverse
/// engineered and known to be an approximation.
pub open spec fn spec_snapshot(data: Seq<u8>) -> DaydreamControllerData
    recommends
        data.len() == 20,
{
    DaydreamControllerData {
        touchpad_x: spec_touchpad_x(data[16], data[17]),
        touchpad_y: spec_touchpad_y(data[17], data[18]),
        app: (data[18] & 0b00000100) != 0,
        home: (data[18] & 0b00000010) != 0,
        vol_up: (data[18] & 0b00010000) != 0,
        vol_down: (data[18] & 0b00001000) != 0,
        touch_click: (data[18] & 0b00000001) != 0,
        touch_down: data[17] != 0,
    }
}

/// What decoding returns on any buffer: a snapshot exactly when the
/// buffer is 20 bytes long, a rejection otherwise.
pub open spec fn spec_decode(data: Seq<u8>) -> Option<DaydreamControllerData> {
    if data.len() == 20 {
        Some(spec_snapshot(data))
    } else {
        None
    }
}

/// Decode one raw packet.
///
/// Total and deterministic: every 20-byte buffer yields a snapshot whose
/// fields follow the fixed bit layout, and every buffer of any other
/// length yields `None`. There is no other failure and no state.
pub fn parse_raw_controller_data(data: Vec<u8>) -> (r: Option<DaydreamControllerData>)
    ensures
        r == spec_decode(data@),
        r is Some <==> data@.len() == 20,
{
    if data.len() != 20 {
        return None;
    }

    Some(DaydreamControllerData {
        touchpad_x: (data[16] << 3) | ((data[17] >> 5) & 0b00011111),
        touchpad_y: (data[17] << 3) | ((data[18] >> 5) & 0b00000111),
        app: (data[18] & 0b00000100) != 0,
        home: (data[18] & 0b00000010) != 0,
        vol_up: (data[18] & 0b00010000) != 0,
        vol_down: (data[18] & 0b00001000) != 0,
        touch_click: (data[18] & 0b00000001) != 0,
        touch_down: data[17] != 0,
    })
}

/// Decoding is a function of the buffer contents alone: two buffers that
/// hold the same bytes decode to the same snapshot (or both to `None`),
/// so decoding the same buffer twice yields identical results.
pub proof fn lemma_decode_deterministic(data1: Seq<u8>, data2: Seq<u8>)
    requires
        data1 == data2,
    ensures
        spec_decode(data1) == spec_decode(data2),
{
}

/// A valid packet whose byte 18 is 0b00000101 decodes with `app` and
/// `touch_click` set and the three other byte-18 flags clear; the
/// heuristic `touch_down` flag is clear too whenever byte 17 is zero.
pub proof fn lemma_byte18_app_and_click(data: Seq<u8>)
    requires
        data.len() == 20,
        data[18] == 0b00000101u8,
    ensures
        spec_decode(data) == Some(spec_snapshot(data)),
        spec_snapshot(data).app,
        spec_snapshot(data).touch_click,
        !spec_snapshot(data).home,
        !spec_snapshot(data).vol_up,
        !spec_snapshot(data).vol_down,
        data[17] == 0 ==> !spec_snapshot(data).touch_down,
{
    assert(0b00000101u8 & 0b00000100 != 0) by (bit_vector);
    assert(0b00000101u8 & 0b00000001 != 0) by (bit_vector);
    assert(0b00000101u8 & 0b00000010 == 0) by (bit_vector);
    assert(0b00000101u8 & 0b00010000 == 0) by (bit_vector);
    assert(0b00000101u8 & 0b00001000 == 0) by (bit_vector);
}

} // verus!
