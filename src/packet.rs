use vstd::prelude::*;

use crate::modes::{Colors, Circle, ModeId, Speed};

verus! {

/// The byte that carries both the speed (low bits) and the frame index of a
/// multi-frame command (top three bits): `speed + (frame << 5)`.
pub open spec fn speed_byte(speed: Speed, frame: u8) -> u8
    recommends
        frame < 8,
{
    (speed.value() + frame * 32) as u8
}

/// The 32 bytes of a full command frame: the fixed header, the mode code,
/// the speed byte, the text color in (green, red, blue) order, then the ring.
pub open spec fn packet_wire(mode: ModeId, speed: u8, colors: Colors) -> Seq<u8> {
    seq![0x02u8, 0x4cu8, 0x00u8, mode.code(), speed] + colors.text_color.grb()
        + colors.circle.wire()
}

/// The speed byte splits back into the speed and the frame index it was made
/// from: its low five bits are the speed value, its top three the frame
/// index, so no two pairs share a byte.
pub proof fn lemma_speed_byte_decodes(speed: Speed, frame: u8)
    requires
        frame < 8,
    ensures
        speed_byte(speed, frame) == speed.value() + frame * 32,
        speed_byte(speed, frame) & 0x1f == speed.value(),
        speed_byte(speed, frame) >> 5 == frame,
{
    let v = speed.value();
    let b = speed_byte(speed, frame);
    assert(b == v + frame * 32);
    assert(b & 0x1f == v && b >> 5 == frame) by (bit_vector)
        requires
            v <= 4,
            frame < 8,
            b == v + frame * 32,
    ;
}

/// Two (speed, frame index) pairs give the same speed byte only if they are
/// the same pair.
pub proof fn lemma_speed_byte_injective(s1: Speed, f1: u8, s2: Speed, f2: u8)
    requires
        f1 < 8,
        f2 < 8,
        speed_byte(s1, f1) == speed_byte(s2, f2),
    ensures
        s1 == s2,
        f1 == f2,
{
    lemma_speed_byte_decodes(s1, f1);
    lemma_speed_byte_decodes(s2, f2);
}

/// Packs `speed` and the frame index `frame` (0 to 7) into one byte.
pub fn pack_speed(speed: Speed, frame: u8) -> (r: u8)
    requires
        frame < 8,
    ensures
        r == speed_byte(speed, frame),
{
    let shifted = frame << 5u8;
    assert(shifted == frame * 32) by (bit_vector)
        requires
            frame < 8,
            shifted == frame << 5u8,
    ;
    speed.value() + shifted
}

/// A full 32-byte command frame, field by field.
pub struct Packet {
    pub header: [u8; 3],
    pub mode: ModeId,
    pub speed: u8,
    /// The text-zone color, in (green, red, blue) order.
    pub text_color: [u8; 3],
    /// The ring, each position in (red, green, blue) order.
    pub circle: Circle,
}

impl Packet {
    /// The bytes this packet puts on the wire.
    pub open spec fn wire(self) -> Seq<u8> {
        self.header@ + seq![self.mode.code(), self.speed] + self.text_color@ + self.circle.wire()
    }

    /// The first frame of `mode` at `speed`.
    pub fn new(mode: ModeId, speed: Speed, colors: Colors) -> (r: Packet)
        ensures
            r.wire() == packet_wire(mode, speed_byte(speed, 0), colors),
            r.mode == mode,
            r.speed == speed_byte(speed, 0),
            r.circle == colors.circle,
    {
        Packet::with_num(mode, speed, 0, colors)
    }

    /// Frame number `num_color` (0 to 7) of `mode` at `speed`.
    pub fn with_num(mode: ModeId, speed: Speed, num_color: u8, colors: Colors) -> (r: Packet)
        requires
            num_color < 8,
        ensures
            r.wire() == packet_wire(mode, speed_byte(speed, num_color), colors),
            r.header@ == seq![0x02u8, 0x4cu8, 0x00u8],
            r.mode == mode,
            r.speed == speed_byte(speed, num_color),
            r.text_color@ == colors.text_color.grb(),
            r.circle == colors.circle,
    {
        let txt = colors.text_color;
        let r = Packet {
            header: [0x02, 0x4c, 0x00],
            mode,
            speed: pack_speed(speed, num_color),
            text_color: [txt.green, txt.red, txt.blue],
            circle: colors.circle,
        };
        assert(r.wire() =~= packet_wire(mode, speed_byte(speed, num_color), colors));
        r
    }

    /// Serializes the packet, field by field, into the 32 bytes sent to the
    /// device.
    pub fn into_bytes(self) -> (r: [u8; 32])
        ensures
            r@ == self.wire(),
            r@.len() == 32,
    {
        let c = self.circle;
        let r = [
            self.header[0], self.header[1], self.header[2],
            self.mode.code(), self.speed,
            self.text_color[0], self.text_color[1], self.text_color[2],
            c.north.red, c.north.green, c.north.blue,
            c.north_east.red, c.north_east.green, c.north_east.blue,
            c.east.red, c.east.green, c.east.blue,
            c.south_east.red, c.south_east.green, c.south_east.blue,
            c.south.red, c.south.green, c.south.blue,
            c.south_west.red, c.south_west.green, c.south_west.blue,
            c.west.red, c.west.green, c.west.blue,
            c.north_west.red, c.north_west.green, c.north_west.blue,
        ];
        assert(r@ =~= self.wire());
        r
    }
}

} // verus!
