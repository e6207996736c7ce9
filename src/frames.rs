use vstd::prelude::*;

use crate::modes::{Circle, Color, Colors, Effect, Mode, ModeId, Speed};
use crate::error::CoolerError;
use crate::packet::{pack_speed, packet_wire, speed_byte, Packet};

verus! {

/// The 5-byte command of a mode that takes only a rate:
/// header, mode code, speed value.
pub open spec fn rate_frame(mode: ModeId, speed: Speed) -> Seq<u8> {
    seq![0x02u8, 0x4cu8, 0x00u8, mode.code(), speed.value()]
}

/// One 11-byte `Alternating` command: header, mode code, speed byte, three
/// zero bytes, then `col` in (red, green, blue) order.
pub open spec fn alternating_frame(speed: Speed, frame: u8, col: Color) -> Seq<u8> {
    seq![0x02u8, 0x4cu8, 0x00u8, ModeId::Alternating.code(), speed_byte(speed, frame)]
        + seq![0u8, 0u8, 0u8] + col.rgb()
}

/// The eight 32-byte commands of an animated mode, frame `i` carrying
/// `effect.colors[i]`.
pub open spec fn effect_frames(mode: ModeId, effect: Effect) -> Seq<Seq<u8>> {
    Seq::new(8, |i: int| packet_wire(mode, speed_byte(effect.speed, i as u8), effect.colors@[i]))
}

/// `circle` with the text zone dark.
pub open spec fn ring_only(circle: Circle) -> Colors {
    Colors { text_color: Color::spec_black(), circle }
}

impl Mode {
    /// The commands that put this mode on the device, in the order they are
    /// sent.
    pub open spec fn wire_frames(self) -> Seq<Seq<u8>> {
        match self {
            Mode::Fixed(colors) => seq![packet_wire(ModeId::Fixed, speed_byte(Speed::Medium, 0), colors)],
            Mode::SpectrumWave(speed) => seq![rate_frame(ModeId::SpectrumWave, speed)],
            Mode::Marquee(speed, circle) => seq![
                packet_wire(ModeId::Marquee, speed_byte(speed, 0), ring_only(circle)),
            ],
            Mode::Alternating(speed, col1, col2) => seq![
                alternating_frame(speed, 0, col1),
                alternating_frame(speed, 1, col2),
            ],
            Mode::TaiChi(speed, col1, col2) => seq![
                packet_wire(ModeId::TaiChi, speed_byte(speed, 0), ring_only(Circle::single_lit(col1, 3))),
                packet_wire(ModeId::TaiChi, speed_byte(speed, 1), ring_only(Circle::single_lit(col2, 7))),
            ],
            Mode::WaterCooler(speed) => seq![rate_frame(ModeId::WaterCooler, speed)],
            Mode::Loading(speed, circle) => seq![
                packet_wire(ModeId::Loading, speed_byte(speed, 0), ring_only(circle)),
            ],
            Mode::Fading(effect) => effect_frames(ModeId::Fading, effect),
            Mode::CoveringMarquee(effect) => effect_frames(ModeId::CoveringMarquee, effect),
            Mode::Breathing(effect) => effect_frames(ModeId::Breathing, effect),
            Mode::Pulse(effect) => effect_frames(ModeId::Pulse, effect),
        }
    }

    /// Encodes this mode into the commands to send, in order.
    pub fn frames(&self) -> (r: Vec<Vec<u8>>)
        ensures
            r@.map_values(|f: Vec<u8>| f@) == self.wire_frames(),
    {
        let black = Color::black();
        match *self {
            Mode::Fixed(colors) => single(Packet::new(ModeId::Fixed, Speed::Medium, colors)),
            Mode::SpectrumWave(speed) => {
                let mut out: Vec<Vec<u8>> = Vec::new();
                out.push(rate_command(ModeId::SpectrumWave, speed));
                assert(out@.map_values(|f: Vec<u8>| f@) =~= self.wire_frames());
                out
            },
            Mode::Marquee(speed, circle) => single(
                Packet::new(ModeId::Marquee, speed, Colors::new(black, circle)),
            ),
            Mode::Alternating(speed, col1, col2) => {
                let mut out: Vec<Vec<u8>> = Vec::new();
                out.push(alternating_command(speed, 0, col1));
                out.push(alternating_command(speed, 1, col2));
                assert(out@.map_values(|f: Vec<u8>| f@) =~= self.wire_frames());
                out
            },
            Mode::TaiChi(speed, col1, col2) => {
                let first = Colors::new(
                    black,
                    Circle::new(black, black, black, col1, black, black, black, black),
                );
                let second = Colors::new(
                    black,
                    Circle::new(black, black, black, black, black, black, black, col2),
                );
                let mut out: Vec<Vec<u8>> = Vec::new();
                out.push(packet_command(Packet::new(ModeId::TaiChi, speed, first)));
                out.push(packet_command(Packet::with_num(ModeId::TaiChi, speed, 1, second)));
                assert(out@.map_values(|f: Vec<u8>| f@) =~= self.wire_frames());
                out
            },
            Mode::WaterCooler(speed) => {
                let mut out: Vec<Vec<u8>> = Vec::new();
                out.push(rate_command(ModeId::WaterCooler, speed));
                assert(out@.map_values(|f: Vec<u8>| f@) =~= self.wire_frames());
                out
            },
            Mode::Loading(speed, circle) => single(
                Packet::new(ModeId::Loading, speed, Colors::new(black, circle)),
            ),
            Mode::Fading(effect) => effect_commands(ModeId::Fading, &effect),
            Mode::CoveringMarquee(effect) => effect_commands(ModeId::CoveringMarquee, &effect),
            Mode::Breathing(effect) => effect_commands(ModeId::Breathing, &effect),
            Mode::Pulse(effect) => effect_commands(ModeId::Pulse, &effect),
        }
    }
}

fn packet_command(p: Packet) -> (r: Vec<u8>)
    ensures
        r@ == p.wire(),
{
    let bytes = p.into_bytes();
    vstd::slice::slice_to_vec(bytes.as_slice())
}

fn single(p: Packet) -> (r: Vec<Vec<u8>>)
    ensures
        r@.map_values(|f: Vec<u8>| f@) == seq![p.wire()],
{
    let mut out: Vec<Vec<u8>> = Vec::new();
    out.push(packet_command(p));
    assert(out@.map_values(|f: Vec<u8>| f@) =~= seq![p.wire()]);
    out
}

fn rate_command(mode: ModeId, speed: Speed) -> (r: Vec<u8>)
    ensures
        r@ == rate_frame(mode, speed),
{
    let v = vec![0x02u8, 0x4cu8, 0x00u8, mode.code(), speed.value()];
    assert(v@ =~= rate_frame(mode, speed));
    v
}

fn alternating_command(speed: Speed, frame: u8, col: Color) -> (r: Vec<u8>)
    requires
        frame < 8,
    ensures
        r@ == alternating_frame(speed, frame, col),
{
    let v = vec![
        0x02u8, 0x4cu8, 0x00u8, ModeId::Alternating.code(), pack_speed(speed, frame),
        0u8, 0u8, 0u8, col.red, col.green, col.blue,
    ];
    assert(v@ =~= alternating_frame(speed, frame, col));
    v
}

fn effect_commands(mode: ModeId, effect: &Effect) -> (r: Vec<Vec<u8>>)
    ensures
        r@.map_values(|f: Vec<u8>| f@) == effect_frames(mode, *effect),
{
    let mut out: Vec<Vec<u8>> = Vec::new();
    let mut i: usize = 0;
    while i < 8
        invariant
            i <= 8,
            out@.map_values(|f: Vec<u8>| f@) =~= effect_frames(mode, *effect).take(i as int),
        decreases 8 - i,
    {
        let p = Packet::with_num(mode, effect.speed, i as u8, effect.colors[i]);
        assert(p.wire() == effect_frames(mode, *effect)[i as int]);
        let ghost before = out@;
        out.push(packet_command(p));
        assert(out@.map_values(|f: Vec<u8>| f@) =~= before.map_values(|f: Vec<u8>| f@).push(p.wire()));
        i += 1;
    }
    assert(out@.map_values(|f: Vec<u8>| f@) =~= effect_frames(mode, *effect));
    out
}


/// The lowest fan duty, in percent, that the device accepts.
pub const FAN_SPEED_MIN: u8 = 25;

/// The lowest pump duty, in percent, that the device accepts.
pub const PUMP_SPEED_MIN: u8 = 60;

/// The highest fan or pump duty, in percent.
pub const DUTY_MAX: u8 = 100;

/// The 5-byte command that sets a fan (`channel` 0x40) or pump (`channel`
/// 0x00) duty.
pub open spec fn duty_frame(channel: u8, duty: u8) -> Seq<u8> {
    seq![0x02u8, 0x4du8, channel, 0x00u8, duty]
}

fn duty_command(channel: u8, duty: u8) -> (r: Vec<u8>)
    ensures
        r@ == duty_frame(channel, duty),
{
    let v = vec![0x02u8, 0x4du8, channel, 0x00u8, duty];
    assert(v@ =~= duty_frame(channel, duty));
    v
}

/// The command that sets the fan duty to `speed` percent, which must lie in
/// 25..=100; any other value is refused before a command exists to send.
pub fn fan_speed_command(speed: u8) -> (r: Result<Vec<u8>, CoolerError>)
    ensures
        match r {
            Ok(f) => 25 <= speed <= 100 && f@ == duty_frame(0x40, speed),
            Err(e) => !(25 <= speed <= 100) && e == CoolerError::InvalidParameter,
        },
{
    if speed < FAN_SPEED_MIN || speed > DUTY_MAX {
        return Err(CoolerError::InvalidParameter);
    }
    Ok(duty_command(0x40, speed))
}

/// The command that sets the pump duty to `speed` percent, which must lie in
/// 60..=100; any other value is refused before a command exists to send.
pub fn pump_speed_command(speed: u8) -> (r: Result<Vec<u8>, CoolerError>)
    ensures
        match r {
            Ok(f) => 60 <= speed <= 100 && f@ == duty_frame(0x00, speed),
            Err(e) => !(60 <= speed <= 100) && e == CoolerError::InvalidParameter,
        },
{
    if speed < PUMP_SPEED_MIN || speed > DUTY_MAX {
        return Err(CoolerError::InvalidParameter);
    }
    Ok(duty_command(0x00, speed))
}


/// Where each field sits in a 32-byte command: the mode code at byte 3, the
/// speed byte at 4, the text color in (green, red, blue) order at 5..8, and
/// ring position `k` in (red, green, blue) order at `8 + 3k .. 11 + 3k`.
pub proof fn lemma_packet_layout(mode: ModeId, speed: u8, colors: Colors)
    ensures
        packet_wire(mode, speed, colors).len() == 32,
        packet_wire(mode, speed, colors).subrange(0, 3) == seq![0x02u8, 0x4cu8, 0x00u8],
        packet_wire(mode, speed, colors)[3] == mode.code(),
        packet_wire(mode, speed, colors)[4] == speed,
        packet_wire(mode, speed, colors).subrange(5, 8) == colors.text_color.grb(),
        forall|k: int|
            0 <= k < 8 ==> #[trigger] packet_wire(mode, speed, colors).subrange(8 + 3 * k, 11 + 3 * k)
                == colors.circle.positions()[k].rgb(),
{
    let p = packet_wire(mode, speed, colors);
    let c = colors.circle;
    assert(p.subrange(0, 3) =~= seq![0x02u8, 0x4cu8, 0x00u8]);
    assert(p.subrange(5, 8) =~= colors.text_color.grb());
    assert(p.subrange(8, 11) =~= c.north.rgb());
    assert(p.subrange(11, 14) =~= c.north_east.rgb());
    assert(p.subrange(14, 17) =~= c.east.rgb());
    assert(p.subrange(17, 20) =~= c.south_east.rgb());
    assert(p.subrange(20, 23) =~= c.south.rgb());
    assert(p.subrange(23, 26) =~= c.south_west.rgb());
    assert(p.subrange(26, 29) =~= c.west.rgb());
    assert(p.subrange(29, 32) =~= c.north_west.rgb());
    assert forall|k: int| 0 <= k < 8 implies #[trigger] p.subrange(8 + 3 * k, 11 + 3 * k)
        == c.positions()[k].rgb() by {
        if k == 0 {
        } else if k == 1 {
        } else if k == 2 {
        } else if k == 3 {
        } else if k == 4 {
        } else if k == 5 {
        } else if k == 6 {
        } else {
        }
    }
}

/// `Fixed` sends one 32-byte command with frame index 0 at `Medium` speed,
/// carrying the text color in (green, red, blue) order and the ring as given.
pub proof fn lemma_fixed_frames(colors: Colors)
    ensures
        Mode::Fixed(colors).wire_frames().len() == 1,
        Mode::Fixed(colors).wire_frames()[0].len() == 32,
        Mode::Fixed(colors).wire_frames()[0][3] == ModeId::Fixed.code(),
        Mode::Fixed(colors).wire_frames()[0][4] >> 5 == 0,
        Mode::Fixed(colors).wire_frames()[0][4] & 0x1f == Speed::Medium.value(),
        Mode::Fixed(colors).wire_frames()[0].subrange(5, 8)
            == seq![colors.text_color.green, colors.text_color.red, colors.text_color.blue],
        Mode::Fixed(colors).wire_frames()[0].subrange(8, 32) == colors.circle.wire(),
{
    let sb = speed_byte(Speed::Medium, 0);
    let p = packet_wire(ModeId::Fixed, sb, colors);
    lemma_packet_layout(ModeId::Fixed, sb, colors);
    crate::packet::lemma_speed_byte_decodes(Speed::Medium, 0);
    assert(p.subrange(8, 32) =~= colors.circle.wire());
}

/// `Alternating` sends exactly two 11-byte commands, one per color; the second
/// speed byte is the first with bit 5 (frame index 1) set.
pub proof fn lemma_alternating_frames(speed: Speed, col1: Color, col2: Color)
    ensures
        Mode::Alternating(speed, col1, col2).wire_frames().len() == 2,
        Mode::Alternating(speed, col1, col2).wire_frames()[0].len() == 11,
        Mode::Alternating(speed, col1, col2).wire_frames()[1].len() == 11,
        Mode::Alternating(speed, col1, col2).wire_frames()[0][4] & 0x20 == 0,
        Mode::Alternating(speed, col1, col2).wire_frames()[1][4]
            == Mode::Alternating(speed, col1, col2).wire_frames()[0][4] | 0x20,
        Mode::Alternating(speed, col1, col2).wire_frames()[0][4] == speed.value(),
        Mode::Alternating(speed, col1, col2).wire_frames()[0].subrange(8, 11) == col1.rgb(),
        Mode::Alternating(speed, col1, col2).wire_frames()[1].subrange(8, 11) == col2.rgb(),
{
    let f = Mode::Alternating(speed, col1, col2).wire_frames();
    let v = speed.value();
    crate::packet::lemma_speed_byte_decodes(speed, 0);
    crate::packet::lemma_speed_byte_decodes(speed, 1);
    assert(f[0][4] == v);
    assert(f[1][4] == v + 32);
    assert(v & 0x20 == 0 && (v + 32) as u8 == v | 0x20) by (bit_vector)
        requires
            v <= 4,
    ;
    assert(f[0].subrange(8, 11) =~= col1.rgb());
    assert(f[1].subrange(8, 11) =~= col2.rgb());
}

/// `Fading`, `CoveringMarquee`, `Breathing` and `Pulse` send exactly eight
/// 32-byte commands; command `i` has frame index `i`, the effect's speed, and
/// carries `effect.colors[i]` unchanged.
pub proof fn lemma_effect_mode_frames(m: Mode, mode: ModeId, effect: Effect)
    requires
        m == Mode::Fading(effect) && mode == ModeId::Fading
            || m == Mode::CoveringMarquee(effect) && mode == ModeId::CoveringMarquee
            || m == Mode::Breathing(effect) && mode == ModeId::Breathing
            || m == Mode::Pulse(effect) && mode == ModeId::Pulse,
    ensures
        m.wire_frames().len() == 8,
        forall|i: int|
            0 <= i < 8 ==> {
                let f = #[trigger] m.wire_frames()[i];
                &&& f.len() == 32
                &&& f[3] == mode.code()
                &&& f[4] >> 5 == i
                &&& f[4] & 0x1f == effect.speed.value()
                &&& f.subrange(5, 8) == effect.colors@[i].text_color.grb()
                &&& f.subrange(8, 32) == effect.colors@[i].circle.wire()
            },
{
    assert forall|i: int| 0 <= i < 8 implies {
        let f = #[trigger] m.wire_frames()[i];
        &&& f.len() == 32
        &&& f[3] == mode.code()
        &&& f[4] >> 5 == i
        &&& f[4] & 0x1f == effect.speed.value()
        &&& f.subrange(5, 8) == effect.colors@[i].text_color.grb()
        &&& f.subrange(8, 32) == effect.colors@[i].circle.wire()
    } by {
        let sb = speed_byte(effect.speed, i as u8);
        let cs = effect.colors@[i];
        assert(m.wire_frames()[i] == packet_wire(mode, sb, cs));
        lemma_packet_layout(mode, sb, cs);
        crate::packet::lemma_speed_byte_decodes(effect.speed, i as u8);
        assert(packet_wire(mode, sb, cs).subrange(8, 32) =~= cs.circle.wire());
    }
}

/// `TaiChi` sends two 32-byte commands with frame indices 0 and 1; the first
/// ring is dark but for `col1` at ring index 3, the second dark but for
/// `col2` at ring index 7, and both text zones are dark.
pub proof fn lemma_tai_chi_frames(speed: Speed, col1: Color, col2: Color)
    ensures
        Mode::TaiChi(speed, col1, col2).wire_frames().len() == 2,
        Mode::TaiChi(speed, col1, col2).wire_frames()[0].len() == 32,
        Mode::TaiChi(speed, col1, col2).wire_frames()[1].len() == 32,
        Mode::TaiChi(speed, col1, col2).wire_frames()[0][4] >> 5 == 0,
        Mode::TaiChi(speed, col1, col2).wire_frames()[1][4] >> 5 == 1,
        Mode::TaiChi(speed, col1, col2).wire_frames()[0].subrange(5, 8) == Color::spec_black().grb(),
        Mode::TaiChi(speed, col1, col2).wire_frames()[1].subrange(5, 8) == Color::spec_black().grb(),
        forall|k: int|
            0 <= k < 8 ==> #[trigger] Mode::TaiChi(speed, col1, col2).wire_frames()[0].subrange(
                8 + 3 * k,
                11 + 3 * k,
            ) == (if k == 3 {
                col1
            } else {
                Color::spec_black()
            }).rgb(),
        forall|k: int|
            0 <= k < 8 ==> #[trigger] Mode::TaiChi(speed, col1, col2).wire_frames()[1].subrange(
                8 + 3 * k,
                11 + 3 * k,
            ) == (if k == 7 {
                col2
            } else {
                Color::spec_black()
            }).rgb(),
{
    let f = Mode::TaiChi(speed, col1, col2).wire_frames();
    let c0 = ring_only(Circle::single_lit(col1, 3));
    let c1 = ring_only(Circle::single_lit(col2, 7));
    lemma_packet_layout(ModeId::TaiChi, speed_byte(speed, 0), c0);
    lemma_packet_layout(ModeId::TaiChi, speed_byte(speed, 1), c1);
    crate::packet::lemma_speed_byte_decodes(speed, 0);
    crate::packet::lemma_speed_byte_decodes(speed, 1);
    assert forall|k: int| 0 <= k < 8 implies c0.circle.positions()[k] == (if k == 3 {
        col1
    } else {
        Color::spec_black()
    }) && c1.circle.positions()[k] == (if k == 7 {
        col2
    } else {
        Color::spec_black()
    }) by {}
}

} // verus!
