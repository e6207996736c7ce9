use vstd::prelude::*;

verus! {

/// One LED color, as three 8-bit channels.
#[derive(Debug, Clone, Copy, PartialEq, Eq, Structural)]
pub struct Color {
    pub red: u8,
    pub green: u8,
    pub blue: u8,
}

impl Color {
    pub fn new(red: u8, green: u8, blue: u8) -> (r: Color)
        ensures
            r.red == red,
            r.green == green,
            r.blue == blue,
    {
        Color { red, green, blue }
    }

    /// All channels off.
    pub open spec fn spec_black() -> Color {
        Color { red: 0, green: 0, blue: 0 }
    }

    /// All channels off; the color of an unlit LED.
    #[verifier::when_used_as_spec(spec_black)]
    pub fn black() -> (r: Color)
        ensures
            r == Color::spec_black(),
    {
        Color { red: 0, green: 0, blue: 0 }
    }

    /// The channels in plain (red, green, blue) order.
    pub open spec fn rgb(self) -> Seq<u8> {
        seq![self.red, self.green, self.blue]
    }

    /// The channels in the (green, red, blue) order used for the text zone.
    pub open spec fn grb(self) -> Seq<u8> {
        seq![self.green, self.red, self.blue]
    }
}

/// Eight LED colors, one per compass position of the ring, in wire order.
#[derive(Debug, Clone, Copy, PartialEq, Eq, Structural)]
pub struct Circle {
    pub north: Color,
    pub north_east: Color,
    pub east: Color,
    pub south_east: Color,
    pub south: Color,
    pub south_west: Color,
    pub west: Color,
    pub north_west: Color,
}

impl Circle {
    pub fn new(
        north: Color,
        north_east: Color,
        east: Color,
        south_east: Color,
        south: Color,
        south_west: Color,
        west: Color,
        north_west: Color,
    ) -> (r: Circle)
        ensures
            r.positions() == seq![north, north_east, east, south_east, south, south_west, west, north_west],
    {
        Circle { north, north_east, east, south_east, south, south_west, west, north_west }
    }

    /// The ring as a sequence, starting at north and going clockwise.
    pub open spec fn positions(self) -> Seq<Color> {
        seq![
            self.north,
            self.north_east,
            self.east,
            self.south_east,
            self.south,
            self.south_west,
            self.west,
            self.north_west,
        ]
    }

    /// A ring with every position lit in `col`.
    pub open spec fn uniform(col: Color) -> Circle {
        Circle {
            north: col,
            north_east: col,
            east: col,
            south_east: col,
            south: col,
            south_west: col,
            west: col,
            north_west: col,
        }
    }

    /// A ring that is dark except for `col` at ring index `at`.
    pub open spec fn single_lit(col: Color, at: int) -> Circle {
        let pick = |k: int|
            if k == at {
                col
            } else {
                Color::spec_black()
            };
        Circle {
            north: pick(0),
            north_east: pick(1),
            east: pick(2),
            south_east: pick(3),
            south: pick(4),
            south_west: pick(5),
            west: pick(6),
            north_west: pick(7),
        }
    }

    pub fn from_single(col: Color) -> (r: Circle)
        ensures
            r == Circle::uniform(col),
    {
        Circle::new(col, col, col, col, col, col, col, col)
    }

    /// The 24 bytes of the ring on the wire: each position in (red, green,
    /// blue) order, positions in ring order.
    pub open spec fn wire(self) -> Seq<u8> {
        self.north.rgb() + self.north_east.rgb() + self.east.rgb() + self.south_east.rgb()
            + self.south.rgb() + self.south_west.rgb() + self.west.rgb() + self.north_west.rgb()
    }
}

/// Everything drawn in one lighting frame: the text-zone color and the ring.
#[derive(Debug, Clone, Copy, PartialEq, Eq, Structural)]
pub struct Colors {
    pub text_color: Color,
    pub circle: Circle,
}

impl Colors {
    pub fn new(text_color: Color, circle: Circle) -> (r: Colors)
        ensures
            r.text_color == text_color,
            r.circle == circle,
    {
        Colors { text_color, circle }
    }

    pub fn from_single(col: Color) -> (r: Colors)
        ensures
            r.text_color == col,
            r.circle == Circle::uniform(col),
    {
        Colors::new(col, Circle::from_single(col))
    }

    pub fn from_single_with_text(txt: Color, col: Color) -> (r: Colors)
        ensures
            r.text_color == txt,
            r.circle == Circle::uniform(col),
    {
        Colors::new(txt, Circle::from_single(col))
    }
}

/// A ring lit in a single color.
#[derive(Debug, Clone, Copy, PartialEq, Eq, Structural)]
pub struct SingleColorCircle {
    pub color: Color,
}

/// The rate at which an animated mode runs.
#[derive(Debug, Clone, Copy, PartialEq, Eq, Structural)]
pub enum Speed {
    VerySlow,
    Slow,
    Medium,
    Fast,
    VeryFast,
}

impl Speed {
    pub open spec fn spec_value(self) -> u8 {
        match self {
            Speed::VerySlow => 0,
            Speed::Slow => 1,
            Speed::Medium => 2,
            Speed::Fast => 3,
            Speed::VeryFast => 4,
        }
    }

    /// The numeric wire value, 0 for `VerySlow` up to 4 for `VeryFast`.
    #[verifier::when_used_as_spec(spec_value)]
    pub fn value(self) -> (r: u8)
        ensures
            r == self.spec_value(),
            r <= 4,
    {
        match self {
            Speed::VerySlow => 0,
            Speed::Slow => 1,
            Speed::Medium => 2,
            Speed::Fast => 3,
            Speed::VeryFast => 4,
        }
    }
}

/// The wire code of a lighting mode. The last four have no `Mode` variant.
#[derive(Debug, Clone, Copy, PartialEq, Eq, Structural)]
pub enum ModeId {
    Fixed,
    Fading,
    SpectrumWave,
    Marquee,
    CoveringMarquee,
    Alternating,
    Breathing,
    Pulse,
    TaiChi,
    WaterCooler,
    Loading,
    AlternatingRotate,
    Stars,
    Fixed2,
    Blinky,
}

impl ModeId {
    pub open spec fn spec_code(self) -> u8 {
        match self {
            ModeId::Fixed => 0,
            ModeId::Fading => 1,
            ModeId::SpectrumWave => 2,
            ModeId::Marquee => 3,
            ModeId::CoveringMarquee => 4,
            ModeId::Alternating => 5,
            ModeId::Breathing => 6,
            ModeId::Pulse => 7,
            ModeId::TaiChi => 8,
            ModeId::WaterCooler => 9,
            ModeId::Loading => 10,
            ModeId::AlternatingRotate => 11,
            ModeId::Stars => 12,
            ModeId::Fixed2 => 13,
            ModeId::Blinky => 14,
        }
    }

    /// The numeric code sent to the device, 0 to 14.
    #[verifier::when_used_as_spec(spec_code)]
    pub fn code(self) -> (r: u8)
        ensures
            r == self.spec_code(),
            r <= 14,
    {
        match self {
            ModeId::Fixed => 0,
            ModeId::Fading => 1,
            ModeId::SpectrumWave => 2,
            ModeId::Marquee => 3,
            ModeId::CoveringMarquee => 4,
            ModeId::Alternating => 5,
            ModeId::Breathing => 6,
            ModeId::Pulse => 7,
            ModeId::TaiChi => 8,
            ModeId::WaterCooler => 9,
            ModeId::Loading => 10,
            ModeId::AlternatingRotate => 11,
            ModeId::Stars => 12,
            ModeId::Fixed2 => 13,
            ModeId::Blinky => 14,
        }
    }
}

/// An animation through eight frames at one speed.
#[derive(Debug, Clone, Copy)]
pub struct Effect {
    pub colors: [Colors; 8],
    pub speed: Speed,
}

/// What the ring and the text zone should display.
///
/// `Fading` and `CoveringMarquee` accept a full ring per frame, but the
/// device is only known to honour a single color per ring in those modes.
/// How `WaterCooler` takes a color is not known.
#[derive(Debug, Clone, Copy)]
pub enum Mode {
    Fixed(Colors),
    Fading(Effect),
    SpectrumWave(Speed),
    Marquee(Speed, Circle),
    CoveringMarquee(Effect),
    Alternating(Speed, Color, Color),
    Breathing(Effect),
    Pulse(Effect),
    TaiChi(Speed, Color, Color),
    WaterCooler(Speed),
    Loading(Speed, Circle),
}

} // verus!
