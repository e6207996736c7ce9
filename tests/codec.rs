use kraken::{
    fan_speed_command, pump_speed_command, Circle, Color, Colors, CoolerError, Effect, Mode,
    ModeId, Packet, Speed, pack_speed,
};

const RED: Color = Color { red: 255, green: 0, blue: 0 };
const GREEN: Color = Color { red: 0, green: 255, blue: 0 };
const BLUE: Color = Color { red: 0, green: 0, blue: 255 };
const CYAN: Color = Color { red: 0, green: 255, blue: 255 };
const MAGENTA: Color = Color { red: 255, green: 0, blue: 255 };
const YELLOW: Color = Color { red: 255, green: 255, blue: 0 };
const WHITE: Color = Color { red: 255, green: 255, blue: 255 };
const BLACK: Color = Color { red: 0, green: 0, blue: 0 };

fn speeds() -> [Speed; 5] {
    [Speed::VerySlow, Speed::Slow, Speed::Medium, Speed::Fast, Speed::VeryFast]
}

fn rainbow() -> Circle {
    Circle::new(RED, GREEN, BLUE, CYAN, MAGENTA, YELLOW, WHITE, BLACK)
}

fn rgb_bytes(c: Color) -> Vec<u8> {
    vec![c.red, c.green, c.blue]
}

fn sample_effect(speed: Speed) -> Effect {
    let palette = [RED, GREEN, BLUE, CYAN, MAGENTA, YELLOW, WHITE, BLACK];
    let mut colors = [Colors::from_single(BLACK); 8];
    for i in 0..8 {
        colors[i] = Colors::from_single_with_text(palette[i], palette[(i + 3) % 8]);
    }
    colors[0] = Colors::new(RED, rainbow());
    Effect { colors, speed }
}

#[test]
fn color_and_circle_constructors() {
    let c = Color::new(1, 2, 3);
    assert_eq!((c.red, c.green, c.blue), (1, 2, 3));
    assert_eq!(Color::black(), BLACK);
    let ring = rainbow();
    assert_eq!(ring.north, RED);
    assert_eq!(ring.south_east, CYAN);
    assert_eq!(ring.north_west, BLACK);
    let single = Circle::from_single(MAGENTA);
    assert_eq!(single, Circle::new(MAGENTA, MAGENTA, MAGENTA, MAGENTA, MAGENTA, MAGENTA, MAGENTA, MAGENTA));
    let colors = Colors::from_single(YELLOW);
    assert_eq!(colors.text_color, YELLOW);
    assert_eq!(colors.circle, Circle::from_single(YELLOW));
    let colors = Colors::from_single_with_text(WHITE, BLUE);
    assert_eq!(colors.text_color, WHITE);
    assert_eq!(colors.circle, Circle::from_single(BLUE));
}

#[test]
fn speed_and_mode_codes() {
    let values: Vec<u8> = speeds().iter().map(|s| s.value()).collect();
    assert_eq!(values, vec![0, 1, 2, 3, 4]);
    assert_eq!(ModeId::Fixed.code(), 0);
    assert_eq!(ModeId::SpectrumWave.code(), 2);
    assert_eq!(ModeId::Alternating.code(), 5);
    assert_eq!(ModeId::TaiChi.code(), 8);
    assert_eq!(ModeId::Loading.code(), 10);
    assert_eq!(ModeId::Blinky.code(), 14);
}

#[test]
fn speed_byte_packs_speed_and_frame_index() {
    let mut seen = Vec::new();
    for s in speeds() {
        for i in 0u8..8 {
            let p = Packet::with_num(ModeId::Pulse, s, i, Colors::from_single(RED));
            assert_eq!(p.speed, s.value() + (i << 5));
            assert_eq!(pack_speed(s, i), p.speed);
            assert_eq!(p.speed & 0x1f, s.value());
            assert_eq!(p.speed >> 5, i);
            assert!(!seen.contains(&p.speed));
            seen.push(p.speed);
        }
    }
    assert_eq!(Packet::with_num(ModeId::Pulse, Speed::VeryFast, 7, Colors::from_single(RED)).speed, 228);
}

#[test]
fn packet_bytes_layout() {
    let colors = Colors::new(Color::new(10, 20, 30), rainbow());
    let bytes = Packet::with_num(ModeId::Marquee, Speed::Fast, 2, colors).into_bytes();
    let mut expected = vec![0x02, 0x4c, 0x00, 3, 3 + 64, 20, 10, 30];
    for c in [RED, GREEN, BLUE, CYAN, MAGENTA, YELLOW, WHITE, BLACK] {
        expected.extend(rgb_bytes(c));
    }
    assert_eq!(bytes.to_vec(), expected);
    let first = Packet::new(ModeId::Fixed, Speed::Slow, colors);
    assert_eq!(first.speed, 1);
    assert_eq!(first.header, [0x02, 0x4c, 0x00]);
    assert_eq!(first.text_color, [20, 10, 30]);
}

#[test]
fn fixed_sends_one_packet_at_medium_speed() {
    let colors = Colors::new(Color::new(1, 2, 3), rainbow());
    let frames = Mode::Fixed(colors).frames();
    assert_eq!(frames.len(), 1);
    let f = &frames[0];
    assert_eq!(f.len(), 32);
    assert_eq!(&f[0..4], &[0x02, 0x4c, 0x00, 0]);
    assert_eq!(f[4] >> 5, 0);
    assert_eq!(f[4] & 0x1f, 2);
    assert_eq!(&f[5..8], &[2, 1, 3]);
    assert_eq!(&f[8..11], &[255, 0, 0]);
    assert_eq!(&f[29..32], &[0, 0, 0]);
}

#[test]
fn rate_only_modes_send_five_bytes() {
    assert_eq!(Mode::SpectrumWave(Speed::Fast).frames(), vec![vec![0x02, 0x4c, 0x00, 2, 3]]);
    assert_eq!(Mode::WaterCooler(Speed::VerySlow).frames(), vec![vec![0x02, 0x4c, 0x00, 9, 0]]);
}

#[test]
fn marquee_and_loading_have_dark_text() {
    for (mode, code) in [
        (Mode::Marquee(Speed::Slow, rainbow()), 3u8),
        (Mode::Loading(Speed::VeryFast, rainbow()), 10u8),
    ] {
        let frames = mode.frames();
        assert_eq!(frames.len(), 1);
        let f = &frames[0];
        assert_eq!(f.len(), 32);
        assert_eq!(f[3], code);
        assert_eq!(&f[5..8], &[0, 0, 0]);
        assert_eq!(&f[8..11], &rgb_bytes(RED)[..]);
        assert_eq!(&f[17..20], &rgb_bytes(CYAN)[..]);
    }
    assert_eq!(Mode::Marquee(Speed::Slow, rainbow()).frames()[0][4], 1);
    assert_eq!(Mode::Loading(Speed::VeryFast, rainbow()).frames()[0][4], 4);
}

#[test]
fn alternating_sends_two_short_frames() {
    for s in speeds() {
        let frames = Mode::Alternating(s, RED, CYAN).frames();
        assert_eq!(frames.len(), 2);
        assert_eq!(frames[0].len(), 11);
        assert_eq!(frames[1].len(), 11);
        assert_eq!(frames[0][4] & 0x20, 0);
        assert_eq!(frames[1][4], frames[0][4] | 0x20);
    }
    let frames = Mode::Alternating(Speed::Slow, RED, CYAN).frames();
    assert_eq!(frames[0], vec![0x02, 0x4c, 0x00, 5, 1, 0, 0, 0, 255, 0, 0]);
    assert_eq!(frames[1], vec![0x02, 0x4c, 0x00, 5, 33, 0, 0, 0, 0, 255, 255]);
}

#[test]
fn effect_modes_send_eight_packets() {
    let effect = sample_effect(Speed::Fast);
    for (mode, code) in [
        (Mode::Fading(effect), 1u8),
        (Mode::CoveringMarquee(effect), 4u8),
        (Mode::Breathing(effect), 6u8),
        (Mode::Pulse(effect), 7u8),
    ] {
        let frames = mode.frames();
        assert_eq!(frames.len(), 8);
        for (i, f) in frames.iter().enumerate() {
            assert_eq!(f.len(), 32);
            assert_eq!(f[3], code);
            assert_eq!(f[4] >> 5, i as u8);
            assert_eq!(f[4] & 0x1f, 3);
            let expected = Packet::with_num(ModeId::Fading, Speed::Fast, i as u8, effect.colors[i]).into_bytes();
            assert_eq!(&f[5..], &expected[5..]);
        }
    }
}

#[test]
fn tai_chi_lights_one_position_per_frame() {
    let frames = Mode::TaiChi(Speed::Medium, RED, BLUE).frames();
    assert_eq!(frames.len(), 2);
    for (n, (col, at)) in [(RED, 3usize), (BLUE, 7usize)].into_iter().enumerate() {
        let f = &frames[n];
        assert_eq!(f.len(), 32);
        assert_eq!(f[3], 8);
        assert_eq!(f[4], 2 + ((n as u8) << 5));
        assert_eq!(&f[5..8], &[0, 0, 0]);
        for k in 0..8 {
            let want = if k == at { rgb_bytes(col) } else { rgb_bytes(BLACK) };
            assert_eq!(&f[8 + 3 * k..11 + 3 * k], &want[..]);
        }
    }
}

#[test]
fn fan_speed_bounds() {
    assert_eq!(fan_speed_command(25), Ok(vec![0x02, 0x4d, 0x40, 0x00, 25]));
    assert_eq!(fan_speed_command(100), Ok(vec![0x02, 0x4d, 0x40, 0x00, 100]));
    assert_eq!(fan_speed_command(24), Err(CoolerError::InvalidParameter));
    assert_eq!(fan_speed_command(101), Err(CoolerError::InvalidParameter));
    assert_eq!(fan_speed_command(0), Err(CoolerError::InvalidParameter));
    assert_eq!(fan_speed_command(255), Err(CoolerError::InvalidParameter));
}

#[test]
fn pump_speed_bounds() {
    assert_eq!(pump_speed_command(60), Ok(vec![0x02, 0x4d, 0x00, 0x00, 60]));
    assert_eq!(pump_speed_command(100), Ok(vec![0x02, 0x4d, 0x00, 0x00, 100]));
    assert_eq!(pump_speed_command(59), Err(CoolerError::InvalidParameter));
    assert_eq!(pump_speed_command(101), Err(CoolerError::InvalidParameter));
}
