use mipidsi::dcs::{BitsPerPixel, Command, PixelFormat, SetAddressMode, SetScrollArea};
use mipidsi::encoder::{Dcs, Step, Transaction};
use mipidsi::options::{
    check_sizes, ColorInversion, ColorOrder, ModelOptions, Orientation, Rotation,
};
use mipidsi::run::{Fault, Run};

fn write(opcode: u8, params: &[u8]) -> Step {
    Step::Write(Transaction { opcode, params: params.to_vec() })
}

#[test]
fn opcodes_of_the_standard_set() {
    assert_eq!(Command::SoftReset.instruction(), 0x01);
    assert_eq!(Command::EnterSleepMode.instruction(), 0x10);
    assert_eq!(Command::ExitSleepMode.instruction(), 0x11);
    assert_eq!(Command::SetDisplayOff.instruction(), 0x28);
    assert_eq!(Command::EnterNormalMode.instruction(), 0x13);
    assert_eq!(Command::SetInvertMode(ColorInversion::Normal).instruction(), 0x20);
    assert_eq!(Command::SetInvertMode(ColorInversion::Inverted).instruction(), 0x21);
    assert_eq!(Command::SetDisplayOn.instruction(), 0x29);
    assert_eq!(Command::WriteMemoryStart.instruction(), 0x2C);
    assert_eq!(Command::SetScrollArea(SetScrollArea::new(0, 0, 0)).instruction(), 0x33);
    assert_eq!(Command::SetAddressMode(SetAddressMode { bits: 0 }).instruction(), 0x36);
    assert_eq!(
        Command::SetPixelFormat(PixelFormat::with_all(BitsPerPixel::Sixteen)).instruction(),
        0x3A
    );
}

#[test]
fn params_of_the_standard_set() {
    assert_eq!(Command::SoftReset.param_bytes(), Vec::<u8>::new());
    assert_eq!(Command::SetInvertMode(ColorInversion::Inverted).param_bytes(), Vec::<u8>::new());
    assert_eq!(Command::SetAddressMode(SetAddressMode { bits: 0xA8 }).param_bytes(), vec![0xA8]);
    assert_eq!(
        Command::SetScrollArea(SetScrollArea::new(0x0102, 0x0304, 0xFFFE)).param_bytes(),
        vec![0x01, 0x02, 0x03, 0x04, 0xFF, 0xFE]
    );
    assert_eq!(
        Command::SetPixelFormat(PixelFormat { dpi: BitsPerPixel::Eighteen, dbi: BitsPerPixel::Twelve })
            .param_bytes(),
        vec![0x63]
    );
}

#[test]
fn pixel_format_byte() {
    assert_eq!(PixelFormat::with_all(BitsPerPixel::Three).as_u8(), 0x11);
    assert_eq!(PixelFormat::with_all(BitsPerPixel::Eight).as_u8(), 0x22);
    assert_eq!(PixelFormat::with_all(BitsPerPixel::Twelve).as_u8(), 0x33);
    assert_eq!(PixelFormat::with_all(BitsPerPixel::Sixteen).as_u8(), 0x55);
    assert_eq!(PixelFormat::with_all(BitsPerPixel::Eighteen).as_u8(), 0x66);
    assert_eq!(PixelFormat::with_all(BitsPerPixel::TwentyFour).as_u8(), 0x77);
}

#[test]
fn depth_from_channel_maxima() {
    assert_eq!(BitsPerPixel::from_rgb_color(31, 63, 31), Some(BitsPerPixel::Sixteen));
    assert_eq!(BitsPerPixel::from_rgb_color(1, 1, 1), Some(BitsPerPixel::Three));
    assert_eq!(BitsPerPixel::from_rgb_color(7, 7, 3), Some(BitsPerPixel::Eight));
    assert_eq!(BitsPerPixel::from_rgb_color(15, 15, 15), Some(BitsPerPixel::Twelve));
    assert_eq!(BitsPerPixel::from_rgb_color(63, 63, 63), Some(BitsPerPixel::Eighteen));
    assert_eq!(BitsPerPixel::from_rgb_color(255, 255, 255), Some(BitsPerPixel::TwentyFour));
    assert_eq!(BitsPerPixel::from_rgb_color(31, 31, 31), None);
    assert_eq!(BitsPerPixel::from_rgb_color(30, 63, 31), None);
    assert_eq!(BitsPerPixel::from_rgb_color(0, 63, 31), None);
    assert_eq!(BitsPerPixel::Sixteen.bit_count(), 16);
    assert_eq!(BitsPerPixel::Sixteen.register_code(), 5);
}

#[test]
fn address_mode_table() {
    let base = ModelOptions::with_sizes((320, 480), (320, 480));
    let cases = [
        (Rotation::Deg0, false, 0x00u8),
        (Rotation::Deg0, true, 0x40),
        (Rotation::Deg90, false, 0x60),
        (Rotation::Deg90, true, 0x20),
        (Rotation::Deg180, false, 0xC0),
        (Rotation::Deg180, true, 0x80),
        (Rotation::Deg270, false, 0xA0),
        (Rotation::Deg270, true, 0xE0),
    ];
    for (rotation, mirrored, bits) in cases {
        let o = base.with_orientation(Orientation { rotation, mirrored });
        assert_eq!(SetAddressMode::from_options(&o), SetAddressMode { bits });
        let bgr = o.with_color_order(ColorOrder::Bgr);
        assert_eq!(SetAddressMode::from_options(&bgr), SetAddressMode { bits: bits + 0x08 });
        let inverted = o.with_invert_colors(ColorInversion::Inverted);
        assert_eq!(SetAddressMode::from_options(&inverted), SetAddressMode { bits });
    }
}

#[test]
fn scroll_area_from_options() {
    let same = ModelOptions::with_sizes((320, 480), (320, 480));
    assert_eq!(SetScrollArea::from_options(&same), SetScrollArea { tfa: 0, vsa: 480, bfa: 0 });
    let taller = ModelOptions::with_sizes((240, 240), (240, 320));
    assert_eq!(SetScrollArea::from_options(&taller), SetScrollArea { tfa: 0, vsa: 240, bfa: 80 });
    let extreme = ModelOptions::with_sizes((0, 0), (65535, 65535));
    assert_eq!(SetScrollArea::from_options(&extreme), SetScrollArea { tfa: 0, vsa: 0, bfa: 65535 });
}

#[test]
fn sizes_must_fit() {
    assert!(check_sizes((320, 480), (320, 480)));
    assert!(check_sizes((0, 0), (0, 0)));
    assert!(!check_sizes((321, 480), (320, 480)));
    assert!(!check_sizes((320, 481), (320, 480)));
    let o = ModelOptions::with_sizes((240, 240), (240, 320));
    assert!(o.is_valid());
    assert!(o.with_display_size(240, 321).is_none());
    assert!(o.with_display_size(241, 320).is_none());
    assert_eq!(o.with_display_size(200, 320).map(|n| n.display_size), Some((200, 320)));
    assert!(o.with_framebuffer_size(239, 320).is_none());
    assert_eq!(o.with_framebuffer_size(240, 240).map(|n| n.framebuffer_size), Some((240, 240)));
    let bad = ModelOptions { display_size: (10, 11), framebuffer_size: (10, 10), ..o };
    assert!(!bad.is_valid());
}

#[test]
fn encoder_keeps_issue_order() {
    let mut dcs = Dcs::new();
    dcs.set_pin_low();
    dcs.delay_us(10);
    dcs.set_pin_high();
    dcs.write_command(Command::ExitSleepMode);
    dcs.write_raw(0xF0, &[0xC3]);
    dcs.write_raw(0xB1, &[]);
    dcs.write_command(Command::SetAddressMode(SetAddressMode { bits: 0x48 }));
    dcs.send_pixels(vec![1, 2]);
    assert_eq!(dcs.into_steps(), vec![
        Step::PinLow,
        Step::DelayUs(10),
        Step::PinHigh,
        write(0x11, &[]),
        write(0xF0, &[0xC3]),
        write(0xB1, &[]),
        write(0x36, &[0x48]),
        Step::Pixels(vec![1, 2]),
    ]);
}

#[test]
fn data_phase_only_with_payload() {
    let bare = Transaction { opcode: 0x29, params: Vec::new() };
    assert_eq!(bare.data_phase(), None);
    let full = Transaction { opcode: 0x36, params: vec![0x48] };
    assert_eq!(full.data_phase(), Some(&vec![0x48]));
}

#[test]
fn run_walks_the_plan_and_stops_on_failure() {
    let steps = vec![Step::PinLow, Step::DelayUs(3), write(0x01, &[])];
    let mut run = Run::new(steps.clone());
    assert_eq!(run.outcome(), None);
    assert_eq!(run.current(), Some(&Step::PinLow));
    run.report(true);
    assert_eq!(run.current(), Some(&Step::DelayUs(3)));
    run.report(true);
    assert_eq!(run.current(), Some(&write(0x01, &[])));
    run.report(true);
    assert_eq!(run.current(), None);
    assert_eq!(run.outcome(), Some(Ok(())));
    run.report(false);
    assert_eq!(run.outcome(), Some(Ok(())));

    let mut pin = Run::new(steps.clone());
    pin.report(false);
    assert_eq!(pin.outcome(), Some(Err(Fault::Pin)));
    assert_eq!(pin.current(), None);
    pin.report(true);
    assert_eq!(pin.outcome(), Some(Err(Fault::Pin)));
    assert_eq!(pin.pos, 1);

    let mut bus = Run::new(steps);
    bus.report(true);
    bus.report(true);
    bus.report(false);
    assert_eq!(bus.outcome(), Some(Err(Fault::Bus)));

    let mut empty = Run::new(Vec::new());
    assert_eq!(empty.current(), None);
    assert_eq!(empty.outcome(), Some(Ok(())));
    empty.report(false);
    assert_eq!(empty.outcome(), Some(Ok(())));
}
