use mipidsi::builder::Builder;
use mipidsi::dcs::SetAddressMode;
use mipidsi::display::Display;
use mipidsi::encoder::{Step, Transaction};
use mipidsi::error::InitError;
use mipidsi::models::st7796::ST7796;
use mipidsi::options::{ColorInversion, ColorOrder, Orientation, Rotation};
use mipidsi::run::InitRun;

fn write(opcode: u8, params: &[u8]) -> Step {
    Step::Write(Transaction { opcode, params: params.to_vec() })
}

/// Carries a bring-up run through; the step with index `fail_at` fails.
fn carry(run: &mut InitRun, fail_at: Option<usize>) -> Vec<Step> {
    let mut seen = Vec::new();
    loop {
        let step = match run.current() {
            Some(s) => s.clone(),
            None => break,
        };
        let ok = fail_at != Some(seen.len());
        seen.push(step);
        run.report(ok);
    }
    seen
}

fn after_reset(scroll: [u8; 6], madctl: u8, invert: u8) -> Vec<Step> {
    vec![
        Step::DelayUs(150_000),
        write(0x11, &[]),
        Step::DelayUs(10_000),
        write(0xF0, &[0xC3]),
        write(0xF0, &[0x96]),
        write(0x33, &scroll),
        write(0x36, &[madctl]),
        write(invert, &[]),
        write(0x3A, &[0x55]),
        Step::DelayUs(10_000),
        write(0xB4, &[0x01]),
        write(0xB7, &[0xC6]),
        write(0xC1, &[0x15]),
        write(0xC2, &[0xAF]),
        write(0xC5, &[0x22]),
        write(0xC6, &[0x00]),
        write(0xE8, &[0x40, 0x8A, 0x00, 0x00, 0x29, 0x19, 0xA5, 0x33]),
        write(
            0xE0,
            &[0xF0, 0x04, 0x08, 0x09, 0x08, 0x15, 0x2F, 0x42, 0x46, 0x28, 0x15, 0x16, 0x29, 0x2D],
        ),
        write(
            0xE0,
            &[0xF0, 0x04, 0x09, 0x09, 0x08, 0x15, 0x2E, 0x46, 0x46, 0x28, 0x15, 0x15, 0x29, 0x2D],
        ),
        write(0x13, &[]),
        Step::DelayUs(10_000),
        write(0x53, &[0x24]),
        write(0xF0, &[0x3C]),
        write(0xF0, &[0x69]),
        write(0x29, &[]),
        Step::DelayUs(120_000),
    ]
}

fn default_display() -> Display<(), ST7796> {
    Builder::st7796(()).build()
}

#[test]
fn default_options_are_native_size() {
    let display = default_display();
    assert_eq!(display.options.display_size, (320, 480));
    assert_eq!(display.options.framebuffer_size, (320, 480));
    assert_eq!(display.options.invert_colors, ColorInversion::Normal);
    assert_eq!(display.options.color_order, ColorOrder::Rgb);
    assert_eq!(display.options.orientation, Orientation { rotation: Rotation::Deg0, mirrored: false });
    assert!(display.options.is_valid());
}

#[test]
fn soft_reset_bring_up_in_order() {
    let mut display = default_display();
    let mut run = display.init(false);
    assert_eq!(run.result(), None);
    let seen = carry(&mut run, None);
    let mut expected = vec![write(0x01, &[])];
    expected.extend(after_reset([0, 0, 0x01, 0xE0, 0, 0], 0x00, 0x20));
    assert_eq!(seen, expected);
    assert_eq!(run.result(), Some(Ok(SetAddressMode { bits: 0x00 })));
}

#[test]
fn hard_reset_bring_up_in_order() {
    let mut display = default_display();
    let mut run = display.init(true);
    let seen = carry(&mut run, None);
    let mut expected = vec![Step::PinLow, Step::DelayUs(10), Step::PinHigh];
    expected.extend(after_reset([0, 0, 0x01, 0xE0, 0, 0], 0x00, 0x20));
    assert_eq!(seen, expected);
    assert_eq!(run.result(), Some(Ok(SetAddressMode { bits: 0x00 })));
}

#[test]
fn exactly_one_reset_either_way() {
    for hard in [false, true] {
        let mut display = default_display();
        let mut run = display.init(hard);
        let seen = carry(&mut run, None);
        let pulses = seen.iter().filter(|s| **s == Step::PinLow).count();
        let releases = seen.iter().filter(|s| **s == Step::PinHigh).count();
        let soft = seen.iter().filter(|s| **s == write(0x01, &[])).count();
        if hard {
            assert_eq!((pulses, releases, soft), (1, 1, 0));
        } else {
            assert_eq!((pulses, releases, soft), (0, 0, 1));
        }
    }
}

#[test]
fn scroll_area_carries_size_difference() {
    let mut display = Builder::st7796(())
        .with_framebuffer_size(320, 700)
        .with_display_size(240, 400)
        .build();
    let mut run = display.init(false);
    let seen = carry(&mut run, None);
    // 400 visible rows = 0x0190, 300 rows below = 0x012C
    assert_eq!(seen[6], write(0x33, &[0x00, 0x00, 0x01, 0x90, 0x01, 0x2C]));
}

#[test]
fn address_mode_follows_options() {
    let mut display = Builder::st7796(())
        .with_orientation(Orientation { rotation: Rotation::Deg90, mirrored: false })
        .with_color_order(ColorOrder::Bgr)
        .with_invert_colors(ColorInversion::Inverted)
        .build();
    let mut run = display.init(true);
    let seen = carry(&mut run, None);
    let mut expected = vec![Step::PinLow, Step::DelayUs(10), Step::PinHigh];
    expected.extend(after_reset([0, 0, 0x01, 0xE0, 0, 0], 0x68, 0x21));
    assert_eq!(seen, expected);
    assert_eq!(run.result(), Some(Ok(SetAddressMode { bits: 0x68 })));
}

#[test]
fn bus_failure_aborts_at_once() {
    let full = {
        let mut display = default_display();
        let mut run = display.init(false);
        carry(&mut run, None)
    };
    for k in 0..full.len() {
        let mut display = default_display();
        let mut run = display.init(false);
        let seen = carry(&mut run, Some(k));
        assert_eq!(seen, full[..k + 1].to_vec());
        assert_eq!(run.result(), Some(Err(InitError::DisplayError)));
        assert!(run.current().is_none());
        run.report(true);
        assert!(run.current().is_none());
        assert_eq!(run.result(), Some(Err(InitError::DisplayError)));
    }
}

#[test]
fn pin_failure_is_a_pin_error() {
    for k in [0usize, 2] {
        let mut display = default_display();
        let mut run = display.init(true);
        let seen = carry(&mut run, Some(k));
        assert_eq!(seen.len(), k + 1);
        assert_eq!(run.result(), Some(Err(InitError::Pin)));
    }
    let mut display = default_display();
    let mut run = display.init(true);
    let seen = carry(&mut run, Some(4));
    assert_eq!(seen.last(), Some(&write(0x11, &[])));
    assert_eq!(run.result(), Some(Err(InitError::DisplayError)));
}
