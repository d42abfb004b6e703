//! The ST7796 family in RGB565 color mode.

use vstd::prelude::*;
use crate::color::{to_storage_words, Rgb565};
use crate::dcs::{
    address_mode_of, be_bytes, scroll_area_of, BitsPerPixel, Command, PixelFormat, SetAddressMode,
    SetScrollArea, SET_SCROLL_AREA, SOFT_RESET,
};
use crate::encoder::{command_action, Action, Dcs};
use crate::models::{pixel_actions, Model};
use crate::options::{ColorInversion, ColorOrder, ModelOptions, Orientation, Rotation};

verus! {

/// ST7796 display in RGB565 color mode.
#[derive(Clone, Copy, Debug)]
pub struct ST7796;

/// Pulse width of a hard reset, in microseconds.
pub const RESET_PULSE_US: u32 = 10;
/// Wait after a reset.
pub const RESET_SETTLE_US: u32 = 150_000;
/// Wait after leaving sleep, after a format change and after a mode change.
pub const SETTLE_US: u32 = 10_000;
/// Wait after the display is switched on.
pub const DISPLAY_ON_SETTLE_US: u32 = 120_000;

/// A write of `params` to the vendor register `opcode`.
pub open spec fn raw(opcode: u8, params: Seq<u8>) -> Action {
    Action::Write { opcode, params }
}

/// The reset: a pulse on the pin where there is one, the reset command where
/// there is none.
pub open spec fn reset_actions(hard_reset: bool) -> Seq<Action> {
    if hard_reset {
        seq![Action::PinLow, Action::DelayUs(RESET_PULSE_US), Action::PinHigh]
    } else {
        seq![command_action(Command::SoftReset)]
    }
}

/// Settling, leaving sleep, and opening the vendor command region.
pub open spec fn wake_actions() -> Seq<Action> {
    seq![
        Action::DelayUs(RESET_SETTLE_US),
        command_action(Command::ExitSleepMode),
        Action::DelayUs(SETTLE_US),
        raw(0xF0, seq![0xC3u8]),
        raw(0xF0, seq![0x96u8]),
    ]
}

/// What depends on the options: scroll area, address mode, inversion; then
/// the pixel format of the color mode.
pub open spec fn configure_actions(options: ModelOptions) -> Seq<Action> {
    seq![
        command_action(Command::SetScrollArea(scroll_area_of(options))),
        command_action(Command::SetAddressMode(SetAddressMode { bits: address_mode_of(options) })),
        command_action(Command::SetInvertMode(options.invert_colors)),
        command_action(
            Command::SetPixelFormat(
                PixelFormat { dpi: BitsPerPixel::Sixteen, dbi: BitsPerPixel::Sixteen },
            ),
        ),
        Action::DelayUs(SETTLE_US),
    ]
}

/// Inversion type, driving voltages and gamma, in the order the panel wants.
pub open spec fn tuning_actions() -> Seq<Action> {
    seq![
        raw(0xB4, seq![0x01u8]),
        raw(0xB7, seq![0xC6u8]),
        raw(0xC1, seq![0x15u8]),
        raw(0xC2, seq![0xAFu8]),
        raw(0xC5, seq![0x22u8]),
        raw(0xC6, seq![0x00u8]),
        raw(0xE8, seq![0x40u8, 0x8A, 0x00, 0x00, 0x29, 0x19, 0xA5, 0x33]),
        raw(
            0xE0,
            seq![
                0xF0u8, 0x04, 0x08, 0x09, 0x08, 0x15, 0x2F, 0x42, 0x46, 0x28, 0x15, 0x16, 0x29, 0x2D,
            ],
        ),
        raw(
            0xE0,
            seq![
                0xF0u8, 0x04, 0x09, 0x09, 0x08, 0x15, 0x2E, 0x46, 0x46, 0x28, 0x15, 0x15, 0x29, 0x2D,
            ],
        ),
    ]
}

/// Normal mode, closing the vendor command region, and display on.
pub open spec fn finish_actions() -> Seq<Action> {
    seq![
        command_action(Command::EnterNormalMode),
        Action::DelayUs(SETTLE_US),
        raw(0x53, seq![0x24u8]),
        raw(0xF0, seq![0x3Cu8]),
        raw(0xF0, seq![0x69u8]),
        command_action(Command::SetDisplayOn),
        Action::DelayUs(DISPLAY_ON_SETTLE_US),
    ]
}

/// Everything after the reset.
pub open spec fn bring_up_actions(options: ModelOptions) -> Seq<Action> {
    wake_actions() + configure_actions(options) + tuning_actions() + finish_actions()
}

impl ST7796 {
    fn reset(dcs: &mut Dcs, hard_reset: bool)
        ensures
            final(dcs)@ == old(dcs)@ + reset_actions(hard_reset),
    {
        if hard_reset {
            dcs.set_pin_low();
            dcs.delay_us(RESET_PULSE_US);
            dcs.set_pin_high();
        } else {
            dcs.write_command(Command::SoftReset);
        }
        assert(dcs@ =~= old(dcs)@ + reset_actions(hard_reset));
    }

    /// Writes one byte to a vendor register.
    fn write_register(dcs: &mut Dcs, opcode: u8, value: u8)
        ensures
            final(dcs)@ == old(dcs)@.push(raw(opcode, seq![value])),
    {
        let payload: [u8; 1] = [value];
        assert(payload@ =~= seq![value]);
        dcs.write_raw(opcode, &payload);
    }

    fn wake(dcs: &mut Dcs)
        ensures
            final(dcs)@ == old(dcs)@ + wake_actions(),
    {
        dcs.delay_us(RESET_SETTLE_US);
        dcs.write_command(Command::ExitSleepMode);
        dcs.delay_us(SETTLE_US);
        Self::write_register(dcs, 0xF0, 0xC3);
        Self::write_register(dcs, 0xF0, 0x96);
        assert(dcs@ =~= old(dcs)@ + wake_actions());
    }

    fn configure(dcs: &mut Dcs, options: &ModelOptions) -> (madctl: SetAddressMode)
        requires
            options.valid(),
        ensures
            final(dcs)@ == old(dcs)@ + configure_actions(*options),
            madctl.bits == address_mode_of(*options),
    {
        dcs.write_command(Command::SetScrollArea(SetScrollArea::from_options(options)));
        let madctl = SetAddressMode::from_options(options);
        dcs.write_command(Command::SetAddressMode(madctl));
        dcs.write_command(Command::SetInvertMode(options.invert_colors));
        let (max_r, max_g, max_b) = Rgb565::channel_maxima();
        let bpp = BitsPerPixel::from_rgb_color(max_r, max_g, max_b);
        let pf = PixelFormat::with_all(bpp.unwrap());
        dcs.write_command(Command::SetPixelFormat(pf));
        dcs.delay_us(SETTLE_US);
        assert(dcs@ =~= old(dcs)@ + configure_actions(*options));
        madctl
    }

    fn tune(dcs: &mut Dcs)
        ensures
            final(dcs)@ == old(dcs)@ + tuning_actions(),
    {
        Self::write_register(dcs, 0xB4, 0x01);
        Self::write_register(dcs, 0xB7, 0xC6);
        Self::write_register(dcs, 0xC1, 0x15);
        Self::write_register(dcs, 0xC2, 0xAF);
        Self::write_register(dcs, 0xC5, 0x22);
        Self::write_register(dcs, 0xC6, 0x00);
        let timing: [u8; 8] = [0x40, 0x8A, 0x00, 0x00, 0x29, 0x19, 0xA5, 0x33];
        assert(timing@ =~= seq![0x40u8, 0x8A, 0x00, 0x00, 0x29, 0x19, 0xA5, 0x33]);
        dcs.write_raw(0xE8, &timing);
        let gamma_a: [u8; 14] = [
            0xF0, 0x04, 0x08, 0x09, 0x08, 0x15, 0x2F, 0x42, 0x46, 0x28, 0x15, 0x16, 0x29, 0x2D,
        ];
        assert(gamma_a@ =~= seq![
            0xF0u8, 0x04, 0x08, 0x09, 0x08, 0x15, 0x2F, 0x42, 0x46, 0x28, 0x15, 0x16, 0x29, 0x2D,
        ]);
        dcs.write_raw(0xE0, &gamma_a);
        let gamma_b: [u8; 14] = [
            0xF0, 0x04, 0x09, 0x09, 0x08, 0x15, 0x2E, 0x46, 0x46, 0x28, 0x15, 0x15, 0x29, 0x2D,
        ];
        assert(gamma_b@ =~= seq![
            0xF0u8, 0x04, 0x09, 0x09, 0x08, 0x15, 0x2E, 0x46, 0x46, 0x28, 0x15, 0x15, 0x29, 0x2D,
        ]);
        dcs.write_raw(0xE0, &gamma_b);
        assert(dcs@ =~= old(dcs)@ + tuning_actions());
    }

    fn finish(dcs: &mut Dcs)
        ensures
            final(dcs)@ == old(dcs)@ + finish_actions(),
    {
        dcs.write_command(Command::EnterNormalMode);
        dcs.delay_us(SETTLE_US);
        Self::write_register(dcs, 0x53, 0x24);
        Self::write_register(dcs, 0xF0, 0x3C);
        Self::write_register(dcs, 0xF0, 0x69);
        dcs.write_command(Command::SetDisplayOn);
        dcs.delay_us(DISPLAY_ON_SETTLE_US);
        assert(dcs@ =~= old(dcs)@ + finish_actions());
    }
}

impl Model for ST7796 {
    open spec fn init_actions(options: ModelOptions, hard_reset: bool) -> Seq<Action> {
        reset_actions(hard_reset) + bring_up_actions(options)
    }

    open spec fn native_options() -> ModelOptions {
        ModelOptions {
            display_size: (320, 480),
            framebuffer_size: (320, 480),
            orientation: Orientation { rotation: Rotation::Deg0, mirrored: false },
            color_order: ColorOrder::Rgb,
            invert_colors: ColorInversion::Normal,
        }
    }

    fn init(&mut self, dcs: &mut Dcs, options: &ModelOptions, hard_reset: bool) -> (madctl:
        SetAddressMode) {
        Self::reset(dcs, hard_reset);
        Self::wake(dcs);
        let madctl = Self::configure(dcs, options);
        Self::tune(dcs);
        Self::finish(dcs);
        assert(dcs@ =~= old(dcs)@ + Self::init_actions(*options, hard_reset));
        madctl
    }

    fn write_pixels(&mut self, dcs: &mut Dcs, colors: &Vec<Rgb565>) {
        dcs.write_command(Command::WriteMemoryStart);
        dcs.send_pixels(to_storage_words(colors));
        assert(dcs@ =~= old(dcs)@ + pixel_actions(colors@));
    }

    fn default_options() -> (o: ModelOptions) {
        ModelOptions::with_sizes((320, 480), (320, 480))
    }
}

/// `a` changes the reset pin.
pub open spec fn is_pin_action(a: Action) -> bool {
    a is PinLow || a is PinHigh
}

/// `a` sends the reset command.
pub open spec fn is_soft_reset(a: Action) -> bool {
    a matches Action::Write { opcode, .. } && opcode == SOFT_RESET
}

/// `a` programs the scroll area.
pub open spec fn is_scroll_area(a: Action) -> bool {
    a matches Action::Write { opcode, .. } && opcode == SET_SCROLL_AREA
}

/// Nothing after the reset touches the reset pin or sends the reset command,
/// and the scroll area is programmed once, as the sixth action after it.
pub proof fn lemma_bring_up_shape(options: ModelOptions)
    ensures
        bring_up_actions(options).len() == 26,
        forall|i: int|
            0 <= i < 26 ==> !is_pin_action(#[trigger] bring_up_actions(options)[i])
                && !is_soft_reset(bring_up_actions(options)[i]),
        forall|i: int|
            0 <= i < 26 && is_scroll_area(#[trigger] bring_up_actions(options)[i]) ==> i == 5,
        bring_up_actions(options)[5] == command_action(
            Command::SetScrollArea(scroll_area_of(options)),
        ),
{
    let wake = wake_actions();
    let configure = configure_actions(options);
    let tuning = tuning_actions();
    let finish = finish_actions();
    let all = bring_up_actions(options);
    assert(wake.len() == 5 && configure.len() == 5 && tuning.len() == 9 && finish.len() == 7);
    assert forall|i: int| 0 <= i < 26 implies !is_pin_action(#[trigger] all[i]) && !is_soft_reset(
        all[i],
    ) && (is_scroll_area(all[i]) ==> i == 5) by {
        if i < 5 {
            assert(all[i] == wake[i]);
        } else if i < 10 {
            assert(all[i] == configure[i - 5]);
        } else if i < 19 {
            assert(all[i] == tuning[i - 10]);
        } else {
            assert(all[i] == finish[i - 19]);
        }
    }
    assert(all[5] == configure[0]);
}

/// Bring-up resets the panel exactly once, as its first act.  With a reset
/// pin that is one pulse on the pin (low, the pulse width, high) and the
/// reset command is never sent; without one it is the reset command, sent
/// once, and the pin is never touched.
pub proof fn lemma_exactly_one_reset(options: ModelOptions, hard_reset: bool)
    ensures
        ({
            let s = ST7796::init_actions(options, hard_reset);
            if hard_reset {
                &&& s.len() == 29
                &&& s[0] == Action::PinLow
                &&& s[1] == Action::DelayUs(RESET_PULSE_US)
                &&& s[2] == Action::PinHigh
                &&& forall|i: int| 3 <= i < s.len() ==> !is_pin_action(#[trigger] s[i])
                &&& forall|i: int| 0 <= i < s.len() ==> !is_soft_reset(#[trigger] s[i])
            } else {
                &&& s.len() == 27
                &&& s[0] == command_action(Command::SoftReset)
                &&& is_soft_reset(s[0])
                &&& forall|i: int| 1 <= i < s.len() ==> !is_soft_reset(#[trigger] s[i])
                &&& forall|i: int| 0 <= i < s.len() ==> !is_pin_action(#[trigger] s[i])
            }
        }),
{
    let s = ST7796::init_actions(options, hard_reset);
    let reset = reset_actions(hard_reset);
    let rest = bring_up_actions(options);
    lemma_bring_up_shape(options);
    assert forall|i: int| reset.len() <= i < s.len() implies !is_pin_action(#[trigger] s[i])
        && !is_soft_reset(s[i]) by {
        assert(s[i] == rest[i - reset.len()]);
    }
}

/// For options whose framebuffer holds the visible area, bring-up programs
/// the scroll area exactly once, and what it programs is: no fixed rows on
/// top, the visible rows scrolling, and below them as many fixed rows as the
/// framebuffer is taller than the visible area, a number that is never
/// negative.
pub proof fn lemma_scroll_area_offset(options: ModelOptions, hard_reset: bool)
    requires
        options.valid(),
    ensures
        ({
            let s = ST7796::init_actions(options, hard_reset);
            let at: int = (reset_actions(hard_reset).len() + 5) as int;
            let offset: int = options.framebuffer_size.1 - options.display_size.1;
            &&& 0 <= offset <= u16::MAX
            &&& at < s.len()
            &&& s[at] == Action::Write {
                opcode: SET_SCROLL_AREA,
                params: be_bytes(0) + be_bytes(options.display_size.1) + be_bytes(offset as u16),
            }
            &&& forall|i: int| 0 <= i < s.len() && is_scroll_area(#[trigger] s[i]) ==> i == at
        }),
{
    let s = ST7796::init_actions(options, hard_reset);
    let reset = reset_actions(hard_reset);
    let rest = bring_up_actions(options);
    lemma_bring_up_shape(options);
    assert(s[reset.len() + 5 as int] == rest[5]);
    assert forall|i: int| 0 <= i < s.len() && is_scroll_area(#[trigger] s[i]) implies i
        == reset.len() + 5 by {
        if i >= reset.len() {
            assert(s[i] == rest[i - reset.len()]);
        }
    }
}

} // verus!
