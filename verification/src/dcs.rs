//! The display command set: commands, their wire encoding, and the encoder
//! that lays transactions, pin changes and waits out in order.

use vstd::prelude::*;
use crate::options::{ColorInversion, ColorOrder, ModelOptions, Rotation};

verus! {

pub const SOFT_RESET: u8 = 0x01;
pub const ENTER_SLEEP_MODE: u8 = 0x10;
pub const EXIT_SLEEP_MODE: u8 = 0x11;
pub const ENTER_NORMAL_MODE: u8 = 0x13;
pub const EXIT_INVERT_MODE: u8 = 0x20;
pub const ENTER_INVERT_MODE: u8 = 0x21;
pub const SET_DISPLAY_OFF: u8 = 0x28;
pub const SET_DISPLAY_ON: u8 = 0x29;
pub const WRITE_MEMORY_START: u8 = 0x2C;
pub const SET_SCROLL_AREA: u8 = 0x33;
pub const SET_ADDRESS_MODE: u8 = 0x36;
pub const SET_PIXEL_FORMAT: u8 = 0x3A;

/// Color depth as the pixel-format register encodes it.
#[derive(Clone, Copy, Debug, PartialEq, Eq, Structural)]
pub enum BitsPerPixel {
    Three,
    Eight,
    Twelve,
    Sixteen,
    Eighteen,
    TwentyFour,
}

/// Number of bits in a channel whose largest value is `max`, where `max` is
/// one less than a power of two.
pub open spec fn channel_bits(max: u8) -> Option<nat> {
    if max == 1 {
        Some(1)
    } else if max == 3 {
        Some(2)
    } else if max == 7 {
        Some(3)
    } else if max == 15 {
        Some(4)
    } else if max == 31 {
        Some(5)
    } else if max == 63 {
        Some(6)
    } else if max == 127 {
        Some(7)
    } else if max == 255 {
        Some(8)
    } else {
        None
    }
}

/// The depth that has exactly `bits` bits per pixel, if the register knows one.
pub open spec fn depth_of(bits: nat) -> Option<BitsPerPixel> {
    if bits == 3 {
        Some(BitsPerPixel::Three)
    } else if bits == 8 {
        Some(BitsPerPixel::Eight)
    } else if bits == 12 {
        Some(BitsPerPixel::Twelve)
    } else if bits == 16 {
        Some(BitsPerPixel::Sixteen)
    } else if bits == 18 {
        Some(BitsPerPixel::Eighteen)
    } else if bits == 24 {
        Some(BitsPerPixel::TwentyFour)
    } else {
        None
    }
}

/// The depth of a color whose channels have the given largest values.
pub open spec fn depth_of_channels(max_r: u8, max_g: u8, max_b: u8) -> Option<BitsPerPixel> {
    match (channel_bits(max_r), channel_bits(max_g), channel_bits(max_b)) {
        (Some(r), Some(g), Some(b)) => depth_of(r + g + b),
        _ => None,
    }
}

fn count_channel_bits(max: u8) -> (bits: Option<u8>)
    ensures
        bits.is_some() == channel_bits(max).is_some(),
        bits.is_some() ==> bits.unwrap() == channel_bits(max).unwrap() && bits.unwrap() <= 8,
{
    match max {
        1 => Some(1),
        3 => Some(2),
        7 => Some(3),
        15 => Some(4),
        31 => Some(5),
        63 => Some(6),
        127 => Some(7),
        255 => Some(8),
        _ => None,
    }
}

impl BitsPerPixel {
    /// Number of bits one pixel takes.
    pub open spec fn bits(self) -> nat {
        match self {
            BitsPerPixel::Three => 3,
            BitsPerPixel::Eight => 8,
            BitsPerPixel::Twelve => 12,
            BitsPerPixel::Sixteen => 16,
            BitsPerPixel::Eighteen => 18,
            BitsPerPixel::TwentyFour => 24,
        }
    }

    /// The three-bit code of this depth in the pixel-format register.
    pub open spec fn code(self) -> u8 {
        match self {
            BitsPerPixel::Three => 1,
            BitsPerPixel::Eight => 2,
            BitsPerPixel::Twelve => 3,
            BitsPerPixel::Sixteen => 5,
            BitsPerPixel::Eighteen => 6,
            BitsPerPixel::TwentyFour => 7,
        }
    }

    pub fn bit_count(self) -> (n: u8)
        ensures
            n == self.bits(),
    {
        match self {
            BitsPerPixel::Three => 3,
            BitsPerPixel::Eight => 8,
            BitsPerPixel::Twelve => 12,
            BitsPerPixel::Sixteen => 16,
            BitsPerPixel::Eighteen => 18,
            BitsPerPixel::TwentyFour => 24,
        }
    }

    pub fn register_code(self) -> (c: u8)
        ensures
            c == self.code(),
    {
        match self {
            BitsPerPixel::Three => 1,
            BitsPerPixel::Eight => 2,
            BitsPerPixel::Twelve => 3,
            BitsPerPixel::Sixteen => 5,
            BitsPerPixel::Eighteen => 6,
            BitsPerPixel::TwentyFour => 7,
        }
    }

    /// The depth of an RGB color format, from the largest value of each of
    /// its channels; `None` where a channel is no bit field or the register
    /// has no code for the sum.
    pub fn from_rgb_color(max_r: u8, max_g: u8, max_b: u8) -> (d: Option<BitsPerPixel>)
        ensures
            d == depth_of_channels(max_r, max_g, max_b),
    {
        let r: u8 = match count_channel_bits(max_r) {
            Some(n) => n,
            None => { return None; },
        };
        let g: u8 = match count_channel_bits(max_g) {
            Some(n) => n,
            None => { return None; },
        };
        let b: u8 = match count_channel_bits(max_b) {
            Some(n) => n,
            None => { return None; },
        };
        let total: u8 = r + g + b;
        match total {
            3 => Some(BitsPerPixel::Three),
            8 => Some(BitsPerPixel::Eight),
            12 => Some(BitsPerPixel::Twelve),
            16 => Some(BitsPerPixel::Sixteen),
            18 => Some(BitsPerPixel::Eighteen),
            24 => Some(BitsPerPixel::TwentyFour),
            _ => None,
        }
    }
}

/// Depths of the two pixel interfaces of a controller.
#[derive(Clone, Copy, Debug, PartialEq, Eq, Structural)]
pub struct PixelFormat {
    pub dpi: BitsPerPixel,
    pub dbi: BitsPerPixel,
}

impl PixelFormat {
    /// The register byte: the DPI code in the high nibble, the DBI code in the low.
    pub open spec fn byte(self) -> u8 {
        (self.dpi.code() * 16 + self.dbi.code()) as u8
    }

    /// Both interfaces at the same depth.
    pub fn with_all(bpp: BitsPerPixel) -> (f: PixelFormat)
        ensures
            f == (PixelFormat { dpi: bpp, dbi: bpp }),
    {
        PixelFormat { dpi: bpp, dbi: bpp }
    }

    pub fn as_u8(self) -> (b: u8)
        ensures
            b == self.byte(),
            b == self.dpi.code() * 16 + self.dbi.code(),
    {
        self.dpi.register_code() * 16 + self.dbi.register_code()
    }
}

/// The address-mode register bits an orientation and a color order stand for:
/// `0x80` row order, `0x40` column order, `0x20` row/column exchange, `0x08` BGR.
pub open spec fn address_mode_of(options: ModelOptions) -> u8 {
    let turn: u8 = match (options.orientation.rotation, options.orientation.mirrored) {
        (Rotation::Deg0, false) => 0x00u8,
        (Rotation::Deg0, true) => 0x40u8,
        (Rotation::Deg90, false) => 0x60u8,
        (Rotation::Deg90, true) => 0x20u8,
        (Rotation::Deg180, false) => 0xC0u8,
        (Rotation::Deg180, true) => 0x80u8,
        (Rotation::Deg270, false) => 0xA0u8,
        (Rotation::Deg270, true) => 0xE0u8,
    };
    match options.color_order {
        ColorOrder::Rgb => turn,
        ColorOrder::Bgr => (turn + 0x08) as u8,
    }
}

/// Value of the address-mode register.
#[derive(Clone, Copy, Debug, PartialEq, Eq, Structural)]
pub struct SetAddressMode {
    pub bits: u8,
}

impl SetAddressMode {
    /// The address mode that `options` asks for.
    pub fn from_options(options: &ModelOptions) -> (m: SetAddressMode)
        ensures
            m.bits == address_mode_of(*options),
    {
        let turn: u8 = match options.orientation.rotation {
            Rotation::Deg0 => if options.orientation.mirrored { 0x40 } else { 0x00 },
            Rotation::Deg90 => if options.orientation.mirrored { 0x20 } else { 0x60 },
            Rotation::Deg180 => if options.orientation.mirrored { 0x80 } else { 0xC0 },
            Rotation::Deg270 => if options.orientation.mirrored { 0xE0 } else { 0xA0 },
        };
        match options.color_order {
            ColorOrder::Rgb => SetAddressMode { bits: turn },
            ColorOrder::Bgr => SetAddressMode { bits: turn + 0x08 },
        }
    }
}

/// Vertical scroll area: rows fixed at the top, rows that scroll, rows fixed
/// at the bottom.
#[derive(Clone, Copy, Debug, PartialEq, Eq, Structural)]
pub struct SetScrollArea {
    pub tfa: u16,
    pub vsa: u16,
    pub bfa: u16,
}

/// The scroll area of a panel: all visible rows scroll, and the rows the
/// framebuffer has beyond them stay fixed below.
pub open spec fn scroll_area_of(options: ModelOptions) -> SetScrollArea {
    SetScrollArea {
        tfa: 0,
        vsa: options.display_size.1,
        bfa: (options.framebuffer_size.1 - options.display_size.1) as u16,
    }
}

impl SetScrollArea {
    pub fn new(tfa: u16, vsa: u16, bfa: u16) -> (a: SetScrollArea)
        ensures
            a == (SetScrollArea { tfa, vsa, bfa }),
    {
        SetScrollArea { tfa, vsa, bfa }
    }

    /// The scroll area that `options` asks for.
    pub fn from_options(options: &ModelOptions) -> (a: SetScrollArea)
        requires
            options.valid(),
        ensures
            a == scroll_area_of(*options),
            a.tfa == 0,
            a.vsa == options.display_size.1,
            a.bfa + options.display_size.1 == options.framebuffer_size.1,
    {
        SetScrollArea {
            tfa: 0,
            vsa: options.display_size.1,
            bfa: options.framebuffer_size.1 - options.display_size.1,
        }
    }
}

/// The two bytes of `x`, most significant first.
pub open spec fn be_bytes(x: u16) -> Seq<u8> {
    seq![(x / 256) as u8, (x % 256) as u8]
}

/// A command of the standard set, with its arguments.
#[derive(Clone, Copy, Debug, PartialEq, Eq, Structural)]
pub enum Command {
    SoftReset,
    EnterSleepMode,
    ExitSleepMode,
    EnterNormalMode,
    SetDisplayOff,
    SetDisplayOn,
    WriteMemoryStart,
    SetInvertMode(ColorInversion),
    SetAddressMode(SetAddressMode),
    SetPixelFormat(PixelFormat),
    SetScrollArea(SetScrollArea),
}

impl Command {
    /// The opcode sent in the command phase.
    pub open spec fn opcode(self) -> u8 {
        match self {
            Command::SoftReset => SOFT_RESET,
            Command::EnterSleepMode => ENTER_SLEEP_MODE,
            Command::ExitSleepMode => EXIT_SLEEP_MODE,
            Command::EnterNormalMode => ENTER_NORMAL_MODE,
            Command::SetDisplayOff => SET_DISPLAY_OFF,
            Command::SetDisplayOn => SET_DISPLAY_ON,
            Command::WriteMemoryStart => WRITE_MEMORY_START,
            Command::SetInvertMode(ColorInversion::Normal) => EXIT_INVERT_MODE,
            Command::SetInvertMode(ColorInversion::Inverted) => ENTER_INVERT_MODE,
            Command::SetAddressMode(_) => SET_ADDRESS_MODE,
            Command::SetPixelFormat(_) => SET_PIXEL_FORMAT,
            Command::SetScrollArea(_) => SET_SCROLL_AREA,
        }
    }

    /// The bytes sent in the data phase; empty where the command has none.
    pub open spec fn params(self) -> Seq<u8> {
        match self {
            Command::SetAddressMode(m) => seq![m.bits],
            Command::SetPixelFormat(f) => seq![f.byte()],
            Command::SetScrollArea(a) => be_bytes(a.tfa) + be_bytes(a.vsa) + be_bytes(a.bfa),
            _ => Seq::empty(),
        }
    }

    pub fn instruction(self) -> (op: u8)
        ensures
            op == self.opcode(),
    {
        match self {
            Command::SoftReset => SOFT_RESET,
            Command::EnterSleepMode => ENTER_SLEEP_MODE,
            Command::ExitSleepMode => EXIT_SLEEP_MODE,
            Command::EnterNormalMode => ENTER_NORMAL_MODE,
            Command::SetDisplayOff => SET_DISPLAY_OFF,
            Command::SetDisplayOn => SET_DISPLAY_ON,
            Command::WriteMemoryStart => WRITE_MEMORY_START,
            Command::SetInvertMode(ColorInversion::Normal) => EXIT_INVERT_MODE,
            Command::SetInvertMode(ColorInversion::Inverted) => ENTER_INVERT_MODE,
            Command::SetAddressMode(_) => SET_ADDRESS_MODE,
            Command::SetPixelFormat(_) => SET_PIXEL_FORMAT,
            Command::SetScrollArea(_) => SET_SCROLL_AREA,
        }
    }

    pub fn param_bytes(self) -> (bytes: Vec<u8>)
        ensures
            bytes@ == self.params(),
    {
        let mut bytes: Vec<u8> = Vec::new();
        match self {
            Command::SetAddressMode(m) => {
                bytes.push(m.bits);
            },
            Command::SetPixelFormat(f) => {
                bytes.push(f.as_u8());
            },
            Command::SetScrollArea(a) => {
                bytes.push((a.tfa / 256) as u8);
                bytes.push((a.tfa % 256) as u8);
                bytes.push((a.vsa / 256) as u8);
                bytes.push((a.vsa % 256) as u8);
                bytes.push((a.bfa / 256) as u8);
                bytes.push((a.bfa % 256) as u8);
            },
            _ => {},
        }
        assert(bytes@ =~= self.params());
        bytes
    }
}

} // verus!
