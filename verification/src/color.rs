//! Colors in the 16-bit RGB565 format and their form on the wire.

use vstd::prelude::*;

verus! {

/// Largest value of the red channel.
pub const MAX_R: u8 = 31;
/// Largest value of the green channel.
pub const MAX_G: u8 = 63;
/// Largest value of the blue channel.
pub const MAX_B: u8 = 31;

/// A color with five bits of red, six of green and five of blue.
///
/// The fields hold the channel values as given; bits above a channel's width
/// do not reach the wire.
#[derive(Clone, Copy, Debug, PartialEq, Eq, Structural)]
pub struct Rgb565 {
    pub r: u8,
    pub g: u8,
    pub b: u8,
}

/// The 16-bit word of a color: red in bits 11 to 15, green in bits 5 to 10,
/// blue in bits 0 to 4, each channel cut to its width.
pub open spec fn storage_of(r: u8, g: u8, b: u8) -> u16 {
    (((r & 0x1f) as u16) << 11) | (((g & 0x3f) as u16) << 5) | ((b & 0x1f) as u16)
}

/// The word of a color in arithmetic: the channels, each taken modulo the
/// size of its field, weighted by the place of the field.
pub proof fn lemma_storage_is_weighted_sum(r: u8, g: u8, b: u8)
    ensures
        storage_of(r, g, b) == (r % 32) * 2048 + (g % 64) * 32 + (b % 32),
{
    let word: u16 = storage_of(r, g, b);
    assert(word == ((r % 32) as u16) * 2048 + ((g % 64) as u16) * 32 + ((b % 32) as u16))
        by (bit_vector)
        requires
            word == (((r & 0x1f) as u16) << 11) | (((g & 0x3f) as u16) << 5) | ((b & 0x1f) as u16),
    ;
}

/// Packs three channel values into the storage word of an RGB565 color.
///
/// Trusted: the body calls `embedded_graphics_core::pixelcolor::Rgb565::new`
/// and then `IntoStorage::into_storage` on the color.  The contract claims
/// that the word is `storage_of`: `new` masks each channel to its width and
/// shifts red by 11 and green by 5, and the storage is that word unchanged.
#[verifier::external_body]
fn pack_rgb565(r: u8, g: u8, b: u8) -> (word: u16)
    ensures
        word == storage_of(r, g, b),
{
    let color = embedded_graphics_core::pixelcolor::Rgb565::new(r, g, b);
    embedded_graphics_core::pixelcolor::IntoStorage::into_storage(color)
}

/// Reads the largest value of each channel of an RGB565 color.
///
/// Trusted: the body reads the constants `MAX_R`, `MAX_G` and `MAX_B` that
/// `embedded_graphics_core::pixelcolor::Rgb565` has from `RgbColor`.  The
/// contract claims that they are 31, 63 and 31: the format gives red and
/// blue five bits and green six, and each constant is the largest value of
/// that many bits.
#[verifier::external_body]
fn read_channel_maxima() -> (max: (u8, u8, u8))
    ensures
        max == (MAX_R, MAX_G, MAX_B),
{
    (
        <embedded_graphics_core::pixelcolor::Rgb565 as embedded_graphics_core::pixelcolor::RgbColor>::MAX_R,
        <embedded_graphics_core::pixelcolor::Rgb565 as embedded_graphics_core::pixelcolor::RgbColor>::MAX_G,
        <embedded_graphics_core::pixelcolor::Rgb565 as embedded_graphics_core::pixelcolor::RgbColor>::MAX_B,
    )
}

impl Rgb565 {
    /// The largest values of the red, green and blue channel.
    pub fn channel_maxima() -> (max: (u8, u8, u8))
        ensures
            max == (MAX_R, MAX_G, MAX_B),
    {
        read_channel_maxima()
    }

    pub fn new(r: u8, g: u8, b: u8) -> (c: Rgb565)
        ensures
            c == (Rgb565 { r, g, b }),
    {
        Rgb565 { r, g, b }
    }

    /// The word of this color.
    pub open spec fn storage(self) -> u16 {
        storage_of(self.r, self.g, self.b)
    }

    pub fn into_storage(self) -> (word: u16)
        ensures
            word == self.storage(),
    {
        pack_rgb565(self.r, self.g, self.b)
    }
}

/// The words of a sequence of colors, in the same order.
pub open spec fn storage_words(colors: Seq<Rgb565>) -> Seq<u16> {
    colors.map_values(|c: Rgb565| c.storage())
}

/// The bytes of a sequence of words on the wire: two per word, the more
/// significant first, words in order.
pub open spec fn wire_bytes(words: Seq<u16>) -> Seq<u8> {
    Seq::new(
        2 * words.len(),
        |i: int| if i % 2 == 0 { (words[i / 2] / 256) as u8 } else { (words[i / 2] % 256) as u8 },
    )
}

/// Converts colors to their words.
pub fn to_storage_words(colors: &Vec<Rgb565>) -> (words: Vec<u16>)
    ensures
        words@ == storage_words(colors@),
{
    let mut words: Vec<u16> = Vec::new();
    let mut i: usize = 0;
    while i < colors.len()
        invariant
            i <= colors.len(),
            words@ == storage_words(colors@.take(i as int)),
        decreases colors.len() - i,
    {
        words.push(colors[i].into_storage());
        i += 1;
        assert(words@ =~= storage_words(colors@.take(i as int)));
    }
    assert(colors@.take(i as int) =~= colors@);
    words
}

/// Lays words out as the bytes that cross the bus.
pub fn to_wire_bytes(words: &Vec<u16>) -> (bytes: Vec<u8>)
    ensures
        bytes@ == wire_bytes(words@),
        bytes@.len() == 2 * words@.len(),
{
    let mut bytes: Vec<u8> = Vec::new();
    let mut i: usize = 0;
    while i < words.len()
        invariant
            i <= words.len(),
            bytes@ == wire_bytes(words@.take(i as int)),
        decreases words.len() - i,
    {
        let w: u16 = words[i];
        bytes.push((w / 256) as u8);
        bytes.push((w % 256) as u8);
        i += 1;
        assert(bytes@ =~= wire_bytes(words@.take(i as int)));
    }
    assert(words@.take(i as int) =~= words@);
    bytes
}

} // verus!
