//! Controller models: one type per panel family behind one contract.

use vstd::prelude::*;
use crate::color::{storage_words, wire_bytes, Rgb565};
use crate::dcs::{address_mode_of, Command, SetAddressMode, WRITE_MEMORY_START};
use crate::encoder::{bus_phases, command_action, Action, Dcs, Phase};
use crate::options::ModelOptions;

pub mod st7796;

verus! {

/// What streaming `colors` into the addressed window does: the memory-write
/// command, then one data phase with the colors' words in order.
pub open spec fn pixel_actions(colors: Seq<Rgb565>) -> Seq<Action> {
    seq![
        command_action(Command::WriteMemoryStart),
        Action::Pixels { words: storage_words(colors) },
    ]
}

/// A panel family.
pub trait Model {
    /// The actions that bring a panel of this family up, in order.
    /// `hard_reset` tells whether a reset pin is there to be toggled.
    spec fn init_actions(options: ModelOptions, hard_reset: bool) -> Seq<Action>;

    /// The native geometry of the family.
    spec fn native_options() -> ModelOptions;

    /// Lays the bring-up sequence out on `dcs` and returns the address mode
    /// that it programs.
    fn init(&mut self, dcs: &mut Dcs, options: &ModelOptions, hard_reset: bool) -> (madctl:
        SetAddressMode)
        requires
            options.valid(),
        ensures
            final(dcs)@ == old(dcs)@ + Self::init_actions(*options, hard_reset),
            madctl.bits == address_mode_of(*options),
    ;

    /// Lays the streaming of `colors` out on `dcs`.
    fn write_pixels(&mut self, dcs: &mut Dcs, colors: &Vec<Rgb565>)
        ensures
            final(dcs)@ == old(dcs)@ + pixel_actions(colors@),
    ;

    /// Options for a panel of this family as it comes.
    fn default_options() -> (o: ModelOptions)
        ensures
            o == Self::native_options(),
            o.valid(),
    ;
}

/// Streaming colors is the memory-write command, which carries no data of its
/// own, followed by exactly one data phase.  That phase carries two bytes for
/// each color, the colors in the order given, each as its word with the more
/// significant byte first.
pub proof fn lemma_pixel_write_is_one_transfer(colors: Seq<Rgb565>)
    ensures
        ({
            let s = pixel_actions(colors);
            let bytes = wire_bytes(storage_words(colors));
            &&& s.len() == 2
            &&& s[0] == Action::Write { opcode: WRITE_MEMORY_START, params: Seq::<u8>::empty() }
            &&& s[1] == Action::Pixels { words: storage_words(colors) }
            &&& bus_phases(s[0]) == seq![Phase::Command(WRITE_MEMORY_START)]
            &&& bus_phases(s[1]) == seq![Phase::Data(bytes)]
            &&& storage_words(colors).len() == colors.len()
            &&& bytes.len() == 2 * colors.len()
            &&& forall|i: int|
                0 <= i < colors.len() ==> bytes[2 * i] == (#[trigger] colors[i].storage() / 256) as u8
                    && bytes[2 * i + 1] == (colors[i].storage() % 256) as u8
        }),
{
    let words = storage_words(colors);
    let bytes = wire_bytes(words);
    assert forall|i: int| 0 <= i < colors.len() implies bytes[2 * i] == (
    #[trigger] colors[i].storage() / 256) as u8 && bytes[2 * i + 1] == (colors[i].storage()
        % 256) as u8 by {
        assert(words[i] == colors[i].storage());
        assert((2 * i) / 2 == i && (2 * i) % 2 == 0);
        assert((2 * i + 1) / 2 == i && (2 * i + 1) % 2 == 1);
    }
}

/// Streaming no colors at all still sends the memory-write command, and
/// then a data phase without a single byte.
pub proof fn lemma_empty_pixel_write()
    ensures
        pixel_actions(Seq::<Rgb565>::empty()) == seq![
            Action::Write { opcode: WRITE_MEMORY_START, params: Seq::<u8>::empty() },
            Action::Pixels { words: Seq::<u16>::empty() },
        ],
        wire_bytes(storage_words(Seq::<Rgb565>::empty())).len() == 0,
        bus_phases(pixel_actions(Seq::<Rgb565>::empty())[1]) == seq![Phase::Data(Seq::<u8>::empty())],
{
    assert(wire_bytes(Seq::<u16>::empty()) =~= Seq::<u8>::empty());
    assert(storage_words(Seq::<Rgb565>::empty()) =~= Seq::<u16>::empty());
    assert(pixel_actions(Seq::<Rgb565>::empty()) =~= seq![
        Action::Write { opcode: WRITE_MEMORY_START, params: Seq::<u8>::empty() },
        Action::Pixels { words: Seq::<u16>::empty() },
    ]);
}

} // verus!
