//! The display handle: it owns the bus, the model and the options, and sets
//! up the runs that the owner of the bus carries through.

use vstd::prelude::*;
use crate::color::Rgb565;
use crate::dcs::address_mode_of;
use crate::encoder::Dcs;
use crate::models::{pixel_actions, Model};
use crate::options::ModelOptions;
use crate::run::{InitRun, Run, RunState};

verus! {

/// A display: a bus of type `DI` driven as the model `MODEL` says.
pub struct Display<DI, MODEL> {
    pub di: DI,
    pub model: MODEL,
    pub options: ModelOptions,
}

impl<DI, MODEL: Model> Display<DI, MODEL> {
    /// The options hold their invariant.
    pub open spec fn wf(&self) -> bool {
        self.options.valid()
    }

    /// Sets bring-up up: a run that has yet to issue the first action of the
    /// model's bring-up sequence, together with the address mode that the
    /// sequence programs.  `hard_reset` tells whether a reset pin is at hand.
    pub fn init(&mut self, hard_reset: bool) -> (run: InitRun)
        requires
            old(self).wf(),
        ensures
            run.run@ == RunState::start(MODEL::init_actions(old(self).options, hard_reset)),
            run.madctl.bits == address_mode_of(old(self).options),
            final(self).options == old(self).options,
            final(self).di == old(self).di,
    {
        let mut dcs = Dcs::new();
        let madctl = self.model.init(&mut dcs, &self.options, hard_reset);
        assert(dcs@ =~= MODEL::init_actions(self.options, hard_reset));
        InitRun { run: Run::new(dcs.into_steps()), madctl }
    }

    /// Sets the streaming of `colors` into the addressed window up: a run
    /// that has yet to issue the memory-write command.
    pub fn write_pixels(&mut self, colors: &Vec<Rgb565>) -> (run: Run)
        ensures
            run@ == RunState::start(pixel_actions(colors@)),
            final(self).options == old(self).options,
            final(self).di == old(self).di,
    {
        let mut dcs = Dcs::new();
        self.model.write_pixels(&mut dcs, colors);
        assert(dcs@ =~= pixel_actions(colors@));
        Run::new(dcs.into_steps())
    }

    /// Gives the bus and the model back.
    pub fn release(self) -> (parts: (DI, MODEL))
        ensures
            parts.0 == self.di,
            parts.1 == self.model,
    {
        (self.di, self.model)
    }
}

} // verus!
