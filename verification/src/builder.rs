//! Binding a bus to a model.

use vstd::prelude::*;
use crate::display::Display;
use crate::models::st7796::ST7796;
use crate::models::Model;
use crate::options::{sizes_fit, ColorInversion, ColorOrder, ModelOptions, Orientation};

verus! {

/// A display in the making.  Building performs no bus traffic.
pub struct Builder<DI, MODEL> {
    pub di: DI,
    pub model: MODEL,
    pub options: ModelOptions,
}

impl<DI, MODEL: Model> Builder<DI, MODEL> {
    /// A builder for `model` on the bus `di`, with the model's own options.
    pub fn with_model(di: DI, model: MODEL) -> (b: Self)
        ensures
            b.di == di,
            b.model == model,
            b.options == MODEL::native_options(),
            b.options.valid(),
    {
        Builder { di, model, options: MODEL::default_options() }
    }

    /// Sets the size of the visible area, which the framebuffer must hold.
    pub fn with_display_size(self, width: u16, height: u16) -> (b: Self)
        requires
            sizes_fit((width, height), self.options.framebuffer_size),
        ensures
            b.di == self.di,
            b.model == self.model,
            b.options == (ModelOptions { display_size: (width, height), ..self.options }),
            b.options.valid(),
    {
        Builder {
            di: self.di,
            model: self.model,
            options: ModelOptions { display_size: (width, height), ..self.options },
        }
    }

    /// Sets the size of the framebuffer, which must hold the visible area.
    pub fn with_framebuffer_size(self, width: u16, height: u16) -> (b: Self)
        requires
            sizes_fit(self.options.display_size, (width, height)),
        ensures
            b.di == self.di,
            b.model == self.model,
            b.options == (ModelOptions { framebuffer_size: (width, height), ..self.options }),
            b.options.valid(),
    {
        Builder {
            di: self.di,
            model: self.model,
            options: ModelOptions { framebuffer_size: (width, height), ..self.options },
        }
    }

    pub fn with_orientation(self, orientation: Orientation) -> (b: Self)
        ensures
            b.di == self.di,
            b.model == self.model,
            b.options == (ModelOptions { orientation, ..self.options }),
    {
        Builder {
            di: self.di,
            model: self.model,
            options: self.options.with_orientation(orientation),
        }
    }

    pub fn with_color_order(self, color_order: ColorOrder) -> (b: Self)
        ensures
            b.di == self.di,
            b.model == self.model,
            b.options == (ModelOptions { color_order, ..self.options }),
    {
        Builder {
            di: self.di,
            model: self.model,
            options: self.options.with_color_order(color_order),
        }
    }

    pub fn with_invert_colors(self, invert_colors: ColorInversion) -> (b: Self)
        ensures
            b.di == self.di,
            b.model == self.model,
            b.options == (ModelOptions { invert_colors, ..self.options }),
    {
        Builder {
            di: self.di,
            model: self.model,
            options: self.options.with_invert_colors(invert_colors),
        }
    }

    /// The display handle, with the bus, the model and the options as set.
    pub fn build(self) -> (d: Display<DI, MODEL>)
        ensures
            d.di == self.di,
            d.model == self.model,
            d.options == self.options,
    {
        Display { di: self.di, model: self.model, options: self.options }
    }
}

impl<DI> Builder<DI, ST7796> {
    /// A builder for an ST7796 display in RGB565 color mode on the bus `di`.
    ///
    /// Display and framebuffer are both 320 by 480 pixels unless set otherwise.
    pub fn st7796(di: DI) -> (b: Self)
        ensures
            b.di == di,
            b.options == ST7796::native_options(),
            b.options.valid(),
    {
        Self::with_model(di, ST7796)
    }
}

} // verus!
