//! Panel geometry, orientation and color policy.

use vstd::prelude::*;

verus! {

/// Whether the panel shows colors as sent or inverted.
#[derive(Clone, Copy, Debug, PartialEq, Eq, Structural)]
pub enum ColorInversion {
    Normal,
    Inverted,
}

/// Order of the color channels inside the panel.
#[derive(Clone, Copy, Debug, PartialEq, Eq, Structural)]
pub enum ColorOrder {
    Rgb,
    Bgr,
}

/// Clockwise rotation of the image on the panel.
#[derive(Clone, Copy, Debug, PartialEq, Eq, Structural)]
pub enum Rotation {
    Deg0,
    Deg90,
    Deg180,
    Deg270,
}

/// Rotation plus an optional mirroring along the horizontal axis.
#[derive(Clone, Copy, Debug, PartialEq, Eq, Structural)]
pub struct Orientation {
    pub rotation: Rotation,
    pub mirrored: bool,
}

/// Configuration a controller model reads while it brings a panel up.
///
/// `valid` is the invariant: the framebuffer is at least as large as the
/// visible area in both axes.  Every constructor and every `with_*` method
/// keeps it.
#[derive(Clone, Copy, Debug)]
pub struct ModelOptions {
    pub display_size: (u16, u16),
    pub framebuffer_size: (u16, u16),
    pub orientation: Orientation,
    pub color_order: ColorOrder,
    pub invert_colors: ColorInversion,
}

/// A framebuffer of size `framebuffer` can hold a visible area of size `display`.
pub open spec fn sizes_fit(display: (u16, u16), framebuffer: (u16, u16)) -> bool {
    display.0 <= framebuffer.0 && display.1 <= framebuffer.1
}

/// Runtime form of [`sizes_fit`].
pub fn check_sizes(display: (u16, u16), framebuffer: (u16, u16)) -> (ok: bool)
    ensures
        ok == sizes_fit(display, framebuffer),
{
    display.0 <= framebuffer.0 && display.1 <= framebuffer.1
}

impl Orientation {
    /// Unrotated and unmirrored.
    pub fn new() -> (o: Orientation)
        ensures
            o == (Orientation { rotation: Rotation::Deg0, mirrored: false }),
    {
        Orientation { rotation: Rotation::Deg0, mirrored: false }
    }
}

impl ModelOptions {
    pub open spec fn valid(&self) -> bool {
        sizes_fit(self.display_size, self.framebuffer_size)
    }

    /// Options for a panel of the given sizes: unrotated, RGB, not inverted.
    pub fn with_sizes(display_size: (u16, u16), framebuffer_size: (u16, u16)) -> (o: ModelOptions)
        requires
            sizes_fit(display_size, framebuffer_size),
        ensures
            o.valid(),
            o == (ModelOptions {
                display_size,
                framebuffer_size,
                orientation: Orientation { rotation: Rotation::Deg0, mirrored: false },
                color_order: ColorOrder::Rgb,
                invert_colors: ColorInversion::Normal,
            }),
    {
        ModelOptions {
            display_size,
            framebuffer_size,
            orientation: Orientation::new(),
            color_order: ColorOrder::Rgb,
            invert_colors: ColorInversion::Normal,
        }
    }

    /// Runtime form of `valid`.
    pub fn is_valid(&self) -> (ok: bool)
        ensures
            ok == self.valid(),
    {
        check_sizes(self.display_size, self.framebuffer_size)
    }

    /// The same options with another visible size; `None`, and nothing else,
    /// when the framebuffer could not hold it.
    pub fn with_display_size(self, width: u16, height: u16) -> (r: Option<ModelOptions>)
        ensures
            r.is_some() == sizes_fit((width, height), self.framebuffer_size),
            r.is_some() ==> r.unwrap() == (ModelOptions { display_size: (width, height), ..self }),
    {
        if check_sizes((width, height), self.framebuffer_size) {
            Some(ModelOptions { display_size: (width, height), ..self })
        } else {
            None
        }
    }

    /// The same options with another framebuffer size; `None`, and nothing
    /// else, when it could not hold the visible area.
    pub fn with_framebuffer_size(self, width: u16, height: u16) -> (r: Option<ModelOptions>)
        ensures
            r.is_some() == sizes_fit(self.display_size, (width, height)),
            r.is_some() ==> r.unwrap() == (ModelOptions {
                framebuffer_size: (width, height),
                ..self
            }),
    {
        if check_sizes(self.display_size, (width, height)) {
            Some(ModelOptions { framebuffer_size: (width, height), ..self })
        } else {
            None
        }
    }

    pub fn with_orientation(self, orientation: Orientation) -> (o: ModelOptions)
        ensures
            o == (ModelOptions { orientation, ..self }),
    {
        ModelOptions { orientation, ..self }
    }

    pub fn with_color_order(self, color_order: ColorOrder) -> (o: ModelOptions)
        ensures
            o == (ModelOptions { color_order, ..self }),
    {
        ModelOptions { color_order, ..self }
    }

    pub fn with_invert_colors(self, invert_colors: ColorInversion) -> (o: ModelOptions)
        ensures
            o == (ModelOptions { invert_colors, ..self }),
    {
        ModelOptions { invert_colors, ..self }
    }
}

} // verus!
