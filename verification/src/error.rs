//! The two error domains: bring-up and steady state.

use vstd::prelude::*;

verus! {

/// Why bring-up was aborted.
#[derive(Clone, Copy, Debug, PartialEq, Eq, Structural)]
pub enum InitError {
    /// The bus rejected a write.
    DisplayError,
    /// The reset pin could not be driven.
    Pin,
}

/// Why a steady-state operation was aborted.
#[derive(Clone, Copy, Debug, PartialEq, Eq, Structural)]
pub enum Error {
    /// The bus rejected a write.
    DisplayError,
}

} // verus!
