//! Markers for the magnetometer mode a handle is in.

use vstd::prelude::*;

verus! {

/// Magnetometer one-shot (single) mode
#[derive(Debug)]
pub struct MagOneShot;

/// Magnetometer continuous mode
#[derive(Debug)]
pub struct MagContinuous;

} // verus!
