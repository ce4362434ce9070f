//! The magnitudes that the library supports.
//!
//! Inputs and aggregates are held in 64-bit integers and combined in 128-bit
//! integers. The limits below keep every intermediate value of the
//! aggregation inside 128 bits.
use vstd::prelude::*;

verus! {

/// Largest mass of a body, and largest total mass of a system.
pub const MASS_MAX: i64 = 0x10_0000;

/// Largest magnitude of a coordinate of a position.
pub const COORD_MAX: i64 = 0x4000_0000;

/// Largest magnitude of a coordinate of the displacement between two
/// positions: twice `COORD_MAX`.
pub const DISPLACEMENT_MAX: i64 = 0x8000_0000;

/// Largest magnitude of an entry of an inertia tensor that is given, and of
/// the inertia of a system about the origin.
pub const INERTIA_MAX: i64 = 0x4000_0000_0000_0000;

} // verus!
