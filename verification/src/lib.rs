//! Mass properties of composite rigid bodies, computed in exact integer
//! arithmetic.
//!
//! A [`system::RigidSystem`] is a tree of bodies. Each body has a mass, a
//! position, an inertia tensor about that position, and any number of
//! subsystems. The library folds such a tree into its total mass, its center
//! of mass and its inertia tensor, shifting every subsystem's tensor to the
//! parent's center of mass by the parallel-axis theorem.
//!
//! The values given are integers in units of the caller's choice, and all
//! share one orientation: between levels positions are shifted, never
//! rotated. Nothing is rounded: a center of mass is returned as the exact
//! fraction of the moment over the total mass, and a total inertia as an
//! exact sum of fractions. [`closed_form`] proves that sum equal to the
//! inertia as it is defined level by level, and [`regrouping`] that it does
//! not depend on how the bodies are grouped.
//!
//! [`limits`] holds the magnitudes that the library accepts. A system is
//! immutable once built, and every query on it is a read of what was
//! computed then.
pub mod limits;
pub mod vector;
pub mod tensor;
pub mod error;
pub mod body;
pub mod laws;
pub mod closed_form;
pub mod exact;
pub mod system;
pub mod regrouping;

mod arith;
