//! The errors that the library reports.
use vstd::prelude::*;

verus! {

/// What is wrong with the values that a system was to be built from.
#[derive(Clone, Copy, Debug, PartialEq, Eq, Structural)]
pub enum Defect {
    /// The mass is negative.
    NegativeMass,
    /// The position does not have exactly three coordinates.
    VectorShape,
    /// The inertia tensor does not have exactly three rows of three entries.
    TensorShape,
    /// The inertia tensor differs from its transpose.
    AsymmetricTensor,
    /// An entry on the diagonal of the inertia tensor is negative.
    NegativeDiagonal,
    /// A value given, or the total mass or total inertia that would result,
    /// is beyond the magnitudes of [`crate::limits`].
    OutOfRange,
}

/// The ways in which building or querying a system fails.
#[derive(Clone, Copy, Debug, PartialEq, Eq, Structural)]
pub enum SystemError {
    /// The values given describe no system; nothing was built.
    MalformedInput(Defect),
    /// The system has no mass, so it has no center of mass.
    DegenerateMass,
}

impl Defect {
    /// A sentence that describes the defect.
    pub fn message(&self) -> (s: &'static str)
        ensures
            s@ == match *self {
                Defect::NegativeMass => "the mass is negative"@,
                Defect::VectorShape => "the position does not have three coordinates"@,
                Defect::TensorShape => "the inertia tensor does not have three rows of three entries"@,
                Defect::AsymmetricTensor => "the inertia tensor is not symmetric"@,
                Defect::NegativeDiagonal => "the inertia tensor has a negative diagonal entry"@,
                Defect::OutOfRange => "a magnitude is beyond the supported range"@,
            },
    {
        match self {
            Defect::NegativeMass => "the mass is negative",
            Defect::VectorShape => "the position does not have three coordinates",
            Defect::TensorShape => "the inertia tensor does not have three rows of three entries",
            Defect::AsymmetricTensor => "the inertia tensor is not symmetric",
            Defect::NegativeDiagonal => "the inertia tensor has a negative diagonal entry",
            Defect::OutOfRange => "a magnitude is beyond the supported range",
        }
    }
}

impl SystemError {
    /// A sentence that describes the error.
    pub fn message(&self) -> (s: &'static str)
        ensures
            s@ == match *self {
                SystemError::MalformedInput(d) => d.message_text(),
                SystemError::DegenerateMass => "the system has no mass"@,
            },
    {
        match self {
            SystemError::MalformedInput(d) => d.message(),
            SystemError::DegenerateMass => "the system has no mass",
        }
    }
}

impl Defect {
    /// The text of `message`, for contracts.
    pub open spec fn message_text(self) -> Seq<char> {
        match self {
            Defect::NegativeMass => "the mass is negative"@,
            Defect::VectorShape => "the position does not have three coordinates"@,
            Defect::TensorShape => "the inertia tensor does not have three rows of three entries"@,
            Defect::AsymmetricTensor => "the inertia tensor is not symmetric"@,
            Defect::NegativeDiagonal => "the inertia tensor has a negative diagonal entry"@,
            Defect::OutOfRange => "a magnitude is beyond the supported range"@,
        }
    }
}

} // verus!
