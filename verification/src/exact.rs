//! Exact results: a center of mass and a total inertia as fractions of
//! integers.
use vstd::prelude::*;
use crate::closed_form::{sum_of, TensorRatio};
use crate::tensor::{RealMat3, WideMatrix};
use crate::vector::{RealVec3, WideVector};

verus! {

/// A vector as a fraction: three integers over one denominator.
#[derive(Clone, Copy, Debug, PartialEq, Eq, Structural)]
pub struct ExactVector {
    pub numerator: WideVector,
    pub denominator: i64,
}

impl View for ExactVector {
    type V = RealVec3;

    open spec fn view(&self) -> RealVec3 {
        self.numerator@.to_real().divided(self.denominator as real)
    }
}

/// A tensor as a fraction: nine integers over one denominator.
#[derive(Clone, Copy, Debug, PartialEq, Eq, Structural)]
pub struct TensorFraction {
    pub numerator: WideMatrix,
    pub denominator: i128,
}

impl View for TensorFraction {
    type V = TensorRatio;

    open spec fn view(&self) -> TensorRatio {
        TensorRatio { numerator: self.numerator@, denominator: self.denominator as int }
    }
}

/// The fractions that a list stands for, in order.
pub open spec fn ratios_of(s: Seq<TensorFraction>) -> Seq<TensorRatio> {
    Seq::new(s.len(), |i: int| s[i]@)
}

/// A tensor as a principal fraction less a list of corrections. The
/// principal fraction has the total mass of the system as its denominator.
/// There is one correction for every body of the system that has both mass
/// and subsystems, so a tree whose inner bodies have no mass has none.
#[derive(Debug, PartialEq, Eq)]
pub struct ExactTensor {
    pub principal: TensorFraction,
    pub corrections: Vec<TensorFraction>,
}

impl View for ExactTensor {
    type V = RealMat3;

    open spec fn view(&self) -> RealMat3 {
        self.principal@.value().minus(sum_of(ratios_of(self.corrections@)))
    }
}

/// Adds the fractions of `from` to the end of `into`.
pub(crate) fn append_all(into: &mut Vec<TensorFraction>, from: &Vec<TensorFraction>)
    ensures
        final(into)@ == old(into)@ + from@,
        ratios_of(final(into)@) == ratios_of(old(into)@) + ratios_of(from@),
{
    let ghost before = into@;
    let mut j: usize = 0;
    while j < from.len()
        invariant
            j <= from.len(),
            into@ == before + from@.take(j as int),
        decreases from.len() - j,
    {
        into.push(from[j]);
        proof {
            assert(from@.take(j + 1) =~= from@.take(j as int).push(from@[j as int]));
        }
        j = j + 1;
    }
    proof {
        assert(from@.take(j as int) =~= from@);
        assert(ratios_of(into@) =~= ratios_of(before) + ratios_of(from@));
    }
}

} // verus!
