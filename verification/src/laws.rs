//! What holds of the aggregates of every body: a body without subsystems is
//! its own aggregate, the total mass is the sum of all masses, the center of
//! mass is the weighted mean of the centers below it, and what a subsystem
//! adds to its parent's inertia is the parallel-axis shift.
use vstd::prelude::*;
use vstd::seq_lib::{commutative_foldl, lemma_fold_left_permutation};
use crate::arith::lemma_product_with_zero;
use crate::body::{Body, contributions, moment_of, total_mass_of};
use crate::closed_form::{
    lemma_leaf_center, lemma_mass_times_center, lemma_real_massless, lemma_real_no_displacement,
    lemma_real_product, lemma_real_scaled_product,
};
use crate::tensor::{real_displacement_tensor, RealMat3};
use crate::vector::{RealVec3, Vec3};

verus! {

/// The own masses of the body and of every body below it, the body's first.
pub open spec fn masses(b: Body) -> Seq<int>
    decreases b,
{
    seq![b.mass] + masses_of(b.subsystems)
}

/// The own masses of every body in the systems of `s`, system by system.
pub open spec fn masses_of(s: Seq<Body>) -> Seq<int>
    decreases s,
{
    if s.len() == 0 {
        Seq::empty()
    } else {
        masses_of(s.drop_last()) + masses(s.last())
    }
}

/// The function that adds a number to a running sum.
pub open spec fn add_number() -> spec_fn(int, int) -> int {
    |acc: int, x: int| acc + x
}

/// The sum of the numbers in `s`.
pub open spec fn sum(s: Seq<int>) -> int {
    s.fold_left(0int, add_number())
}

/// The sum of two lists laid end to end is the sum of their sums.
pub proof fn lemma_sum_concat(s: Seq<int>, t: Seq<int>)
    ensures
        sum(s + t) == sum(s) + sum(t),
    decreases t.len(),
{
    if t.len() == 0 {
        assert(s + t =~= s);
    } else {
        assert((s + t).drop_last() =~= s + t.drop_last());
        lemma_sum_concat(s, t.drop_last());
    }
}

/// The sum of a list does not depend on the order of its elements.
pub proof fn lemma_sum_permutation(s: Seq<int>, t: Seq<int>)
    requires
        s.to_multiset() == t.to_multiset(),
    ensures
        sum(s) == sum(t),
{
    assert(commutative_foldl(add_number()));
    lemma_fold_left_permutation(s, t, add_number(), 0int);
}

/// Mass additivity: the total mass of a system is the sum of the own masses
/// of all its bodies.
pub proof fn lemma_mass_additivity(b: Body)
    ensures
        b.total_mass() == sum(masses(b)),
    decreases b,
{
    lemma_mass_additivity_of(b.subsystems);
    lemma_sum_concat(seq![b.mass], masses_of(b.subsystems));
    assert(seq![b.mass].drop_last() =~= Seq::<int>::empty());
    reveal_with_fuel(Seq::fold_left, 2);
}

/// Mass additivity for a list of systems.
pub proof fn lemma_mass_additivity_of(s: Seq<Body>)
    ensures
        total_mass_of(s) == sum(masses_of(s)),
    decreases s,
{
    if s.len() > 0 {
        lemma_mass_additivity_of(s.drop_last());
        lemma_mass_additivity(s.last());
        lemma_sum_concat(masses_of(s.drop_last()), masses(s.last()));
    }
}

/// The total mass does not depend on the shape of the tree: two systems
/// whose bodies have the same masses, however grouped and ordered, have the
/// same total mass.
pub proof fn lemma_mass_regrouping(a: Body, b: Body)
    requires
        masses(a).to_multiset() == masses(b).to_multiset(),
    ensures
        a.total_mass() == b.total_mass(),
{
    lemma_mass_additivity(a);
    lemma_mass_additivity(b);
    lemma_sum_permutation(masses(a), masses(b));
}

/// No valid system has negative total mass.
pub proof fn lemma_mass_nonnegative(b: Body)
    requires
        b.valid(),
    ensures
        b.total_mass() >= 0,
    decreases b,
{
    lemma_mass_nonnegative_of(b.subsystems);
}

/// Valid systems have no negative total mass together.
pub proof fn lemma_mass_nonnegative_of(s: Seq<Body>)
    requires
        forall|i: int| 0 <= i < s.len() ==> (#[trigger] s[i]).valid(),
    ensures
        total_mass_of(s) >= 0,
    decreases s,
{
    if s.len() > 0 {
        lemma_mass_nonnegative_of(s.drop_last());
        lemma_mass_nonnegative(s.last());
    }
}

/// A valid system without mass has no moment.
pub proof fn lemma_massless_moment(b: Body)
    requires
        b.valid(),
        b.total_mass() == 0,
    ensures
        b.moment() == Vec3::zero(),
    decreases b,
{
    lemma_mass_nonnegative_of(b.subsystems);
    lemma_massless_moment_of(b.subsystems);
    lemma_product_with_zero(b.mass, b.position.x);
    lemma_product_with_zero(b.mass, b.position.y);
    lemma_product_with_zero(b.mass, b.position.z);
}

/// Valid systems without mass together have no moment together.
pub proof fn lemma_massless_moment_of(s: Seq<Body>)
    requires
        forall|i: int| 0 <= i < s.len() ==> (#[trigger] s[i]).valid(),
        total_mass_of(s) == 0,
    ensures
        moment_of(s) == Vec3::zero(),
    decreases s,
{
    if s.len() > 0 {
        lemma_mass_nonnegative_of(s.drop_last());
        lemma_mass_nonnegative(s.last());
        lemma_massless_moment_of(s.drop_last());
        lemma_massless_moment(s.last());
    }
}

/// A body without subsystems is its own aggregate: its total mass is its
/// mass, its total inertia is its inertia, and, where it has mass, its
/// center of mass is its position.
pub proof fn lemma_leaf_identity(b: Body)
    requires
        b.subsystems.len() == 0,
    ensures
        b.total_mass() == b.mass,
        b.moment() == b.position.scaled(b.mass),
        b.mass > 0 ==> b.center_of_mass() == b.position.to_real(),
        b.total_inertia() == b.inertia.to_real(),
{
    if b.mass > 0 {
        lemma_leaf_center(b);
    }
}

/// A body without mass and without subsystems has no total mass, which is
/// where `center_of_mass` and `total_inertia` report `DegenerateMass`.
pub proof fn lemma_massless_leaf(b: Body)
    requires
        b.subsystems.len() == 0,
        b.mass == 0,
    ensures
        b.total_mass() == 0,
{
}

/// The sum, over the systems in `s`, of each one's total mass times its
/// center of mass.
pub open spec fn weighted_centers(s: Seq<Body>) -> RealVec3
    decreases s.len(),
{
    if s.len() == 0 {
        Vec3::zero().to_real()
    } else {
        weighted_centers(s.drop_last()).plus(
            s.last().center_of_mass().scaled(s.last().total_mass() as real),
        )
    }
}

/// The moment of valid systems is the sum of their total masses times their
/// centers of mass.
pub proof fn lemma_moment_of_centers(s: Seq<Body>)
    requires
        forall|i: int| 0 <= i < s.len() ==> (#[trigger] s[i]).valid(),
    ensures
        moment_of(s).to_real() == weighted_centers(s),
    decreases s.len(),
{
    if s.len() > 0 {
        lemma_moment_of_centers(s.drop_last());
        lemma_mass_times_center(s.last());
    }
}

/// The center of mass is the weighted mean: the total mass of a valid system
/// times its center of mass is the body's own mass times its position, and
/// each subsystem's total mass times its center of mass.
pub proof fn lemma_center_of_mass_of_centers(b: Body)
    requires
        b.valid(),
    ensures
        b.center_of_mass().scaled(b.total_mass() as real) == b.position.to_real().scaled(
            b.mass as real,
        ).plus(weighted_centers(b.subsystems)),
{
    lemma_mass_times_center(b);
    lemma_moment_of_centers(b.subsystems);
    lemma_real_product(b.mass, b.position.x);
    lemma_real_product(b.mass, b.position.y);
    lemma_real_product(b.mass, b.position.z);
}

/// The squared length of a real vector.
pub open spec fn real_norm_sq(d: RealVec3) -> real {
    d.x * d.x + d.y * d.y + d.z * d.z
}

/// The entries of the displacement tensor of `d` are those of
/// `|d|^2 * Id - d * d^T`.
pub proof fn lemma_displacement_tensor_entries(d: RealVec3)
    ensures
        real_displacement_tensor(d) == (RealMat3 {
            xx: real_norm_sq(d) - d.x * d.x,
            xy: -(d.x * d.y),
            xz: -(d.x * d.z),
            yx: -(d.y * d.x),
            yy: real_norm_sq(d) - d.y * d.y,
            yz: -(d.y * d.z),
            zx: -(d.z * d.x),
            zy: -(d.z * d.y),
            zz: real_norm_sq(d) - d.z * d.z,
        }),
{
}

/// Parallel-axis correctness: what a subsystem `c` adds to the inertia of a
/// parent whose center of mass is `center` is `I + m * (|d|^2 * Id - d * d^T)`,
/// where `I` is the subsystem's total inertia, `m` its total mass and `d` the
/// displacement of its center of mass from `center`.
pub proof fn lemma_parallel_axis(c: Body, center: RealVec3)
    ensures
        c.contribution(center) == c.total_inertia().plus(
            real_displacement_tensor(c.center_of_mass().minus(center)).scaled(
                c.total_mass() as real,
            ),
        ),
{
}

/// The total inertia of a body with one subsystem is its own inertia and
/// what that subsystem adds about the center of mass of the whole.
pub proof fn lemma_single_subsystem(b: Body)
    requires
        b.subsystems.len() == 1,
    ensures
        b.total_inertia() == b.inertia.to_real().plus(
            b.subsystems[0].contribution(b.center_of_mass()),
        ),
{
    let s = b.subsystems;
    let center = b.center_of_mass();
    assert(s.drop_last() =~= Seq::<Body>::empty());
    assert(contributions(s.drop_last(), center) == RealMat3::zero());
    assert(s.last() == s[0]);
    assert(contributions(s, center) == RealMat3::zero().plus(s[0].contribution(center)));
}

/// Zero displacement: a subsystem whose center of mass is the parent's adds
/// its own total inertia, unshifted.
pub proof fn lemma_zero_displacement(c: Body, center: RealVec3)
    requires
        c.center_of_mass() == center,
    ensures
        c.contribution(center) == c.total_inertia(),
{
    lemma_real_no_displacement(c.center_of_mass().minus(center), c.total_mass() as real);
}

/// A subsystem without mass adds its own total inertia, wherever it is.
pub proof fn lemma_massless_contribution(c: Body, center: RealVec3)
    requires
        c.total_mass() == 0,
    ensures
        c.contribution(center) == c.total_inertia(),
{
    lemma_real_massless(
        real_displacement_tensor(c.center_of_mass().minus(center)),
        c.total_mass() as real,
    );
}

/// The displacement tensor of a real vector, times a mass, is symmetric.
pub proof fn lemma_real_displacement_tensor_symmetric(d: RealVec3, mass: real)
    ensures
        real_displacement_tensor(d).scaled(mass).is_symmetric(),
{
    lemma_real_scaled_product(mass, d.x, d.y);
    lemma_real_scaled_product(mass, d.x, d.z);
    lemma_real_scaled_product(mass, d.y, d.z);
}

/// The total inertia of a valid system is symmetric.
pub proof fn lemma_total_inertia_symmetric(b: Body)
    requires
        b.valid(),
    ensures
        b.total_inertia().is_symmetric(),
    decreases b,
{
    lemma_contributions_symmetric(b.subsystems, b.center_of_mass());
}

/// What valid systems add to the inertia of a parent is symmetric.
pub proof fn lemma_contributions_symmetric(s: Seq<Body>, center: RealVec3)
    requires
        forall|i: int| 0 <= i < s.len() ==> (#[trigger] s[i]).valid(),
    ensures
        contributions(s, center).is_symmetric(),
    decreases s,
{
    if s.len() > 0 {
        let c = s.last();
        lemma_contributions_symmetric(s.drop_last(), center);
        lemma_total_inertia_symmetric(c);
        lemma_real_displacement_tensor_symmetric(
            c.center_of_mass().minus(center),
            c.total_mass() as real,
        );
    }
}

} // verus!
