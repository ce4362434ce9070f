//! Regrouping: the aggregates of a tree of bodies do not depend on how its
//! leaves are grouped.
use vstd::prelude::*;
use vstd::seq_lib::{commutative_foldl, lemma_fold_left_permutation};
use crate::arith::lemma_product_with_zero;
use crate::body::{Body, moment_of, origin_inertia_of, total_mass_of};
use crate::closed_form::{
    closed_form, corrections, corrections_of, eccentricity, eccentricity_of, lemma_closed_form,
    lemma_own_eccentricity_vanishes, principal, TensorRatio,
};
use crate::tensor::{displacement_tensor, shifted, Mat3, RealMat3};
use crate::vector::Vec3;

verus! {

/// A body by itself: a mass at a position, with its inertia about that
/// position.
pub struct Part {
    pub mass: int,
    pub position: Vec3,
    pub inertia: Mat3,
}

/// The function that adds the mass of a part to a running sum.
pub open spec fn add_mass() -> spec_fn(int, Part) -> int {
    |acc: int, p: Part| acc + p.mass
}

/// The function that adds the mass of a part times its position to a
/// running sum.
pub open spec fn add_moment() -> spec_fn(Vec3, Part) -> Vec3 {
    |acc: Vec3, p: Part| acc.plus(p.position.scaled(p.mass))
}

/// The function that adds the inertia of a part about the origin to a
/// running sum.
pub open spec fn add_origin_inertia() -> spec_fn(Mat3, Part) -> Mat3 {
    |acc: Mat3, p: Part| acc.plus(shifted(p.inertia, p.mass, p.position))
}

/// The mass of the parts together.
pub open spec fn mass_of_parts(s: Seq<Part>) -> int {
    s.fold_left(0int, add_mass())
}

/// The sum of mass times position over the parts.
pub open spec fn moment_of_parts(s: Seq<Part>) -> Vec3 {
    s.fold_left(Vec3::zero(), add_moment())
}

/// The inertia of the parts about the origin: the sum of their tensors,
/// each shifted from the part's position to the origin.
pub open spec fn origin_inertia_of_parts(s: Seq<Part>) -> Mat3 {
    s.fold_left(Mat3::zero(), add_origin_inertia())
}

/// The mass, moment and inertia about the origin of two lists of parts laid
/// end to end are the sums of those of the two.
pub proof fn lemma_parts_concat(s: Seq<Part>, t: Seq<Part>)
    ensures
        mass_of_parts(s + t) == mass_of_parts(s) + mass_of_parts(t),
        moment_of_parts(s + t) == moment_of_parts(s).plus(moment_of_parts(t)),
        origin_inertia_of_parts(s + t) == origin_inertia_of_parts(s).plus(
            origin_inertia_of_parts(t),
        ),
    decreases t.len(),
{
    if t.len() == 0 {
        assert(s + t =~= s);
    } else {
        assert((s + t).drop_last() =~= s + t.drop_last());
        lemma_parts_concat(s, t.drop_last());
    }
}

/// The mass, moment and inertia about the origin of a list of parts do not
/// depend on the order of the parts.
pub proof fn lemma_parts_permutation(s: Seq<Part>, t: Seq<Part>)
    requires
        s.to_multiset() == t.to_multiset(),
    ensures
        mass_of_parts(s) == mass_of_parts(t),
        moment_of_parts(s) == moment_of_parts(t),
        origin_inertia_of_parts(s) == origin_inertia_of_parts(t),
{
    assert(commutative_foldl(add_mass()));
    assert(commutative_foldl(add_moment()));
    assert(commutative_foldl(add_origin_inertia()));
    lemma_fold_left_permutation(s, t, add_mass(), 0int);
    lemma_fold_left_permutation(s, t, add_moment(), Vec3::zero());
    lemma_fold_left_permutation(s, t, add_origin_inertia(), Mat3::zero());
}

/// The mass, moment and inertia about the origin of a single part.
pub proof fn lemma_single_part(p: Part)
    ensures
        mass_of_parts(seq![p]) == p.mass,
        moment_of_parts(seq![p]) == p.position.scaled(p.mass),
        origin_inertia_of_parts(seq![p]) == shifted(p.inertia, p.mass, p.position),
{
    let s = seq![p];
    assert(s.drop_last() =~= Seq::<Part>::empty());
    assert(s.last() == p);
    assert(mass_of_parts(s.drop_last()) == 0);
    assert(moment_of_parts(s.drop_last()) == Vec3::zero());
    assert(origin_inertia_of_parts(s.drop_last()) == Mat3::zero());
}

/// The body by itself, without its subsystems.
pub open spec fn part_of(b: Body) -> Part {
    Part { mass: b.mass, position: b.position, inertia: b.inertia }
}

/// The bodies of the tree, each by itself: the body first, then those of its
/// subsystems, from first to last.
pub open spec fn bodies(b: Body) -> Seq<Part>
    decreases b,
{
    seq![part_of(b)] + bodies_of(b.subsystems)
}

/// The bodies of the systems in `s`, system by system.
pub open spec fn bodies_of(s: Seq<Body>) -> Seq<Part>
    decreases s,
{
    if s.len() == 0 {
        Seq::empty()
    } else {
        bodies_of(s.drop_last()) + bodies(s.last())
    }
}

/// The leaves of the tree: its bodies without subsystems, from first to
/// last.
pub open spec fn leaves(b: Body) -> Seq<Part>
    decreases b,
{
    if b.subsystems.len() == 0 {
        seq![part_of(b)]
    } else {
        leaves_of(b.subsystems)
    }
}

/// The leaves of the systems in `s`, system by system.
pub open spec fn leaves_of(s: Seq<Body>) -> Seq<Part>
    decreases s,
{
    if s.len() == 0 {
        Seq::empty()
    } else {
        leaves_of(s.drop_last()) + leaves(s.last())
    }
}

/// Whether the bodies that have subsystems only group them: they have no
/// mass and no inertia of their own.
pub open spec fn is_grouping(b: Body) -> bool
    decreases b,
{
    &&& b.subsystems.len() > 0 ==> b.mass == 0 && b.inertia == Mat3::zero()
    &&& forall|i: int| 0 <= i < b.subsystems.len() ==> is_grouping(#[trigger] b.subsystems[i])
}

/// The total mass, the moment and the inertia about the origin of a tree are
/// those of its bodies.
pub proof fn lemma_bodies_aggregates(b: Body)
    ensures
        b.total_mass() == mass_of_parts(bodies(b)),
        b.moment() == moment_of_parts(bodies(b)),
        b.origin_inertia() == origin_inertia_of_parts(bodies(b)),
    decreases b,
{
    lemma_bodies_aggregates_of(b.subsystems);
    lemma_single_part(part_of(b));
    lemma_parts_concat(seq![part_of(b)], bodies_of(b.subsystems));
}

/// The aggregates of the systems in `s` are those of their bodies.
pub proof fn lemma_bodies_aggregates_of(s: Seq<Body>)
    ensures
        total_mass_of(s) == mass_of_parts(bodies_of(s)),
        moment_of(s) == moment_of_parts(bodies_of(s)),
        origin_inertia_of(s) == origin_inertia_of_parts(bodies_of(s)),
    decreases s,
{
    if s.len() > 0 {
        lemma_bodies_aggregates_of(s.drop_last());
        lemma_bodies_aggregates(s.last());
        lemma_parts_concat(bodies_of(s.drop_last()), bodies(s.last()));
    }
}

/// The center of mass does not depend on the shape of the tree: two trees
/// with the same bodies, however grouped and ordered, have the same total
/// mass, the same moment and the same center of mass.
pub proof fn lemma_center_of_mass_regrouping(a: Body, b: Body)
    requires
        bodies(a).to_multiset() == bodies(b).to_multiset(),
    ensures
        a.total_mass() == b.total_mass(),
        a.moment() == b.moment(),
        a.center_of_mass() == b.center_of_mass(),
        a.origin_inertia() == b.origin_inertia(),
{
    lemma_bodies_aggregates(a);
    lemma_bodies_aggregates(b);
    lemma_parts_permutation(bodies(a), bodies(b));
}

/// A body without mass and without inertia adds nothing to the inertia
/// about the origin.
proof fn lemma_nothing_at(p: Vec3, m: int)
    requires
        m == 0,
    ensures
        shifted(Mat3::zero(), m, p) == Mat3::zero(),
{
    let t = displacement_tensor(p);
    lemma_product_with_zero(m, t.xx);
    lemma_product_with_zero(m, t.xy);
    lemma_product_with_zero(m, t.xz);
    lemma_product_with_zero(m, t.yx);
    lemma_product_with_zero(m, t.yy);
    lemma_product_with_zero(m, t.yz);
    lemma_product_with_zero(m, t.zx);
    lemma_product_with_zero(m, t.zy);
    lemma_product_with_zero(m, t.zz);
}

/// The total mass, the moment and the inertia about the origin of a tree
/// whose inner bodies only group are those of its leaves.
pub proof fn lemma_leaves_aggregates(b: Body)
    requires
        is_grouping(b),
    ensures
        b.total_mass() == mass_of_parts(leaves(b)),
        b.moment() == moment_of_parts(leaves(b)),
        b.origin_inertia() == origin_inertia_of_parts(leaves(b)),
    decreases b,
{
    if b.subsystems.len() == 0 {
        lemma_single_part(part_of(b));
    } else {
        lemma_leaves_aggregates_of(b.subsystems);
        lemma_product_with_zero(b.mass, b.position.x);
        lemma_product_with_zero(b.mass, b.position.y);
        lemma_product_with_zero(b.mass, b.position.z);
        lemma_nothing_at(b.position, b.mass);
    }
}

/// The aggregates of the systems in `s` are those of their leaves.
pub proof fn lemma_leaves_aggregates_of(s: Seq<Body>)
    requires
        forall|i: int| 0 <= i < s.len() ==> is_grouping(#[trigger] s[i]),
    ensures
        total_mass_of(s) == mass_of_parts(leaves_of(s)),
        moment_of(s) == moment_of_parts(leaves_of(s)),
        origin_inertia_of(s) == origin_inertia_of_parts(leaves_of(s)),
    decreases s,
{
    if s.len() > 0 {
        lemma_leaves_aggregates_of(s.drop_last());
        lemma_leaves_aggregates(s.last());
        lemma_parts_concat(leaves_of(s.drop_last()), leaves(s.last()));
    }
}

/// A valid tree whose inner bodies only group has no corrections.
pub proof fn lemma_grouping_has_no_corrections(b: Body)
    requires
        b.valid(),
        is_grouping(b),
    ensures
        eccentricity(b) == RealMat3::zero(),
        corrections(b) == Seq::<TensorRatio>::empty(),
    decreases b,
{
    lemma_grouping_has_no_corrections_of(b.subsystems);
    lemma_own_eccentricity_vanishes(b);
}

/// Valid systems whose inner bodies only group have no corrections.
pub proof fn lemma_grouping_has_no_corrections_of(s: Seq<Body>)
    requires
        forall|i: int| 0 <= i < s.len() ==> (#[trigger] s[i]).valid(),
        forall|i: int| 0 <= i < s.len() ==> is_grouping(#[trigger] s[i]),
    ensures
        eccentricity_of(s) == RealMat3::zero(),
        corrections_of(s) == Seq::<TensorRatio>::empty(),
    decreases s,
{
    if s.len() > 0 {
        lemma_grouping_has_no_corrections_of(s.drop_last());
        lemma_grouping_has_no_corrections(s.last());
        assert(corrections_of(s) =~= Seq::<TensorRatio>::empty());
    }
}

/// Regrouping: two valid trees whose inner bodies only group, and whose
/// leaves are the same parts, however grouped and ordered, have the same
/// total mass, the same center of mass and the same total inertia, and the
/// library returns the same fractions for both.
pub proof fn lemma_regrouping(a: Body, b: Body)
    requires
        a.valid(),
        b.valid(),
        is_grouping(a),
        is_grouping(b),
        leaves(a).to_multiset() == leaves(b).to_multiset(),
    ensures
        a.total_mass() == b.total_mass(),
        a.moment() == b.moment(),
        a.center_of_mass() == b.center_of_mass(),
        a.total_inertia() == b.total_inertia(),
        principal(a) == principal(b),
        corrections(a) == corrections(b),
{
    lemma_leaves_aggregates(a);
    lemma_leaves_aggregates(b);
    lemma_parts_permutation(leaves(a), leaves(b));
    lemma_grouping_has_no_corrections(a);
    lemma_grouping_has_no_corrections(b);
    lemma_closed_form(a);
    lemma_closed_form(b);
    assert(closed_form(a) == closed_form(b));
}

} // verus!
