//! The mathematical model of a composite body, and what its aggregate mass
//! properties are.
use vstd::prelude::*;
use crate::limits::{MASS_MAX, COORD_MAX, INERTIA_MAX};
use crate::tensor::{real_shifted, shifted, Mat3, RealMat3};
use crate::vector::{RealVec3, Vec3};

verus! {

/// A body and its subsystems: the value that a
/// [`crate::system::RigidSystem`] stands for in contracts.
///
/// `mass`, `position` and `inertia` are the body's own: they do not include
/// the subsystems. `position` and the positions of the subsystems are given
/// in one frame. `inertia` is taken about `position`.
pub struct Body {
    pub mass: int,
    pub position: Vec3,
    pub inertia: Mat3,
    pub subsystems: Seq<Body>,
    pub description: Seq<char>,
}

impl Body {
    /// The mass of the body and of all bodies below it.
    pub open spec fn total_mass(self) -> int
        decreases self,
    {
        self.mass + total_mass_of(self.subsystems)
    }

    /// The sum, over the body and all bodies below it, of each one's own
    /// mass times its own position. For a system with mass this is its
    /// total mass times its exact center of mass.
    pub open spec fn moment(self) -> Vec3
        decreases self,
    {
        self.position.scaled(self.mass).plus(moment_of(self.subsystems))
    }

    /// The center of mass: the mass-weighted mean of the positions of the
    /// body and of all bodies below it, which is the moment divided by the
    /// total mass. It has no meaning where the total mass is zero.
    pub open spec fn center_of_mass(self) -> RealVec3 {
        self.moment().to_real().divided(self.total_mass() as real)
    }

    /// The inertia tensor of the whole system about its own center of mass:
    /// the body's own tensor, and the tensor of each subsystem shifted from
    /// the subsystem's center of mass to that of the whole.
    pub open spec fn total_inertia(self) -> RealMat3
        decreases self,
    {
        self.inertia.to_real().plus(contributions(self.subsystems, self.center_of_mass()))
    }

    /// What the system adds, as a subsystem, to the inertia of a parent whose
    /// center of mass is `center`.
    pub open spec fn contribution(self, center: RealVec3) -> RealMat3 {
        real_shifted(
            self.total_inertia(),
            self.total_mass() as real,
            self.center_of_mass().minus(center),
        )
    }

    /// The inertia of the whole system about the origin, with every body
    /// taken at its own position: the sum, over the body and all bodies
    /// below it, of each one's own tensor shifted from its position to the
    /// origin.
    pub open spec fn origin_inertia(self) -> Mat3
        decreases self,
    {
        shifted(self.inertia, self.mass, self.position).plus(
            origin_inertia_of(self.subsystems),
        )
    }

    /// Whether the body's own values, and the aggregates of the system, are
    /// such as the library accepts.
    pub open spec fn is_admissible(self) -> bool {
        &&& 0 <= self.mass
        &&& self.position.within(COORD_MAX as int)
        &&& self.inertia.is_symmetric()
        &&& self.inertia.has_nonnegative_diagonal()
        &&& self.inertia.within(INERTIA_MAX as int)
        &&& self.total_mass() <= MASS_MAX
        &&& self.origin_inertia().within(INERTIA_MAX as int)
    }

    /// Whether the body and every body below it is admissible. This holds of
    /// every system that the library builds.
    pub open spec fn valid(self) -> bool
        decreases self,
    {
        &&& self.is_admissible()
        &&& forall|i: int|
            0 <= i < self.subsystems.len() ==> (#[trigger] self.subsystems[i]).valid()
    }
}

/// The sum of the total masses of the systems in `s`.
pub open spec fn total_mass_of(s: Seq<Body>) -> int
    decreases s,
{
    if s.len() == 0 {
        0
    } else {
        total_mass_of(s.drop_last()) + s.last().total_mass()
    }
}

/// The sum of the moments of the systems in `s`.
pub open spec fn moment_of(s: Seq<Body>) -> Vec3
    decreases s,
{
    if s.len() == 0 {
        Vec3::zero()
    } else {
        moment_of(s.drop_last()).plus(s.last().moment())
    }
}

/// The sum of what the systems in `s` add to the inertia of a parent whose
/// center of mass is `center`.
pub open spec fn contributions(s: Seq<Body>, center: RealVec3) -> RealMat3
    decreases s,
{
    if s.len() == 0 {
        RealMat3::zero()
    } else {
        contributions(s.drop_last(), center).plus(
            real_shifted(
                s.last().total_inertia(),
                s.last().total_mass() as real,
                s.last().center_of_mass().minus(center),
            ),
        )
    }
}

/// The sum of the inertias about the origin of the systems in `s`.
pub open spec fn origin_inertia_of(s: Seq<Body>) -> Mat3
    decreases s,
{
    if s.len() == 0 {
        Mat3::zero()
    } else {
        origin_inertia_of(s.drop_last()).plus(s.last().origin_inertia())
    }
}

/// The sums over the first `k + 1` systems of `s` are those over the first
/// `k`, and the system at `k`.
pub proof fn lemma_prefix_step(s: Seq<Body>, k: int)
    requires
        0 <= k < s.len(),
    ensures
        total_mass_of(s.take(k + 1)) == total_mass_of(s.take(k)) + s[k].total_mass(),
        moment_of(s.take(k + 1)) == moment_of(s.take(k)).plus(s[k].moment()),
        origin_inertia_of(s.take(k + 1)) == origin_inertia_of(s.take(k)).plus(
            s[k].origin_inertia(),
        ),
{
    let t = s.take(k + 1);
    assert(t.drop_last() =~= s.take(k));
    assert(t.last() == s[k]);
}

/// Where no system in `s` has negative total mass, the first `k` of them
/// weigh no more than all.
pub proof fn lemma_prefix_mass(s: Seq<Body>, k: int)
    requires
        0 <= k <= s.len(),
        forall|i: int| 0 <= i < s.len() ==> (#[trigger] s[i]).total_mass() >= 0,
    ensures
        0 <= total_mass_of(s.take(k)) <= total_mass_of(s),
    decreases s.len() - k,
{
    if k == s.len() {
        assert(s.take(k) =~= s);
        lemma_total_mass_of_nonnegative(s);
    } else {
        lemma_prefix_mass(s, k + 1);
        lemma_prefix_step(s, k);
        lemma_total_mass_of_nonnegative(s.take(k));
    }
}

/// Systems of non-negative total mass weigh no less than nothing together.
pub proof fn lemma_total_mass_of_nonnegative(s: Seq<Body>)
    requires
        forall|i: int| 0 <= i < s.len() ==> (#[trigger] s[i]).total_mass() >= 0,
    ensures
        0 <= total_mass_of(s),
    decreases s.len(),
{
    if s.len() > 0 {
        lemma_total_mass_of_nonnegative(s.drop_last());
    }
}

} // verus!
