//! Systems of rigid bodies: building one, and asking for its mass
//! properties.
use vstd::prelude::*;
use crate::arith::{lemma_product_monotone, lemma_scale_bound};
use crate::body::{
    Body, lemma_prefix_mass, lemma_prefix_step, moment_of, origin_inertia_of, total_mass_of,
};
use crate::closed_form::{
    corrections, corrections_of, lemma_exact_inertia, principal, TensorRatio,
};
use crate::error::{Defect, SystemError};
use crate::laws::lemma_total_inertia_symmetric;
use crate::exact::{append_all, ratios_of, ExactTensor, ExactVector, TensorFraction};
use crate::limits::{COORD_MAX, INERTIA_MAX, MASS_MAX};
use crate::tensor::{
    displacement_tensor, is_three_by_three, mat3_of, shifted, Matrix3, WideMatrix,
};
use crate::vector::{vec3_of, Vector3, WideVector};

verus! {

/// A rigid body with the systems it is composed of.
///
/// A system is built once, from its own mass, position and inertia tensor
/// and from systems built before, which it owns from then on; nothing
/// changes it afterwards. Positions and tensors of all levels are given in
/// one frame and one orientation. The aggregates are computed when the
/// system is built and kept with it, so every query takes constant time.
///
/// Every system satisfies `Body::valid`; `total_mass` says so.
#[derive(Debug)]
pub struct RigidSystem {
    mass: i64,
    position: Vector3,
    local_inertia: Matrix3,
    subsystems: Vec<RigidSystem>,
    description: String,
    total_mass: i64,
    moment: WideVector,
    origin: Matrix3,
    inertia: ExactTensor,
}

impl View for RigidSystem {
    type V = Body;

    closed spec fn view(&self) -> Body {
        self.model()
    }
}

/// The bodies that a list of systems stands for, in order.
pub open spec fn views_of(s: Seq<RigidSystem>) -> Seq<Body> {
    Seq::new(s.len(), |i: int| s[i]@)
}

/// What is wrong with the shape of the values given to `RigidSystem::new`,
/// if anything: the first of a negative mass, a position that is no
/// three-vector, and a tensor that is no three-by-three matrix.
pub open spec fn shape_defect(mass: int, position: Seq<i64>, rows: Seq<Seq<i64>>) -> Option<
    Defect,
> {
    if mass < 0 {
        Some(Defect::NegativeMass)
    } else if position.len() != 3 {
        Some(Defect::VectorShape)
    } else if !is_three_by_three(rows) {
        Some(Defect::TensorShape)
    } else {
        None
    }
}

/// What keeps the library from building the system `b` from valid
/// subsystems, if anything. The first that applies is reported: a negative
/// mass; an asymmetric tensor; a negative diagonal entry; a mass, a
/// coordinate or a tensor entry of the body's own beyond its limit; a total
/// mass, or an entry of the inertia about the origin, beyond its limit.
pub open spec fn defect_of(b: Body) -> Option<Defect> {
    if b.mass < 0 {
        Some(Defect::NegativeMass)
    } else if !b.inertia.is_symmetric() {
        Some(Defect::AsymmetricTensor)
    } else if !b.inertia.has_nonnegative_diagonal() {
        Some(Defect::NegativeDiagonal)
    } else if !(b.mass <= MASS_MAX && b.position.within(COORD_MAX as int) && b.inertia.within(
        INERTIA_MAX as int,
    )) {
        Some(Defect::OutOfRange)
    } else if !(b.total_mass() <= MASS_MAX && b.origin_inertia().within(INERTIA_MAX as int)) {
        Some(Defect::OutOfRange)
    } else {
        None
    }
}

/// The magnitude that a coordinate of the moment of a system of total mass
/// `mass` can reach.
spec fn moment_span(mass: int) -> int {
    mass * 0x4000_0000
}

/// The magnitude that an entry can reach in the sum of a body's own tensor
/// about the origin and those of `count` systems.
spec fn origin_span(count: int) -> int {
    0x1000_0000_0000_0000_0000_0000_0000_0000 + count * 0x4000_0000_0000_0000
}

/// The corrections of the first `k + 1` systems of `s` are those of the first
/// `k`, and those of the system at `k`.
proof fn lemma_corrections_step(s: Seq<Body>, k: int)
    requires
        0 <= k < s.len(),
    ensures
        corrections_of(s.take(k + 1)) == corrections_of(s.take(k)) + corrections(s[k]),
{
    let t = s.take(k + 1);
    assert(t.drop_last() =~= s.take(k));
    assert(t.last() == s[k]);
}

impl RigidSystem {
    /// The body that the system stands for.
    spec fn model(&self) -> Body
        decreases self, 0nat,
    {
        Body {
            mass: self.mass as int,
            position: self.position@,
            inertia: self.local_inertia@,
            subsystems: Self::models(self.subsystems, self.subsystems.len() as nat),
            description: self.description@,
        }
    }

    /// The bodies that the first `n` systems of `v` stand for.
    spec fn models(v: Vec<RigidSystem>, n: nat) -> Seq<Body>
        decreases v, n,
    {
        if n == 0 || n > v.len() {
            Seq::empty()
        } else {
            Self::models(v, (n - 1) as nat).push(v[n - 1].model())
        }
    }

    /// `models` is `views_of` on a prefix.
    proof fn lemma_models(v: Vec<RigidSystem>, n: nat)
        requires
            n <= v.len(),
        ensures
            Self::models(v, n) == views_of(v@.take(n as int)),
        decreases n,
    {
        if n > 0 {
            Self::lemma_models(v, (n - 1) as nat);
        }
        assert(Self::models(v, n) =~= views_of(v@.take(n as int)));
    }

    /// The subsystems of the model are the models of the subsystems.
    proof fn lemma_model_subsystems(&self)
        ensures
            self@.subsystems == views_of(self.subsystems@),
    {
        Self::lemma_models(self.subsystems, self.subsystems.len() as nat);
        assert(self.subsystems@.take(self.subsystems.len() as int) =~= self.subsystems@);
    }

    /// The body is valid, and the aggregates kept with the system are those
    /// of the body.
    #[verifier::type_invariant]
    spec fn inv(&self) -> bool {
        &&& self@.valid()
        &&& self.total_mass == self@.total_mass()
        &&& 0 <= self.total_mass
        &&& self.moment@ == self@.moment()
        &&& self.moment@.within(moment_span(self.total_mass as int))
        &&& self.origin@ == self@.origin_inertia()
        &&& self.inertia.principal@ == principal(self@)
        &&& ratios_of(self.inertia.corrections@) == corrections(self@)
    }

    /// The total mass of the systems in `subsystems`.
    fn mass_below(subsystems: &Vec<RigidSystem>) -> (below: i128)
        ensures
            below == total_mass_of(views_of(subsystems@)),
            0 <= below,
            forall|i: int|
                0 <= i < subsystems.len() ==> (#[trigger] views_of(subsystems@)[i]).valid(),
            forall|i: int|
                0 <= i < subsystems.len() ==> (#[trigger] views_of(subsystems@)[i]).total_mass()
                    >= 0,
    {
        let ghost vs = views_of(subsystems@);
        let mut below: i128 = 0;
        let mut k: usize = 0;
        while k < subsystems.len()
            invariant
                k <= subsystems.len(),
                vs == views_of(subsystems@),
                below == total_mass_of(vs.take(k as int)),
                0 <= below <= k * 0x10_0000,
                forall|i: int| 0 <= i < k ==> (#[trigger] vs[i]).valid(),
                forall|i: int| 0 <= i < k ==> (#[trigger] vs[i]).total_mass() >= 0,
            decreases subsystems.len() - k,
        {
            let child = &subsystems[k];
            proof {
                use_type_invariant(child);
                lemma_prefix_step(vs, k as int);
                assert(vs[k as int] == child@);
            }
            below = below + child.total_mass as i128;
            k = k + 1;
        }
        proof {
            assert(vs.take(k as int) =~= vs);
        }
        below
    }

    /// The moment of a body of the given mass and position with the systems
    /// in `subsystems` below it.
    fn moment_sum(mass: i64, position: &Vector3, subsystems: &Vec<RigidSystem>) -> (moment:
        WideVector)
        requires
            0 <= mass,
            position@.within(COORD_MAX as int),
            mass + total_mass_of(views_of(subsystems@)) <= MASS_MAX,
            forall|i: int|
                0 <= i < subsystems.len() ==> (#[trigger] views_of(subsystems@)[i]).total_mass()
                    >= 0,
        ensures
            moment@ == position@.scaled(mass as int).plus(moment_of(views_of(subsystems@))),
            moment@.within(moment_span(mass + total_mass_of(views_of(subsystems@)))),
    {
        let ghost vs = views_of(subsystems@);
        let m: i128 = mass as i128;
        proof {
            lemma_prefix_mass(vs, 0);
            lemma_scale_bound(mass as int, position.x as int, 0x4000_0000);
            lemma_scale_bound(mass as int, position.y as int, 0x4000_0000);
            lemma_scale_bound(mass as int, position.z as int, 0x4000_0000);
            assert(vs.take(0) =~= Seq::<Body>::empty());
        }
        let mut moment = WideVector {
            x: m * (position.x as i128),
            y: m * (position.y as i128),
            z: m * (position.z as i128),
        };
        let mut k: usize = 0;
        while k < subsystems.len()
            invariant
                k <= subsystems.len(),
                vs == views_of(subsystems@),
                0 <= mass,
                mass + total_mass_of(vs) <= MASS_MAX,
                forall|i: int| 0 <= i < vs.len() ==> (#[trigger] vs[i]).total_mass() >= 0,
                moment@ == position@.scaled(mass as int).plus(moment_of(vs.take(k as int))),
                moment@.within(moment_span(mass + total_mass_of(vs.take(k as int)))),
                0 <= total_mass_of(vs.take(k as int)) <= total_mass_of(vs),
            decreases subsystems.len() - k,
        {
            let child = &subsystems[k];
            proof {
                use_type_invariant(child);
                lemma_prefix_step(vs, k as int);
                lemma_prefix_mass(vs, k + 1);
                assert(vs[k as int] == child@);
            }
            moment = WideVector {
                x: moment.x + child.moment.x,
                y: moment.y + child.moment.y,
                z: moment.z + child.moment.z,
            };
            k = k + 1;
        }
        proof {
            assert(vs.take(k as int) =~= vs);
        }
        moment
    }

    /// The inertia about the origin of a body of the given tensor, mass and
    /// position with the systems in `subsystems` below it.
    fn origin_sum(
        local: &Matrix3,
        mass: i64,
        position: &Vector3,
        subsystems: &Vec<RigidSystem>,
    ) -> (sum: WideMatrix)
        requires
            0 <= mass <= MASS_MAX,
            position@.within(COORD_MAX as int),
        ensures
            sum@ == shifted(local@, mass as int, position@).plus(
                origin_inertia_of(views_of(subsystems@)),
            ),
    {
        let ghost vs = views_of(subsystems@);
        let mut sum = WideMatrix::shifted(local, mass, position);
        let mut k: usize = 0;
        proof {
            assert(vs.take(0) =~= Seq::<Body>::empty());
        }
        while k < subsystems.len()
            invariant
                k <= subsystems.len(),
                vs == views_of(subsystems@),
                sum@ == shifted(local@, mass as int, position@).plus(
                    origin_inertia_of(vs.take(k as int)),
                ),
                sum@.within(origin_span(k as int)),
            decreases subsystems.len() - k,
        {
            let child = &subsystems[k];
            proof {
                use_type_invariant(child);
                lemma_prefix_step(vs, k as int);
                assert(vs[k as int] == child@);
            }
            let term = WideMatrix::widen(&child.origin);
            sum = sum.plus(&term);
            k = k + 1;
        }
        proof {
            assert(vs.take(k as int) =~= vs);
        }
        sum
    }

    /// The corrections of the systems in `subsystems`.
    fn corrections_below(subsystems: &Vec<RigidSystem>) -> (all: Vec<TensorFraction>)
        ensures
            ratios_of(all@) == corrections_of(views_of(subsystems@)),
    {
        let ghost vs = views_of(subsystems@);
        let mut all: Vec<TensorFraction> = Vec::new();
        let mut k: usize = 0;
        proof {
            assert(vs.take(0) =~= Seq::<Body>::empty());
            assert(ratios_of(all@) =~= Seq::<TensorRatio>::empty());
        }
        while k < subsystems.len()
            invariant
                k <= subsystems.len(),
                vs == views_of(subsystems@),
                ratios_of(all@) == corrections_of(vs.take(k as int)),
            decreases subsystems.len() - k,
        {
            let child = &subsystems[k];
            proof {
                use_type_invariant(child);
                lemma_corrections_step(vs, k as int);
                assert(vs[k as int] == child@);
            }
            append_all(&mut all, &child.inertia.corrections);
            k = k + 1;
        }
        proof {
            assert(vs.take(k as int) =~= vs);
        }
        all
    }

    /// The correction for a body of mass `mass` at `position` in a system of
    /// the given total mass and moment.
    fn own_correction(mass: i64, position: &Vector3, total: i64, moment: &WideVector) -> (f:
        TensorFraction)
        requires
            0 < mass <= total <= MASS_MAX,
            position@.within(COORD_MAX as int),
            moment@.within(moment_span(total as int)),
        ensures
            f@ == (TensorRatio {
                numerator: displacement_tensor(
                    position@.scaled(total as int).minus(moment@),
                ).scaled(mass as int),
                denominator: total * total,
            }),
    {
        let t: i128 = total as i128;
        proof {
            lemma_scale_bound(total as int, position.x as int, 0x4000_0000);
            lemma_scale_bound(total as int, position.y as int, 0x4000_0000);
            lemma_scale_bound(total as int, position.z as int, 0x4000_0000);
            lemma_product_monotone(total as int, total as int, 0x10_0000, 0x10_0000);
        }
        let w = WideVector {
            x: t * (position.x as i128) - moment.x,
            y: t * (position.y as i128) - moment.y,
            z: t * (position.z as i128) - moment.z,
        };
        let numerator = WideMatrix::of_displacement(&w).scaled(mass);
        TensorFraction { numerator, denominator: t * t }
    }

    /// The principal fraction of a system of the given aggregates.
    fn principal_of(origin: &Matrix3, total: i64, moment: &WideVector) -> (f: TensorFraction)
        requires
            0 <= total <= MASS_MAX,
            origin@.within(INERTIA_MAX as int),
            moment@.within(moment_span(total as int)),
        ensures
            f@ == (TensorRatio {
                numerator: origin@.scaled(total as int).plus(
                    displacement_tensor(moment@).scaled(-1),
                ),
                denominator: total as int,
            }),
    {
        let about_origin = WideMatrix::widen(origin).scaled(total);
        let back = WideMatrix::of_displacement(moment).negated();
        TensorFraction { numerator: about_origin.plus(&back), denominator: total as i128 }
    }

    /// Builds a system from a body's own mass, position and inertia tensor
    /// and from the systems below it.
    ///
    /// The tensor is taken about `position`, in the orientation that all
    /// levels share. The result is the system, or the first defect that
    /// `defect_of` finds.
    pub fn assemble(
        mass: i64,
        position: Vector3,
        local_inertia: Matrix3,
        subsystems: Vec<RigidSystem>,
        description: String,
    ) -> (r: Result<RigidSystem, SystemError>)
        ensures
            ({
                let b = Body {
                    mass: mass as int,
                    position: position@,
                    inertia: local_inertia@,
                    subsystems: views_of(subsystems@),
                    description: description@,
                };
                match defect_of(b) {
                    Some(d) => r == Err::<RigidSystem, SystemError>(SystemError::MalformedInput(d)),
                    None => r matches Ok(sys) && sys@ == b && b.valid(),
                }
            }),
    {
        let ghost b = Body {
            mass: mass as int,
            position: position@,
            inertia: local_inertia@,
            subsystems: views_of(subsystems@),
            description: description@,
        };
        if mass < 0 {
            return Err(SystemError::MalformedInput(Defect::NegativeMass));
        }
        if !local_inertia.is_symmetric() {
            return Err(SystemError::MalformedInput(Defect::AsymmetricTensor));
        }
        if !local_inertia.has_nonnegative_diagonal() {
            return Err(SystemError::MalformedInput(Defect::NegativeDiagonal));
        }
        if mass > MASS_MAX || !position.within(COORD_MAX) || !local_inertia.within(INERTIA_MAX) {
            return Err(SystemError::MalformedInput(Defect::OutOfRange));
        }
        let below = Self::mass_below(&subsystems);
        if below > (MASS_MAX - mass) as i128 {
            return Err(SystemError::MalformedInput(Defect::OutOfRange));
        }
        let total: i64 = mass + (below as i64);
        let moment = Self::moment_sum(mass, &position, &subsystems);
        let origin = match Self::origin_sum(&local_inertia, mass, &position, &subsystems).narrow() {
            Some(origin) => origin,
            None => {
                return Err(SystemError::MalformedInput(Defect::OutOfRange));
            },
        };
        let mut all = Self::corrections_below(&subsystems);
        if mass > 0 && subsystems.len() > 0 {
            let ghost before = all@;
            let own = Self::own_correction(mass, &position, total, &moment);
            all.push(own);
            proof {
                assert(ratios_of(all@) =~= ratios_of(before).push(own@));
            }
        }
        let principal = Self::principal_of(&origin, total, &moment);
        proof {
            Self::lemma_models(subsystems, subsystems.len() as nat);
            assert(subsystems@.take(subsystems.len() as int) =~= subsystems@);
        }
        let sys = RigidSystem {
            mass,
            position,
            local_inertia,
            subsystems,
            description,
            total_mass: total,
            moment,
            origin,
            inertia: ExactTensor { principal, corrections: all },
        };
        assert(sys@ == b);
        Ok(sys)
    }

    /// Builds a system from plain values: the three coordinates of the
    /// position, and the inertia tensor as three rows of three entries.
    ///
    /// The result is the system that `assemble` builds from the vector and
    /// the matrix that the lists spell out, or the first defect that
    /// `shape_defect` or, after it, `defect_of` finds.
    pub fn new(
        mass: i64,
        position: Vec<i64>,
        moment_of_inertia: Vec<Vec<i64>>,
        subsystems: Vec<RigidSystem>,
        description: String,
    ) -> (r: Result<RigidSystem, SystemError>)
        ensures
            match shape_defect(mass as int, position@, moment_of_inertia.deep_view()) {
                Some(d) => r == Err::<RigidSystem, SystemError>(SystemError::MalformedInput(d)),
                None => {
                    let b = Body {
                        mass: mass as int,
                        position: vec3_of(position@),
                        inertia: mat3_of(moment_of_inertia.deep_view()),
                        subsystems: views_of(subsystems@),
                        description: description@,
                    };
                    match defect_of(b) {
                        Some(d) => r == Err::<RigidSystem, SystemError>(
                            SystemError::MalformedInput(d),
                        ),
                        None => r matches Ok(sys) && sys@ == b && b.valid(),
                    }
                },
            },
    {
        if mass < 0 {
            return Err(SystemError::MalformedInput(Defect::NegativeMass));
        }
        let at = match Vector3::from_vec(&position) {
            Some(v) => v,
            None => {
                return Err(SystemError::MalformedInput(Defect::VectorShape));
            },
        };
        let local_inertia = match Matrix3::from_rows(&moment_of_inertia) {
            Some(m) => m,
            None => {
                return Err(SystemError::MalformedInput(Defect::TensorShape));
            },
        };
        Self::assemble(mass, at, local_inertia, subsystems, description)
    }

    /// The body's own mass, without its subsystems.
    pub fn get_mass(&self) -> (m: i64)
        ensures
            m == self@.mass,
    {
        self.mass
    }

    /// The body's own position, as it was given.
    pub fn get_position(&self) -> (p: Vector3)
        ensures
            p@ == self@.position,
    {
        self.position
    }

    /// The body's own inertia tensor, as it was given.
    pub fn get_local_inertia(&self) -> (m: Matrix3)
        ensures
            m@ == self@.inertia,
    {
        self.local_inertia
    }

    /// The label that the system was built with.
    pub fn get_description(&self) -> (d: &String)
        ensures
            d@ == self@.description,
    {
        &self.description
    }

    /// The systems directly below this one, in the order given.
    pub fn get_subsystems(&self) -> (s: &Vec<RigidSystem>)
        ensures
            views_of(s@) == self@.subsystems,
    {
        proof {
            self.lemma_model_subsystems();
        }
        &self.subsystems
    }

    /// The mass of the whole system: the body's own and that of every body
    /// below it.
    pub fn total_mass(&self) -> (m: i64)
        ensures
            m == self@.total_mass(),
            0 <= m <= MASS_MAX,
            self@.valid(),
    {
        proof {
            use_type_invariant(self);
        }
        self.total_mass
    }

    /// The moment of the whole system: the sum of mass times position over
    /// the body and every body below it.
    pub fn moment(&self) -> (w: WideVector)
        ensures
            w@ == self@.moment(),
    {
        proof {
            use_type_invariant(self);
        }
        self.moment
    }

    /// The center of mass of the whole system, as the moment over the total
    /// mass, or `DegenerateMass` where the system has no mass.
    pub fn center_of_mass(&self) -> (r: Result<ExactVector, SystemError>)
        ensures
            match r {
                Ok(c) => {
                    &&& self@.total_mass() > 0
                    &&& c@ == self@.center_of_mass()
                    &&& c.numerator@ == self@.moment()
                    &&& c.denominator == self@.total_mass()
                },
                Err(e) => self@.total_mass() == 0 && e == SystemError::DegenerateMass,
            },
    {
        proof {
            use_type_invariant(self);
        }
        if self.total_mass == 0 {
            return Err(SystemError::DegenerateMass);
        }
        Ok(ExactVector { numerator: self.moment, denominator: self.total_mass })
    }

    /// The inertia tensor of the whole system about its center of mass, as a
    /// principal fraction over the total mass less one correction for every
    /// body that has both mass and subsystems, or `DegenerateMass` where the
    /// system has no mass.
    pub fn total_inertia(&self) -> (r: Result<&ExactTensor, SystemError>)
        ensures
            match r {
                Ok(t) => {
                    &&& self@.total_mass() > 0
                    &&& t@ == self@.total_inertia()
                    &&& t@.is_symmetric()
                    &&& t.principal@ == principal(self@)
                    &&& ratios_of(t.corrections@) == corrections(self@)
                },
                Err(e) => self@.total_mass() == 0 && e == SystemError::DegenerateMass,
            },
    {
        proof {
            use_type_invariant(self);
        }
        if self.total_mass == 0 {
            return Err(SystemError::DegenerateMass);
        }
        proof {
            lemma_exact_inertia(self@);
            lemma_total_inertia_symmetric(self@);
        }
        Ok(&self.inertia)
    }
}

} // verus!
