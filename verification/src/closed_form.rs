//! The total inertia in closed form.
//!
//! The total inertia of a system is defined level by level: each subsystem's
//! tensor is shifted to the center of mass of its parent. This module proves
//! that it is the inertia of all bodies about the origin, shifted back to
//! the center of mass of the whole, less what each body's own mass would add
//! if it were shifted from the body's position to the center of the system
//! below it, which the definition leaves out.
use vstd::prelude::*;
use crate::body::{Body, contributions, moment_of, origin_inertia_of, total_mass_of};
use crate::laws::{lemma_mass_nonnegative, lemma_mass_nonnegative_of, lemma_massless_moment};
use crate::tensor::{
    displacement_tensor, real_displacement_tensor, real_shifted, shifted, Mat3, RealMat3,
};
use crate::vector::{RealVec3, Vec3};

verus! {

/// The tensor `2 * (w . a) * Id - w * a^T - a * w^T`, which is linear in
/// each of its arguments.
pub open spec fn real_cross_tensor(w: RealVec3, a: RealVec3) -> RealMat3 {
    RealMat3 {
        xx: 2real * (w.y * a.y + w.z * a.z),
        xy: -(w.x * a.y) - (a.x * w.y),
        xz: -(w.x * a.z) - (a.x * w.z),
        yx: -(w.y * a.x) - (a.y * w.x),
        yy: 2real * (w.x * a.x + w.z * a.z),
        yz: -(w.y * a.z) - (a.y * w.z),
        zx: -(w.z * a.x) - (a.z * w.x),
        zy: -(w.z * a.y) - (a.z * w.y),
        zz: 2real * (w.x * a.x + w.y * a.y),
    }
}

/// What the body's own mass would add to the inertia if it were shifted from
/// the body's position to the center of mass of the system.
pub open spec fn own_eccentricity(b: Body) -> RealMat3 {
    real_displacement_tensor(b.position.to_real().minus(b.center_of_mass())).scaled(
        b.mass as real,
    )
}

/// The sum of `own_eccentricity` over the body and all bodies below it.
pub open spec fn eccentricity(b: Body) -> RealMat3
    decreases b,
{
    own_eccentricity(b).plus(eccentricity_of(b.subsystems))
}

/// The sum of the eccentricities of the systems in `s`.
pub open spec fn eccentricity_of(s: Seq<Body>) -> RealMat3
    decreases s,
{
    if s.len() == 0 {
        RealMat3::zero()
    } else {
        eccentricity_of(s.drop_last()).plus(eccentricity(s.last()))
    }
}

/// The total inertia in closed form, from the aggregates of the system.
pub open spec fn closed_form(b: Body) -> RealMat3 {
    b.origin_inertia().to_real().minus(
        real_displacement_tensor(b.center_of_mass()).scaled(b.total_mass() as real),
    ).minus(eccentricity(b))
}

/// What systems of the given aggregates add to the inertia of a parent whose
/// center of mass is `a`.
pub open spec fn closed_contributions(
    origin: RealMat3,
    ecc: RealMat3,
    mass: real,
    moment: RealVec3,
    a: RealVec3,
) -> RealMat3 {
    origin.minus(ecc).plus(real_displacement_tensor(a).scaled(mass)).minus(
        real_cross_tensor(moment, a),
    )
}


/// The cast of a product is the product of the casts.
pub proof fn lemma_real_product(a: int, b: int)
    by (nonlinear_arith)
    ensures
        (a * b) as real == (a as real) * (b as real),
{
}

/// A quotient times its divisor is the dividend.
pub proof fn lemma_quotient_times(n: real, d: real)
    by (nonlinear_arith)
    requires
        d != 0real,
    ensures
        d * (n / d) == n,
{
}

/// A product with a zero factor is zero.
pub proof fn lemma_real_zero_product(a: real, b: real)
    by (nonlinear_arith)
    requires
        a == 0real || b == 0real,
    ensures
        a * b == 0real,
{
}

/// Multiplication distributes over sums and differences.
pub proof fn lemma_real_scaled_sum(m: real, x: real, y: real, z: real)
    by (nonlinear_arith)
    ensures
        m * (x + y + z) == m * x + m * y + m * z,
        m * (x + y) == m * x + m * y,
        m * (x - y) == m * x - m * y,
        m * (-x) == -(m * x),
        (x + y) * m == x * m + y * m,
        (x - y) * m == x * m - y * m,
{
}

/// A factor moves freely within a product of three.
pub proof fn lemma_real_scaled_product(m: real, u: real, a: real)
    by (nonlinear_arith)
    ensures
        m * (u * a) == (m * u) * a,
        m * (u * a) == u * (m * a),
        m * (u * a) == a * (m * u),
        u * a == a * u,
{
}

/// The product of two differences, multiplied out.
pub proof fn lemma_real_product_of_differences(u: real, a: real, v: real, b: real)
    by (nonlinear_arith)
    ensures
        (u - a) * (v - b) == u * v - u * b - a * v + a * b,
{
}

/// A diagonal entry of a tensor about its center `c`, shifted to `a`.
proof fn lemma_diagonal_step(x: real, m: real, u: real, v: real, a: real, b: real)
    ensures
        (x - m * (u * u + v * v)) + m * ((u - a) * (u - a) + (v - b) * (v - b)) == (x + m * (a * a
            + b * b)) - 2real * ((m * u) * a + (m * v) * b),
{
    lemma_real_product_of_differences(u, a, u, a);
    lemma_real_product_of_differences(v, b, v, b);
    lemma_real_scaled_product(m, u, a);
    lemma_real_scaled_product(m, v, b);
    lemma_real_scaled_product(m, a, u);
    lemma_real_scaled_product(m, b, v);
    let p = u * u + v * v;
    let q = u * a + v * b;
    let r = a * a + b * b;
    assert((u - a) * (u - a) + (v - b) * (v - b) == p - (q + q) + r);
    lemma_real_scaled_sum(m, p, -(q + q), r);
    lemma_real_scaled_sum(m, q + q, 0real, 0real);
    lemma_real_scaled_sum(m, q, q, 0real);
    lemma_real_scaled_sum(m, u * a, v * b, 0real);
}

/// An entry off the diagonal of a tensor about its center `c`, shifted to
/// `a`.
proof fn lemma_off_diagonal_step(x: real, m: real, u: real, v: real, a: real, b: real)
    ensures
        (x - m * (-(u * v))) + m * (-((u - a) * (v - b))) == (x + m * (-(a * b))) - (-((m * u) * b)
            - (a * (m * v))),
{
    lemma_real_product_of_differences(u, a, v, b);
    lemma_real_scaled_product(m, u, b);
    lemma_real_scaled_product(m, a, v);
    let p = -(u * v);
    let q = u * b + a * v;
    let r = -(a * b);
    assert(-((u - a) * (v - b)) == p + q + r);
    lemma_real_scaled_sum(m, p, q, r);
    lemma_real_scaled_sum(m, u * b, a * v, 0real);
}

/// A diagonal entry of the total inertia of a body of mass `m` at `p` over
/// subsystems of mass `mp` and moment `sp`, where `a` is the center of mass
/// of the whole.
proof fn lemma_diagonal_node(
    m: real,
    mp: real,
    u: real,
    v: real,
    a: real,
    b: real,
    spu: real,
    spv: real,
)
    requires
        spu == (m + mp) * a - m * u,
        spv == (m + mp) * b - m * v,
    ensures
        mp * (a * a + b * b) - 2real * (spu * a + spv * b) == m * (u * u + v * v) - (m + mp) * (a
            * a + b * b) - m * ((u - a) * (u - a) + (v - b) * (v - b)),
{
    let a2 = a * a;
    let b2 = b * b;
    let ua = u * a;
    let vb = v * b;
    let u2 = u * u;
    let v2 = v * v;
    lemma_real_scaled_sum(a, (m + mp) * a, m * u, 0real);
    lemma_real_scaled_sum(b, (m + mp) * b, m * v, 0real);
    lemma_real_scaled_product(m + mp, a, a);
    lemma_real_scaled_product(m + mp, b, b);
    lemma_real_scaled_product(m, u, a);
    lemma_real_scaled_product(m, v, b);
    assert(spu * a == (m + mp) * a2 - m * ua);
    assert(spv * b == (m + mp) * b2 - m * vb);
    lemma_real_scaled_sum(a2, m, mp, 0real);
    lemma_real_scaled_sum(b2, m, mp, 0real);
    lemma_real_scaled_sum(mp, a2, b2, 0real);
    lemma_real_scaled_sum(m + mp, a2, b2, 0real);
    lemma_real_scaled_sum(m, u2, v2, 0real);
    lemma_real_product_of_differences(u, a, u, a);
    lemma_real_product_of_differences(v, b, v, b);
    lemma_real_scaled_product(m, a, u);
    lemma_real_scaled_product(m, b, v);
    let s = (u - a) * (u - a) + (v - b) * (v - b);
    assert(s == u2 + v2 - (ua + ua) - (vb + vb) + a2 + b2);
    lemma_real_scaled_sum(m, u2 + v2 + a2 + b2, -(ua + ua + vb + vb), 0real);
    lemma_real_scaled_sum(m, u2 + v2, a2 + b2, 0real);
    lemma_real_scaled_sum(m, a2, b2, 0real);
    lemma_real_scaled_sum(m, ua + ua + vb + vb, 0real, 0real);
    lemma_real_scaled_sum(m, ua + ua, vb + vb, 0real);
    lemma_real_scaled_sum(m, ua, ua, 0real);
    lemma_real_scaled_sum(m, vb, vb, 0real);
    assert(m * s == m * u2 + m * v2 + m * a2 + m * b2 - (m * ua + m * ua + m * vb + m * vb));
}

/// An entry off the diagonal of the total inertia of a body of mass `m` at
/// `p` over subsystems of mass `mp` and moment `sp`, where `a` is the center
/// of mass of the whole.
proof fn lemma_off_diagonal_node(
    m: real,
    mp: real,
    u: real,
    v: real,
    a: real,
    b: real,
    spu: real,
    spv: real,
)
    requires
        spu == (m + mp) * a - m * u,
        spv == (m + mp) * b - m * v,
    ensures
        mp * (-(a * b)) - (-(spu * b) - (a * spv)) == m * (-(u * v)) - (m + mp) * (-(a * b)) - m
            * (-((u - a) * (v - b))),
{
    let ab = a * b;
    let ub = u * b;
    let av = a * v;
    let uv = u * v;
    lemma_real_scaled_sum(b, (m + mp) * a, m * u, 0real);
    lemma_real_scaled_sum(a, (m + mp) * b, m * v, 0real);
    lemma_real_scaled_product(m + mp, a, b);
    lemma_real_scaled_product(m, u, b);
    lemma_real_scaled_product(m, a, v);
    lemma_real_scaled_product(m, v, a);
    lemma_real_scaled_product(m + mp, b, a);
    assert(spu * b == (m + mp) * ab - m * ub);
    assert(a * spv == (m + mp) * ab - m * av);
    lemma_real_scaled_sum(ab, m, mp, 0real);
    lemma_real_scaled_sum(mp, -ab, 0real, 0real);
    lemma_real_scaled_sum(m + mp, -ab, 0real, 0real);
    lemma_real_scaled_sum(mp, ab, 0real, 0real);
    lemma_real_scaled_sum(m + mp, ab, 0real, 0real);
    lemma_real_product_of_differences(u, a, v, b);
    let s = -((u - a) * (v - b));
    assert(s == -uv + ub + av - ab);
    lemma_real_scaled_sum(m, -uv, ub + av, -ab);
    lemma_real_scaled_sum(m, ub, av, 0real);
    lemma_real_scaled_sum(m, uv, 0real, 0real);
    lemma_real_scaled_sum(m, ab, 0real, 0real);
    assert(m * s == -(m * uv) + m * ub + m * av - m * ab);
}

/// A tensor about its center `c`, shifted to `a` with its mass.
pub proof fn lemma_shift_to_parent(x: RealMat3, m: real, c: RealVec3, a: RealVec3)
    ensures
        real_shifted(x.minus(real_displacement_tensor(c).scaled(m)), m, c.minus(a))
            == x.plus(real_displacement_tensor(a).scaled(m)).minus(
            real_cross_tensor(c.scaled(m), a),
        ),
{
    lemma_diagonal_step(x.xx, m, c.y, c.z, a.y, a.z);
    lemma_diagonal_step(x.yy, m, c.x, c.z, a.x, a.z);
    lemma_diagonal_step(x.zz, m, c.x, c.y, a.x, a.y);
    lemma_off_diagonal_step(x.xy, m, c.x, c.y, a.x, a.y);
    lemma_off_diagonal_step(x.xz, m, c.x, c.z, a.x, a.z);
    lemma_off_diagonal_step(x.yx, m, c.y, c.x, a.y, a.x);
    lemma_off_diagonal_step(x.yz, m, c.y, c.z, a.y, a.z);
    lemma_off_diagonal_step(x.zx, m, c.z, c.x, a.z, a.x);
    lemma_off_diagonal_step(x.zy, m, c.z, c.y, a.z, a.y);
}

/// `closed_contributions` is additive in the systems.
pub proof fn lemma_closed_contributions_additive(
    o1: RealMat3,
    e1: RealMat3,
    m1: real,
    s1: RealVec3,
    o2: RealMat3,
    e2: RealMat3,
    m2: real,
    s2: RealVec3,
    a: RealVec3,
)
    ensures
        closed_contributions(o1.plus(o2), e1.plus(e2), m1 + m2, s1.plus(s2), a)
            == closed_contributions(o1, e1, m1, s1, a).plus(
            closed_contributions(o2, e2, m2, s2, a),
        ),
{
    let t = real_displacement_tensor(a);
    lemma_real_scaled_sum(t.xx, m1, m2, 0real);
    lemma_real_scaled_sum(t.xy, m1, m2, 0real);
    lemma_real_scaled_sum(t.xz, m1, m2, 0real);
    lemma_real_scaled_sum(t.yx, m1, m2, 0real);
    lemma_real_scaled_sum(t.yy, m1, m2, 0real);
    lemma_real_scaled_sum(t.yz, m1, m2, 0real);
    lemma_real_scaled_sum(t.zx, m1, m2, 0real);
    lemma_real_scaled_sum(t.zy, m1, m2, 0real);
    lemma_real_scaled_sum(t.zz, m1, m2, 0real);
    lemma_real_scaled_sum(a.x, s1.x, s2.x, 0real);
    lemma_real_scaled_sum(a.y, s1.x, s2.x, 0real);
    lemma_real_scaled_sum(a.z, s1.x, s2.x, 0real);
    lemma_real_scaled_sum(a.x, s1.y, s2.y, 0real);
    lemma_real_scaled_sum(a.y, s1.y, s2.y, 0real);
    lemma_real_scaled_sum(a.z, s1.y, s2.y, 0real);
    lemma_real_scaled_sum(a.x, s1.z, s2.z, 0real);
    lemma_real_scaled_sum(a.y, s1.z, s2.z, 0real);
    lemma_real_scaled_sum(a.z, s1.z, s2.z, 0real);
}

/// The total inertia of a body over subsystems in closed form, where `a` is
/// the center of mass of the whole.
pub proof fn lemma_node(
    own: RealMat3,
    m: real,
    p: RealVec3,
    oc: RealMat3,
    ec: RealMat3,
    mp: real,
    sp: RealVec3,
    a: RealVec3,
)
    requires
        sp == a.scaled(m + mp).minus(p.scaled(m)),
    ensures
        own.plus(closed_contributions(oc, ec, mp, sp, a)) == own.plus(
            real_displacement_tensor(p).scaled(m),
        ).plus(oc).minus(real_displacement_tensor(a).scaled(m + mp)).minus(
            real_displacement_tensor(p.minus(a)).scaled(m).plus(ec),
        ),
{
    lemma_diagonal_node(m, mp, p.y, p.z, a.y, a.z, sp.y, sp.z);
    lemma_diagonal_node(m, mp, p.x, p.z, a.x, a.z, sp.x, sp.z);
    lemma_diagonal_node(m, mp, p.x, p.y, a.x, a.y, sp.x, sp.y);
    lemma_off_diagonal_node(m, mp, p.x, p.y, a.x, a.y, sp.x, sp.y);
    lemma_off_diagonal_node(m, mp, p.x, p.z, a.x, a.z, sp.x, sp.z);
    lemma_off_diagonal_node(m, mp, p.y, p.x, a.y, a.x, sp.y, sp.x);
    lemma_off_diagonal_node(m, mp, p.y, p.z, a.y, a.z, sp.y, sp.z);
    lemma_off_diagonal_node(m, mp, p.z, p.x, a.z, a.x, sp.z, sp.x);
    lemma_off_diagonal_node(m, mp, p.z, p.y, a.z, a.y, sp.z, sp.y);
}

/// The displacement tensor of an integer vector, times an integer mass, is
/// the same in real numbers.
pub proof fn lemma_displacement_tensor_to_real(p: Vec3, m: int)
    ensures
        displacement_tensor(p).scaled(m).to_real() == real_displacement_tensor(
            p.to_real(),
        ).scaled(m as real),
{
    let t = displacement_tensor(p);
    lemma_real_product(p.x, p.x);
    lemma_real_product(p.y, p.y);
    lemma_real_product(p.z, p.z);
    lemma_real_product(p.x, p.y);
    lemma_real_product(p.x, p.z);
    lemma_real_product(p.y, p.x);
    lemma_real_product(p.y, p.z);
    lemma_real_product(p.z, p.x);
    lemma_real_product(p.z, p.y);
    assert(t.to_real() == real_displacement_tensor(p.to_real()));
    lemma_real_product(m, t.xx);
    lemma_real_product(m, t.xy);
    lemma_real_product(m, t.xz);
    lemma_real_product(m, t.yx);
    lemma_real_product(m, t.yy);
    lemma_real_product(m, t.yz);
    lemma_real_product(m, t.zx);
    lemma_real_product(m, t.zy);
    lemma_real_product(m, t.zz);
}

/// The moment of a valid system is its total mass times its center of mass.
pub proof fn lemma_mass_times_center(b: Body)
    requires
        b.valid(),
    ensures
        b.center_of_mass().scaled(b.total_mass() as real) == b.moment().to_real(),
{
    let m = b.total_mass() as real;
    let s = b.moment().to_real();
    lemma_mass_nonnegative(b);
    if b.total_mass() == 0 {
        lemma_massless_moment(b);
        lemma_real_zero_product(m, b.center_of_mass().x);
        lemma_real_zero_product(m, b.center_of_mass().y);
        lemma_real_zero_product(m, b.center_of_mass().z);
    } else {
        lemma_quotient_times(s.x, m);
        lemma_quotient_times(s.y, m);
        lemma_quotient_times(s.z, m);
    }
}

/// Nothing adds nothing.
proof fn lemma_closed_contributions_of_nothing(a: RealVec3)
    ensures
        closed_contributions(RealMat3::zero(), RealMat3::zero(), 0real, Vec3::zero().to_real(), a)
            == RealMat3::zero(),
{
    let t = real_displacement_tensor(a);
    let w = Vec3::zero().to_real();
    lemma_real_zero_product(0real, t.xx);
    lemma_real_zero_product(0real, t.xy);
    lemma_real_zero_product(0real, t.xz);
    lemma_real_zero_product(0real, t.yx);
    lemma_real_zero_product(0real, t.yy);
    lemma_real_zero_product(0real, t.yz);
    lemma_real_zero_product(0real, t.zx);
    lemma_real_zero_product(0real, t.zy);
    lemma_real_zero_product(0real, t.zz);
    lemma_real_zero_product(w.x, a.x);
    lemma_real_zero_product(w.x, a.y);
    lemma_real_zero_product(w.x, a.z);
    lemma_real_zero_product(w.y, a.x);
    lemma_real_zero_product(w.y, a.y);
    lemma_real_zero_product(w.y, a.z);
    lemma_real_zero_product(w.z, a.x);
    lemma_real_zero_product(w.z, a.y);
    lemma_real_zero_product(w.z, a.z);
    lemma_real_zero_product(a.x, w.y);
    lemma_real_zero_product(a.x, w.z);
    lemma_real_zero_product(a.y, w.x);
    lemma_real_zero_product(a.y, w.z);
    lemma_real_zero_product(a.z, w.x);
    lemma_real_zero_product(a.z, w.y);
}

/// The total inertia of a valid system is its closed form.
pub proof fn lemma_closed_form(b: Body)
    requires
        b.valid(),
    ensures
        b.total_inertia() == closed_form(b),
    decreases b,
{
    let a = b.center_of_mass();
    let s = b.subsystems;
    let m = b.mass as real;
    let mp = total_mass_of(s) as real;
    let p = b.position.to_real();
    let sp = moment_of(s).to_real();
    lemma_closed_contributions(s, a);
    lemma_mass_times_center(b);
    lemma_real_product(b.mass, b.position.x);
    lemma_real_product(b.mass, b.position.y);
    lemma_real_product(b.mass, b.position.z);
    assert(b.total_mass() as real == m + mp);
    assert(sp == a.scaled(m + mp).minus(p.scaled(m)));
    lemma_node(
        b.inertia.to_real(),
        m,
        p,
        origin_inertia_of(s).to_real(),
        eccentricity_of(s),
        mp,
        sp,
        a,
    );
    lemma_displacement_tensor_to_real(b.position, b.mass);
    assert(b.origin_inertia().to_real() == b.inertia.to_real().plus(
        real_displacement_tensor(p).scaled(m),
    ).plus(origin_inertia_of(s).to_real()));
}

/// What valid systems add to the inertia of a parent whose center of mass
/// is `a`, in closed form.
pub proof fn lemma_closed_contributions(s: Seq<Body>, a: RealVec3)
    requires
        forall|i: int| 0 <= i < s.len() ==> (#[trigger] s[i]).valid(),
    ensures
        contributions(s, a) == closed_contributions(
            origin_inertia_of(s).to_real(),
            eccentricity_of(s),
            total_mass_of(s) as real,
            moment_of(s).to_real(),
            a,
        ),
    decreases s,
{
    if s.len() == 0 {
        lemma_closed_contributions_of_nothing(a);
    } else {
        let c = s.last();
        let rest = s.drop_last();
        let m = c.total_mass() as real;
        let center = c.center_of_mass();
        let x = c.origin_inertia().to_real().minus(eccentricity(c));
        lemma_closed_contributions(rest, a);
        lemma_closed_form(c);
        lemma_mass_times_center(c);
        assert(c.total_inertia() == x.minus(real_displacement_tensor(center).scaled(m)));
        lemma_shift_to_parent(x, m, center, a);
        assert(c.contribution(a) == closed_contributions(
            c.origin_inertia().to_real(),
            eccentricity(c),
            m,
            c.moment().to_real(),
            a,
        ));
        lemma_closed_contributions_additive(
            origin_inertia_of(rest).to_real(),
            eccentricity_of(rest),
            total_mass_of(rest) as real,
            moment_of(rest).to_real(),
            c.origin_inertia().to_real(),
            eccentricity(c),
            m,
            c.moment().to_real(),
            a,
        );
        assert(origin_inertia_of(s).to_real() == origin_inertia_of(rest).to_real().plus(
            c.origin_inertia().to_real(),
        ));
        assert(moment_of(s).to_real() == moment_of(rest).to_real().plus(c.moment().to_real()));
        assert(total_mass_of(s) as real == total_mass_of(rest) as real + m);
    }
}

/// A tensor as a fraction: a matrix of integers over one denominator.
pub struct TensorRatio {
    pub numerator: Mat3,
    pub denominator: int,
}

impl TensorRatio {
    /// The tensor that the fraction stands for.
    pub open spec fn value(self) -> RealMat3 {
        self.numerator.to_real().divided(self.denominator as real)
    }
}

/// The sum of the tensors that the fractions stand for.
pub open spec fn sum_of(s: Seq<TensorRatio>) -> RealMat3
    decreases s.len(),
{
    if s.len() == 0 {
        RealMat3::zero()
    } else {
        sum_of(s.drop_last()).plus(s.last().value())
    }
}

/// The first term of the total inertia of a system with mass, as a fraction
/// over the total mass: the inertia of all bodies about the origin, shifted
/// back to the center of mass of the whole.
pub open spec fn principal(b: Body) -> TensorRatio {
    TensorRatio {
        numerator: b.origin_inertia().scaled(b.total_mass()).plus(
            displacement_tensor(b.moment()).scaled(-1),
        ),
        denominator: b.total_mass(),
    }
}

/// What the own mass of a body with subsystems takes from the total inertia,
/// as a fraction over the square of the total mass of the system.
pub open spec fn own_correction(b: Body) -> TensorRatio {
    TensorRatio {
        numerator: displacement_tensor(
            b.position.scaled(b.total_mass()).minus(b.moment()),
        ).scaled(b.mass),
        denominator: b.total_mass() * b.total_mass(),
    }
}

/// The corrections of the tree: one fraction for every body that has both
/// mass and subsystems, those of the subsystems first, then the body's own.
pub open spec fn corrections(b: Body) -> Seq<TensorRatio>
    decreases b,
{
    if b.mass > 0 && b.subsystems.len() > 0 {
        corrections_of(b.subsystems).push(own_correction(b))
    } else {
        corrections_of(b.subsystems)
    }
}

/// The corrections of the systems in `s`, system by system.
pub open spec fn corrections_of(s: Seq<Body>) -> Seq<TensorRatio>
    decreases s,
{
    if s.len() == 0 {
        Seq::empty()
    } else {
        corrections_of(s.drop_last()) + corrections(s.last())
    }
}

/// A common factor of numerator and denominator cancels.
pub proof fn lemma_real_cancel(k: real, x: real)
    by (nonlinear_arith)
    requires
        k != 0real,
    ensures
        (k * x) / k == x,
{
}

/// A common factor leaves a product of two as its square.
pub proof fn lemma_real_square_out(k: real, d: real, e: real)
    by (nonlinear_arith)
    ensures
        (k * d) * (k * e) == (k * k) * (d * e),
{
}

/// A product of factors other than zero is not zero.
pub proof fn lemma_real_square_nonzero(k: real)
    by (nonlinear_arith)
    requires
        k != 0real,
    ensures
        k * k != 0real,
{
}

/// A diagonal entry of a correction.
proof fn lemma_diagonal_correction(m: real, k: real, du: real, dv: real, wu: real, wv: real)
    requires
        k != 0real,
        wu == k * du,
        wv == k * dv,
    ensures
        (m * (wu * wu + wv * wv)) / (k * k) == m * (du * du + dv * dv),
{
    let k2 = k * k;
    lemma_real_square_out(k, du, du);
    lemma_real_square_out(k, dv, dv);
    lemma_real_scaled_sum(k2, du * du, dv * dv, 0real);
    lemma_real_scaled_product(m, k2, du * du + dv * dv);
    assert(m * (wu * wu + wv * wv) == k2 * (m * (du * du + dv * dv)));
    lemma_real_square_nonzero(k);
    lemma_real_cancel(k2, m * (du * du + dv * dv));
}

/// An entry off the diagonal of a correction.
proof fn lemma_off_diagonal_correction(m: real, k: real, du: real, dv: real, wu: real, wv: real)
    requires
        k != 0real,
        wu == k * du,
        wv == k * dv,
    ensures
        (m * (-(wu * wv))) / (k * k) == m * (-(du * dv)),
{
    let k2 = k * k;
    lemma_real_square_out(k, du, dv);
    lemma_real_scaled_sum(k2, du * dv, 0real, 0real);
    lemma_real_scaled_product(m, k2, -(du * dv));
    assert(m * (-(wu * wv)) == k2 * (m * (-(du * dv))));
    lemma_real_square_nonzero(k);
    lemma_real_cancel(k2, m * (-(du * dv)));
}

/// A diagonal entry of the principal fraction.
proof fn lemma_diagonal_principal(k: real, o: real, au: real, av: real, su: real, sv: real)
    requires
        k != 0real,
        su == k * au,
        sv == k * av,
    ensures
        (k * o + (-1real) * (su * su + sv * sv)) / k == o - k * (au * au + av * av),
{
    lemma_real_square_out(k, au, au);
    lemma_real_square_out(k, av, av);
    lemma_real_scaled_sum(k * k, au * au, av * av, 0real);
    lemma_real_scaled_product(k, k, au * au + av * av);
    lemma_real_scaled_sum(k, o, k * (au * au + av * av), 0real);
    assert(k * o + (-1real) * (su * su + sv * sv) == k * (o - k * (au * au + av * av)));
    lemma_real_cancel(k, o - k * (au * au + av * av));
}

/// An entry off the diagonal of the principal fraction.
proof fn lemma_off_diagonal_principal(k: real, o: real, au: real, av: real, su: real, sv: real)
    requires
        k != 0real,
        su == k * au,
        sv == k * av,
    ensures
        (k * o + (-1real) * (-(su * sv))) / k == o - k * (-(au * av)),
{
    lemma_real_square_out(k, au, av);
    lemma_real_scaled_product(k, k, au * av);
    lemma_real_scaled_sum(k, au * av, 0real, 0real);
    lemma_real_scaled_sum(k, o, k * (-(au * av)), 0real);
    lemma_real_scaled_sum(k, k * (au * av), 0real, 0real);
    assert(k * o + (-1real) * (-(su * sv)) == k * (o - k * (-(au * av))));
    lemma_real_cancel(k, o - k * (-(au * av)));
}

/// The principal fraction of a valid system with mass stands for the
/// inertia of all bodies about the origin, shifted back to the center of
/// mass.
pub proof fn lemma_principal_value(b: Body)
    requires
        b.valid(),
        b.total_mass() > 0,
    ensures
        principal(b).value() == b.origin_inertia().to_real().minus(
            real_displacement_tensor(b.center_of_mass()).scaled(b.total_mass() as real),
        ),
{
    let k = b.total_mass() as real;
    let m = b.total_mass();
    let o = b.origin_inertia();
    let s = b.moment();
    let sr = s.to_real();
    let a = b.center_of_mass();
    lemma_mass_times_center(b);
    lemma_real_product(m, o.xx);
    lemma_real_product(m, o.xy);
    lemma_real_product(m, o.xz);
    lemma_real_product(m, o.yx);
    lemma_real_product(m, o.yy);
    lemma_real_product(m, o.yz);
    lemma_real_product(m, o.zx);
    lemma_real_product(m, o.zy);
    lemma_real_product(m, o.zz);
    lemma_real_product(s.x, s.x);
    lemma_real_product(s.y, s.y);
    lemma_real_product(s.z, s.z);
    lemma_real_product(s.x, s.y);
    lemma_real_product(s.x, s.z);
    lemma_real_product(s.y, s.x);
    lemma_real_product(s.y, s.z);
    lemma_real_product(s.z, s.x);
    lemma_real_product(s.z, s.y);
    lemma_diagonal_principal(k, o.xx as real, a.y, a.z, sr.y, sr.z);
    lemma_diagonal_principal(k, o.yy as real, a.x, a.z, sr.x, sr.z);
    lemma_diagonal_principal(k, o.zz as real, a.x, a.y, sr.x, sr.y);
    lemma_off_diagonal_principal(k, o.xy as real, a.x, a.y, sr.x, sr.y);
    lemma_off_diagonal_principal(k, o.xz as real, a.x, a.z, sr.x, sr.z);
    lemma_off_diagonal_principal(k, o.yx as real, a.y, a.x, sr.y, sr.x);
    lemma_off_diagonal_principal(k, o.yz as real, a.y, a.z, sr.y, sr.z);
    lemma_off_diagonal_principal(k, o.zx as real, a.z, a.x, sr.z, sr.x);
    lemma_off_diagonal_principal(k, o.zy as real, a.z, a.y, sr.z, sr.y);
}

/// The own correction of a valid system with mass stands for what the
/// body's own mass would add if it were shifted to the center of mass.
pub proof fn lemma_own_correction_value(b: Body)
    requires
        b.valid(),
        b.total_mass() > 0,
    ensures
        own_correction(b).value() == own_eccentricity(b),
{
    let k = b.total_mass() as real;
    let m = b.mass as real;
    let p = b.position;
    let s = b.moment();
    let w = p.scaled(b.total_mass()).minus(s);
    let wr = w.to_real();
    let a = b.center_of_mass();
    let d = p.to_real().minus(a);
    let t = displacement_tensor(w);
    lemma_mass_times_center(b);
    lemma_real_product(b.total_mass(), p.x);
    lemma_real_product(b.total_mass(), p.y);
    lemma_real_product(b.total_mass(), p.z);
    lemma_real_scaled_sum(k, p.x as real, a.x, 0real);
    lemma_real_scaled_sum(k, p.y as real, a.y, 0real);
    lemma_real_scaled_sum(k, p.z as real, a.z, 0real);
    assert(wr.x == k * d.x);
    assert(wr.y == k * d.y);
    assert(wr.z == k * d.z);
    lemma_real_product(b.total_mass(), b.total_mass());
    lemma_real_product(w.x, w.x);
    lemma_real_product(w.y, w.y);
    lemma_real_product(w.z, w.z);
    lemma_real_product(w.x, w.y);
    lemma_real_product(w.x, w.z);
    lemma_real_product(w.y, w.x);
    lemma_real_product(w.y, w.z);
    lemma_real_product(w.z, w.x);
    lemma_real_product(w.z, w.y);
    lemma_real_product(b.mass, t.xx);
    lemma_real_product(b.mass, t.xy);
    lemma_real_product(b.mass, t.xz);
    lemma_real_product(b.mass, t.yx);
    lemma_real_product(b.mass, t.yy);
    lemma_real_product(b.mass, t.yz);
    lemma_real_product(b.mass, t.zx);
    lemma_real_product(b.mass, t.zy);
    lemma_real_product(b.mass, t.zz);
    lemma_diagonal_correction(m, k, d.y, d.z, wr.y, wr.z);
    lemma_diagonal_correction(m, k, d.x, d.z, wr.x, wr.z);
    lemma_diagonal_correction(m, k, d.x, d.y, wr.x, wr.y);
    lemma_off_diagonal_correction(m, k, d.x, d.y, wr.x, wr.y);
    lemma_off_diagonal_correction(m, k, d.x, d.z, wr.x, wr.z);
    lemma_off_diagonal_correction(m, k, d.y, d.x, wr.y, wr.x);
    lemma_off_diagonal_correction(m, k, d.y, d.z, wr.y, wr.z);
    lemma_off_diagonal_correction(m, k, d.z, d.x, wr.z, wr.x);
    lemma_off_diagonal_correction(m, k, d.z, d.y, wr.z, wr.y);
}

/// A tensor times no mass is nothing.
pub proof fn lemma_real_massless(t: RealMat3, m: real)
    requires
        m == 0real,
    ensures
        t.scaled(m) == RealMat3::zero(),
{
    lemma_real_zero_product(m, t.xx);
    lemma_real_zero_product(m, t.xy);
    lemma_real_zero_product(m, t.xz);
    lemma_real_zero_product(m, t.yx);
    lemma_real_zero_product(m, t.yy);
    lemma_real_zero_product(m, t.yz);
    lemma_real_zero_product(m, t.zx);
    lemma_real_zero_product(m, t.zy);
    lemma_real_zero_product(m, t.zz);
}

/// No displacement has no displacement tensor.
pub proof fn lemma_real_no_displacement(d: RealVec3, m: real)
    requires
        d == Vec3::zero().to_real(),
    ensures
        real_displacement_tensor(d).scaled(m) == RealMat3::zero(),
{
    lemma_real_zero_product(d.x, d.x);
    lemma_real_zero_product(d.y, d.y);
    lemma_real_zero_product(d.z, d.z);
    lemma_real_zero_product(d.x, d.y);
    lemma_real_zero_product(d.x, d.z);
    lemma_real_zero_product(d.y, d.x);
    lemma_real_zero_product(d.y, d.z);
    lemma_real_zero_product(d.z, d.x);
    lemma_real_zero_product(d.z, d.y);
    let t = real_displacement_tensor(d);
    assert(t == RealMat3::zero());
    lemma_real_zero_product(m, 0real);
}

/// The center of mass of a body with mass and without subsystems is its
/// position.
pub proof fn lemma_leaf_center(b: Body)
    requires
        b.subsystems.len() == 0,
        b.mass > 0,
    ensures
        b.total_mass() == b.mass,
        b.center_of_mass() == b.position.to_real(),
{
    let m = b.mass as real;
    lemma_real_product(b.mass, b.position.x);
    lemma_real_product(b.mass, b.position.y);
    lemma_real_product(b.mass, b.position.z);
    lemma_real_cancel(m, b.position.x as real);
    lemma_real_cancel(m, b.position.y as real);
    lemma_real_cancel(m, b.position.z as real);
}

/// The own mass of a body adds nothing where the body has no mass or no
/// subsystems.
pub proof fn lemma_own_eccentricity_vanishes(b: Body)
    requires
        b.mass >= 0,
        b.mass == 0 || b.subsystems.len() == 0,
    ensures
        own_eccentricity(b) == RealMat3::zero(),
{
    let d = b.position.to_real().minus(b.center_of_mass());
    if b.mass == 0 {
        lemma_real_massless(real_displacement_tensor(d), b.mass as real);
    } else {
        lemma_leaf_center(b);
        lemma_real_no_displacement(d, b.mass as real);
    }
}

/// The sum of two lists of fractions laid end to end is the sum of their
/// sums.
pub proof fn lemma_sum_of_concat(s: Seq<TensorRatio>, t: Seq<TensorRatio>)
    ensures
        sum_of(s + t) == sum_of(s).plus(sum_of(t)),
    decreases t.len(),
{
    if t.len() == 0 {
        assert(s + t =~= s);
    } else {
        assert((s + t).drop_last() =~= s + t.drop_last());
        lemma_sum_of_concat(s, t.drop_last());
    }
}

/// The corrections of a valid tree stand for what the own masses of its
/// bodies would add if each were shifted to the center of the system below
/// it.
pub proof fn lemma_corrections_sum(b: Body)
    requires
        b.valid(),
    ensures
        sum_of(corrections(b)) == eccentricity(b),
    decreases b,
{
    let below = corrections_of(b.subsystems);
    lemma_corrections_sum_of(b.subsystems);
    if b.mass > 0 && b.subsystems.len() > 0 {
        lemma_mass_nonnegative_of(b.subsystems);
        lemma_own_correction_value(b);
        let all = below.push(own_correction(b));
        assert(all.drop_last() =~= below);
    } else {
        lemma_own_eccentricity_vanishes(b);
    }
}

/// The corrections of valid systems stand for their eccentricities.
pub proof fn lemma_corrections_sum_of(s: Seq<Body>)
    requires
        forall|i: int| 0 <= i < s.len() ==> (#[trigger] s[i]).valid(),
    ensures
        sum_of(corrections_of(s)) == eccentricity_of(s),
    decreases s,
{
    if s.len() > 0 {
        lemma_corrections_sum_of(s.drop_last());
        lemma_corrections_sum(s.last());
        lemma_sum_of_concat(corrections_of(s.drop_last()), corrections(s.last()));
    }
}

/// The total inertia of a valid system with mass is its principal fraction
/// less its corrections.
pub proof fn lemma_exact_inertia(b: Body)
    requires
        b.valid(),
        b.total_mass() > 0,
    ensures
        b.total_inertia() == principal(b).value().minus(sum_of(corrections(b))),
{
    lemma_closed_form(b);
    lemma_principal_value(b);
    lemma_corrections_sum(b);
}

} // verus!
