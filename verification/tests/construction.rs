use composite_inertia::error::{Defect, SystemError};
use composite_inertia::limits::{COORD_MAX, DISPLACEMENT_MAX, INERTIA_MAX, MASS_MAX};
use composite_inertia::system::RigidSystem;
use composite_inertia::tensor::{parallel_axis_shift, Matrix3};
use composite_inertia::vector::Vector3;

fn zero_rows() -> Vec<Vec<i64>> {
    vec![vec![0, 0, 0], vec![0, 0, 0], vec![0, 0, 0]]
}

fn defect(r: Result<RigidSystem, SystemError>) -> Option<Defect> {
    match r {
        Ok(_) => None,
        Err(SystemError::MalformedInput(d)) => Some(d),
        Err(SystemError::DegenerateMass) => panic!("construction reports no degenerate mass"),
    }
}

fn build(mass: i64, position: Vec<i64>, rows: Vec<Vec<i64>>) -> Option<Defect> {
    defect(RigidSystem::new(mass, position, rows, Vec::new(), String::new()))
}

fn point_mass(mass: i64, x: i64, y: i64, z: i64) -> RigidSystem {
    RigidSystem::new(mass, vec![x, y, z], zero_rows(), Vec::new(), String::new()).unwrap()
}

#[test]
fn negative_mass_is_rejected() {
    assert_eq!(build(-1, vec![0, 0, 0], zero_rows()), Some(Defect::NegativeMass));
    assert_eq!(build(i64::MIN, vec![0, 0, 0], zero_rows()), Some(Defect::NegativeMass));
}

#[test]
fn zero_mass_is_accepted() {
    assert_eq!(build(0, vec![0, 0, 0], zero_rows()), None);
}

#[test]
fn position_needs_three_coordinates() {
    assert_eq!(build(1, vec![], zero_rows()), Some(Defect::VectorShape));
    assert_eq!(build(1, vec![0, 0], zero_rows()), Some(Defect::VectorShape));
    assert_eq!(build(1, vec![0, 0, 0, 0], zero_rows()), Some(Defect::VectorShape));
}

#[test]
fn tensor_needs_three_rows_of_three() {
    assert_eq!(build(1, vec![0, 0, 0], vec![]), Some(Defect::TensorShape));
    assert_eq!(
        build(1, vec![0, 0, 0], vec![vec![0, 0, 0], vec![0, 0, 0]]),
        Some(Defect::TensorShape)
    );
    assert_eq!(
        build(1, vec![0, 0, 0], vec![vec![0, 0, 0], vec![0, 0], vec![0, 0, 0]]),
        Some(Defect::TensorShape)
    );
    assert_eq!(
        build(1, vec![0, 0, 0], vec![vec![0, 0, 0], vec![0, 0, 0], vec![0, 0, 0, 0]]),
        Some(Defect::TensorShape)
    );
    assert_eq!(
        build(1, vec![0, 0, 0], vec![vec![0, 0, 0]; 4]),
        Some(Defect::TensorShape)
    );
}

#[test]
fn asymmetric_tensor_is_rejected() {
    let rows = vec![vec![1, 2, 0], vec![3, 1, 0], vec![0, 0, 1]];
    assert_eq!(build(1, vec![0, 0, 0], rows), Some(Defect::AsymmetricTensor));
    let rows = vec![vec![1, 0, 0], vec![0, 1, 5], vec![0, -5, 1]];
    assert_eq!(build(1, vec![0, 0, 0], rows), Some(Defect::AsymmetricTensor));
}

#[test]
fn negative_diagonal_is_rejected() {
    let rows = vec![vec![1, 0, 0], vec![0, -1, 0], vec![0, 0, 1]];
    assert_eq!(build(1, vec![0, 0, 0], rows), Some(Defect::NegativeDiagonal));
}

#[test]
fn negative_products_of_inertia_are_accepted() {
    let rows = vec![vec![4, -2, 0], vec![-2, 1, -3], vec![0, -3, 5]];
    assert_eq!(build(1, vec![0, 0, 0], rows), None);
}

#[test]
fn values_beyond_the_limits_are_rejected() {
    assert_eq!(build(MASS_MAX + 1, vec![0, 0, 0], zero_rows()), Some(Defect::OutOfRange));
    assert_eq!(build(1, vec![COORD_MAX + 1, 0, 0], zero_rows()), Some(Defect::OutOfRange));
    assert_eq!(build(1, vec![0, -COORD_MAX - 1, 0], zero_rows()), Some(Defect::OutOfRange));
    assert_eq!(build(1, vec![0, 0, i64::MIN], zero_rows()), Some(Defect::OutOfRange));
    let rows = vec![vec![INERTIA_MAX + 1, 0, 0], vec![0, 0, 0], vec![0, 0, 0]];
    assert_eq!(build(1, vec![0, 0, 0], rows), Some(Defect::OutOfRange));
    let rows = vec![vec![0, i64::MIN, 0], vec![i64::MIN, 0, 0], vec![0, 0, 0]];
    assert_eq!(build(1, vec![0, 0, 0], rows), Some(Defect::OutOfRange));
}

#[test]
fn values_at_the_limits_are_accepted() {
    let rows = vec![
        vec![INERTIA_MAX, -INERTIA_MAX, 0],
        vec![-INERTIA_MAX, INERTIA_MAX, 0],
        vec![0, 0, INERTIA_MAX],
    ];
    assert_eq!(build(0, vec![COORD_MAX, -COORD_MAX, 0], rows), None);
    assert_eq!(build(MASS_MAX, vec![0, 0, 0], zero_rows()), None);
    let sys = point_mass(1, COORD_MAX, -COORD_MAX, 0);
    let c = sys.center_of_mass().unwrap();
    assert_eq!((c.numerator.x, c.numerator.y, c.numerator.z), (COORD_MAX as i128, -(COORD_MAX as i128), 0));
    assert_eq!(c.denominator, 1);
    let t = sys.total_inertia().unwrap();
    assert_eq!(t.principal.numerator.zz, 0);
    assert_eq!(t.principal.denominator, 1);
}

#[test]
fn inertia_about_the_origin_beyond_the_limit_is_rejected() {
    assert_eq!(build(4, vec![COORD_MAX, 0, 0], zero_rows()), None);
    assert_eq!(build(5, vec![COORD_MAX, 0, 0], zero_rows()), Some(Defect::OutOfRange));
    assert_eq!(build(MASS_MAX, vec![COORD_MAX, 0, 0], zero_rows()), Some(Defect::OutOfRange));
}

#[test]
fn total_mass_beyond_the_limit_is_rejected() {
    let below = vec![point_mass(MASS_MAX, 0, 0, 0), point_mass(1, 0, 0, 0)];
    let r = RigidSystem::new(0, vec![0, 0, 0], zero_rows(), below, String::new());
    assert_eq!(defect(r), Some(Defect::OutOfRange));
    let below = vec![point_mass(MASS_MAX - 1, 0, 0, 0)];
    let r = RigidSystem::new(2, vec![0, 0, 0], zero_rows(), below, String::new());
    assert_eq!(defect(r), Some(Defect::OutOfRange));
    let below = vec![point_mass(MASS_MAX - 1, 0, 0, 0)];
    let r = RigidSystem::new(1, vec![0, 0, 0], zero_rows(), below, String::new());
    assert_eq!(defect(r), None);
}

#[test]
fn total_inertia_about_the_origin_beyond_the_limit_is_rejected() {
    let far = COORD_MAX;
    let below = vec![point_mass(2, far, 0, 0), point_mass(2, -far, 0, 0)];
    let sys = RigidSystem::new(0, vec![0, 0, 0], zero_rows(), below, String::new()).unwrap();
    let t = sys.total_inertia().unwrap();
    assert_eq!(t.principal.numerator.yy, 1 << 64);
    assert_eq!(t.principal.denominator, 4);
    let below = vec![point_mass(2, far, 0, 0), point_mass(2, -far, 0, 0), point_mass(1, far, 0, 0)];
    let r = RigidSystem::new(0, vec![0, 0, 0], zero_rows(), below, String::new());
    assert_eq!(defect(r), Some(Defect::OutOfRange));
}

#[test]
fn largest_magnitudes_do_not_overflow() {
    let low = RigidSystem::new(
        MASS_MAX / 2,
        vec![0, 0, 0],
        zero_rows(),
        vec![point_mass(1, COORD_MAX, COORD_MAX, -COORD_MAX)],
        String::new(),
    )
    .unwrap();
    let high = RigidSystem::new(
        MASS_MAX / 2 - 2,
        vec![0, 0, 0],
        zero_rows(),
        vec![point_mass(1, -COORD_MAX, COORD_MAX, COORD_MAX), low],
        String::new(),
    )
    .unwrap();
    assert_eq!(high.total_mass(), MASS_MAX);
    let t = high.total_inertia().unwrap();
    assert_eq!(t.corrections.len(), 2);
    assert_eq!(t.principal.denominator, MASS_MAX as i128);
    assert_eq!(t.corrections[1].denominator, (MASS_MAX as i128) * (MASS_MAX as i128));
}

#[test]
fn the_first_defect_is_reported() {
    assert_eq!(build(-1, vec![0], vec![]), Some(Defect::NegativeMass));
    assert_eq!(build(1, vec![0], vec![]), Some(Defect::VectorShape));
    let rows = vec![vec![-1, 2, 0], vec![3, -1, 0], vec![0, 0, i64::MAX]];
    assert_eq!(build(1, vec![0, 0, 0], rows), Some(Defect::AsymmetricTensor));
    let rows = vec![vec![-1, 0, 0], vec![0, 0, 0], vec![0, 0, i64::MAX]];
    assert_eq!(build(1, vec![0, 0, 0], rows), Some(Defect::NegativeDiagonal));
    let rows = vec![vec![-1, 0, 0], vec![0, 0, 0], vec![0, 0, 0]];
    assert_eq!(build(MASS_MAX + 1, vec![0, 0, 0], rows), Some(Defect::NegativeDiagonal));
}

#[test]
fn assemble_takes_a_vector_and_a_matrix() {
    let at = Vector3::new(1, 2, 3);
    let inertia = Matrix3 { xx: 1, xy: 0, xz: 0, yx: 0, yy: 2, yz: 0, zx: 0, zy: 0, zz: 3 };
    let sys = RigidSystem::assemble(4, at, inertia, Vec::new(), String::from("leaf")).unwrap();
    assert_eq!(sys.get_mass(), 4);
    assert_eq!(sys.get_position(), at);
    assert_eq!(sys.get_local_inertia(), inertia);
    let skew = Matrix3 { xx: 1, xy: 1, xz: 0, yx: 0, yy: 2, yz: 0, zx: 0, zy: 0, zz: 3 };
    let r = RigidSystem::assemble(4, at, skew, Vec::new(), String::new());
    assert_eq!(defect(r), Some(Defect::AsymmetricTensor));
    let r = RigidSystem::assemble(-4, at, inertia, Vec::new(), String::new());
    assert_eq!(defect(r), Some(Defect::NegativeMass));
}

#[test]
fn tensor_rows_are_read_row_by_row() {
    let rows = vec![vec![1, 2, 3], vec![4, 5, 6], vec![7, 8, 9]];
    assert_eq!(
        Matrix3::from_rows(&rows),
        Some(Matrix3 { xx: 1, xy: 2, xz: 3, yx: 4, yy: 5, yz: 6, zx: 7, zy: 8, zz: 9 })
    );
    assert_eq!(Matrix3::from_rows(&vec![vec![1, 2, 3]; 2]), None);
    assert_eq!(Matrix3::from_rows(&vec![vec![1, 2]; 3]), None);
    let rows = vec![vec![1, 2, 3], vec![2, 5, 6], vec![3, 6, 9]];
    let sys = RigidSystem::new(1, vec![0, 0, 0], rows, Vec::new(), String::new()).unwrap();
    let m = sys.get_local_inertia();
    assert_eq!((m.xx, m.xy, m.xz), (1, 2, 3));
    assert_eq!((m.yx, m.yy, m.yz), (2, 5, 6));
    assert_eq!((m.zx, m.zy, m.zz), (3, 6, 9));
}

#[test]
fn vector_is_read_in_order() {
    assert_eq!(Vector3::from_vec(&vec![4, 5, 6]), Some(Vector3 { x: 4, y: 5, z: 6 }));
    assert_eq!(Vector3::from_vec(&vec![4, 5]), None);
    assert_eq!(Vector3::from_vec(&vec![4, 5, 6, 7]), None);
    assert!(Vector3::new(1, -2, 3).within(3));
    assert!(!Vector3::new(1, -2, 3).within(2));
    assert!(!Vector3::new(0, 0, 0).within(-1));
    assert!(!Vector3::new(0, 0, 0).within(i64::MIN));
}

#[test]
fn matrix_predicates() {
    let m = Matrix3 { xx: 1, xy: 2, xz: 3, yx: 2, yy: 0, yz: -4, zx: 3, zy: -4, zz: 5 };
    assert!(m.is_symmetric());
    assert!(m.has_nonnegative_diagonal());
    assert!(m.within(5));
    assert!(!m.within(4));
    assert!(!Matrix3::zero().within(-1));
    assert!(!Matrix3::zero().within(i64::MIN));
    let n = Matrix3 { zy: 4, ..m };
    assert!(!n.is_symmetric());
    let o = Matrix3 { yy: -1, ..m };
    assert!(!o.has_nonnegative_diagonal());
    assert_eq!(Matrix3::zero(), Matrix3 { xx: 0, xy: 0, xz: 0, yx: 0, yy: 0, yz: 0, zx: 0, zy: 0, zz: 0 });
}

#[test]
fn parallel_axis_shift_adds_the_displacement_tensor() {
    let inertia = Matrix3 { xx: 1, xy: 0, xz: 0, yx: 0, yy: 1, yz: 0, zx: 0, zy: 0, zz: 1 };
    let shifted = parallel_axis_shift(&inertia, 2, &Vector3 { x: 1, y: 2, z: 3 });
    assert_eq!(
        shifted,
        Some(Matrix3 { xx: 27, xy: -4, xz: -6, yx: -4, yy: 21, yz: -12, zx: -6, zy: -12, zz: 11 })
    );
}

#[test]
fn parallel_axis_shift_by_nothing_changes_nothing() {
    let inertia = Matrix3 { xx: 3, xy: 1, xz: 0, yx: 1, yy: 4, yz: 2, zx: 0, zy: 2, zz: 5 };
    assert_eq!(parallel_axis_shift(&inertia, 9, &Vector3 { x: 0, y: 0, z: 0 }), Some(inertia));
    assert_eq!(parallel_axis_shift(&inertia, 0, &Vector3 { x: 7, y: 8, z: 9 }), Some(inertia));
}

#[test]
fn parallel_axis_shift_of_a_point_mass() {
    let zero = Matrix3::zero();
    let shifted = parallel_axis_shift(&zero, 2, &Vector3 { x: 1, y: 0, z: 0 });
    assert_eq!(
        shifted,
        Some(Matrix3 { xx: 0, xy: 0, xz: 0, yx: 0, yy: 2, yz: 0, zx: 0, zy: 0, zz: 2 })
    );
}

#[test]
fn parallel_axis_shift_beyond_the_limits() {
    let zero = Matrix3::zero();
    let origin = Vector3 { x: 0, y: 0, z: 0 };
    assert_eq!(parallel_axis_shift(&zero, -1, &origin), None);
    assert_eq!(parallel_axis_shift(&zero, MASS_MAX + 1, &origin), None);
    assert_eq!(parallel_axis_shift(&zero, MASS_MAX, &origin), Some(zero));
    let far = Vector3 { x: DISPLACEMENT_MAX + 1, y: 0, z: 0 };
    assert_eq!(parallel_axis_shift(&zero, 0, &far), None);
    let edge = Vector3 { x: DISPLACEMENT_MAX, y: -DISPLACEMENT_MAX, z: 0 };
    assert_eq!(parallel_axis_shift(&zero, 0, &edge), Some(zero));
    assert_eq!(parallel_axis_shift(&zero, MASS_MAX, &edge), None);
    let big = Matrix3 { xx: i64::MAX, ..zero };
    assert_eq!(parallel_axis_shift(&big, 0, &origin), None);
    let full = Matrix3 { yy: INERTIA_MAX - 4, ..zero };
    assert_eq!(
        parallel_axis_shift(&full, 1, &Vector3 { x: 2, y: 0, z: 0 }),
        Some(Matrix3 { yy: INERTIA_MAX, zz: 4, ..zero })
    );
    assert_eq!(parallel_axis_shift(&full, 1, &Vector3 { x: 2, y: 0, z: 1 }), None);
}

#[test]
fn errors_describe_themselves() {
    assert_eq!(Defect::NegativeMass.message(), "the mass is negative");
    assert_eq!(Defect::VectorShape.message(), "the position does not have three coordinates");
    assert_eq!(
        Defect::TensorShape.message(),
        "the inertia tensor does not have three rows of three entries"
    );
    assert_eq!(Defect::AsymmetricTensor.message(), "the inertia tensor is not symmetric");
    assert_eq!(
        Defect::NegativeDiagonal.message(),
        "the inertia tensor has a negative diagonal entry"
    );
    assert_eq!(Defect::OutOfRange.message(), "a magnitude is beyond the supported range");
    assert_eq!(SystemError::DegenerateMass.message(), "the system has no mass");
    assert_eq!(
        SystemError::MalformedInput(Defect::NegativeMass).message(),
        Defect::NegativeMass.message()
    );
}
