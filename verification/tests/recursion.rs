use composite_inertia::error::SystemError;
use composite_inertia::exact::ExactTensor;
use composite_inertia::system::RigidSystem;
use composite_inertia::tensor::{Matrix3, WideMatrix};

fn gcd(a: i128, b: i128) -> i128 {
    if b == 0 {
        a.abs()
    } else {
        gcd(b, a % b)
    }
}

#[derive(Clone, Copy, Debug, PartialEq, Eq)]
struct Ratio {
    num: i128,
    den: i128,
}

impl Ratio {
    fn new(num: i128, den: i128) -> Ratio {
        assert!(den != 0);
        let g = gcd(num, den);
        let sign = if den < 0 { -1 } else { 1 };
        Ratio { num: sign * num / g, den: sign * den / g }
    }

    fn whole(n: i128) -> Ratio {
        Ratio::new(n, 1)
    }

    fn plus(self, other: Ratio) -> Ratio {
        Ratio::new(self.num * other.den + other.num * self.den, self.den * other.den)
    }

    fn minus(self, other: Ratio) -> Ratio {
        self.plus(Ratio::new(-other.num, other.den))
    }

    fn times(self, other: Ratio) -> Ratio {
        Ratio::new(self.num * other.num, self.den * other.den)
    }
}

fn entries(m: WideMatrix) -> [[i128; 3]; 3] {
    [[m.xx, m.xy, m.xz], [m.yx, m.yy, m.yz], [m.zx, m.zy, m.zz]]
}

fn value(t: &ExactTensor) -> [[Ratio; 3]; 3] {
    let mut out = [[Ratio::whole(0); 3]; 3];
    let top = entries(t.principal.numerator);
    for i in 0..3 {
        for j in 0..3 {
            out[i][j] = Ratio::new(top[i][j], t.principal.denominator);
            for c in &t.corrections {
                out[i][j] = out[i][j].minus(Ratio::new(entries(c.numerator)[i][j], c.denominator));
            }
        }
    }
    out
}

struct Dice(u64);

impl Dice {
    fn roll(&mut self, sides: u64) -> i64 {
        self.0 = self.0.wrapping_mul(6364136223846793005).wrapping_add(1442695040888963407);
        ((self.0 >> 33) % sides) as i64
    }
}

fn grow(dice: &mut Dice, depth: u32) -> RigidSystem {
    let mass = dice.roll(4);
    let position = vec![dice.roll(9) - 4, dice.roll(9) - 4, dice.roll(9) - 4];
    let (xy, xz, yz) = (dice.roll(7) - 3, dice.roll(7) - 3, dice.roll(7) - 3);
    let rows = vec![
        vec![dice.roll(9), xy, xz],
        vec![xy, dice.roll(9), yz],
        vec![xz, yz, dice.roll(9)],
    ];
    let mut below = Vec::new();
    if depth > 0 {
        for _ in 0..dice.roll(3) {
            below.push(grow(dice, depth - 1));
        }
    }
    RigidSystem::new(mass, position, rows, below, String::from("grown")).unwrap()
}

struct Aggregate {
    mass: i128,
    center: [Ratio; 3],
    inertia: [[Ratio; 3]; 3],
}

fn local(m: Matrix3) -> [[i128; 3]; 3] {
    [
        [m.xx as i128, m.xy as i128, m.xz as i128],
        [m.yx as i128, m.yy as i128, m.yz as i128],
        [m.zx as i128, m.zy as i128, m.zz as i128],
    ]
}

fn fold(sys: &RigidSystem) -> Aggregate {
    let p = sys.get_position();
    let own = sys.get_mass() as i128;
    let at = [p.x as i128, p.y as i128, p.z as i128];
    let parts: Vec<Aggregate> = sys.get_subsystems().iter().map(fold).collect();
    let mut mass = own;
    let mut weighted = [Ratio::whole(own * at[0]), Ratio::whole(own * at[1]), Ratio::whole(own * at[2])];
    for part in &parts {
        mass += part.mass;
        if part.mass > 0 {
            for i in 0..3 {
                weighted[i] = weighted[i].plus(Ratio::whole(part.mass).times(part.center[i]));
            }
        }
    }
    let mut center = [Ratio::whole(0); 3];
    if mass > 0 {
        for i in 0..3 {
            center[i] = weighted[i].times(Ratio::new(1, mass));
        }
    }
    let given = local(sys.get_local_inertia());
    let mut inertia = [[Ratio::whole(0); 3]; 3];
    for i in 0..3 {
        for j in 0..3 {
            inertia[i][j] = Ratio::whole(given[i][j]);
        }
    }
    for part in &parts {
        let mut d = [Ratio::whole(0); 3];
        if part.mass > 0 {
            for i in 0..3 {
                d[i] = part.center[i].minus(center[i]);
            }
        }
        let square = d[0].times(d[0]).plus(d[1].times(d[1])).plus(d[2].times(d[2]));
        for i in 0..3 {
            for j in 0..3 {
                let unit = if i == j { square } else { Ratio::whole(0) };
                let term = Ratio::whole(part.mass).times(unit.minus(d[i].times(d[j])));
                inertia[i][j] = inertia[i][j].plus(part.inertia[i][j]).plus(term);
            }
        }
    }
    assert_eq!(sys.total_mass() as i128, mass);
    if mass == 0 {
        assert_eq!(sys.center_of_mass(), Err(SystemError::DegenerateMass));
        assert_eq!(sys.total_inertia(), Err(SystemError::DegenerateMass));
    } else {
        let c = sys.center_of_mass().unwrap();
        let den = c.denominator as i128;
        assert_eq!(den, mass);
        assert_eq!(
            [Ratio::new(c.numerator.x, den), Ratio::new(c.numerator.y, den), Ratio::new(c.numerator.z, den)],
            center
        );
        assert_eq!(value(sys.total_inertia().unwrap()), inertia);
    }
    Aggregate { mass, center, inertia }
}

#[test]
fn aggregates_match_a_direct_recursion() {
    let mut dice = Dice(2024);
    let mut bodies = 0;
    let mut corrected = 0;
    for _ in 0..300 {
        let tree = grow(&mut dice, 3);
        let whole = fold(&tree);
        bodies += 1 + tree.get_subsystems().len();
        if whole.mass > 0 && !tree.total_inertia().unwrap().corrections.is_empty() {
            corrected += 1;
        }
        assert_eq!(whole.mass, tree.total_mass() as i128);
    }
    assert!(bodies > 300);
    assert!(corrected > 20);
}
