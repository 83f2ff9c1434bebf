use vstd::prelude::*;

verus! {

/// An exact rational number `num / den`, used for angles (as fractions of a
/// full turn) and for radii. Keeping these values exact lets the layout
/// engine be reasoned about without any floating-point arithmetic; numeric
/// evaluation happens only in the unverified rendering shell.
#[derive(Clone, Copy, Debug, PartialEq, Eq, Structural)]
pub struct Frac {
    pub num: i64,
    pub den: i64,
}

/// Magnitude bound on numerators and denominators accepted by the exact
/// rational operations below; products of two such values, and sums of two
/// such products, stay within `i64`.
pub const FRAC_LIMIT: i64 = 2_000_000_000;

impl Frac {
    /// A well-formed fraction has a positive denominator.
    pub open spec fn wf(self) -> bool {
        self.den >= 1
    }

    /// Both components are small enough for exact arithmetic.
    pub open spec fn bounded(self) -> bool {
        &&& -(FRAC_LIMIT as int) <= self.num <= FRAC_LIMIT as int
        &&& 1 <= self.den <= FRAC_LIMIT as int
    }

    /// Two fractions denote the same rational value.
    pub open spec fn eqv(self, other: Frac) -> bool {
        self.num * other.den == other.num * self.den
    }

    /// `self - other` denotes the same rational value as `diff`.
    pub open spec fn diff_eqv(self, other: Frac, diff: Frac) -> bool {
        (self.num * other.den - other.num * self.den) * diff.den == diff.num * (self.den
            * other.den)
    }

    /// The exact sum of two fractions, on the common denominator.
    pub open spec fn plus_spec(self, other: Frac) -> Frac {
        Frac {
            num: (self.num * other.den + other.num * self.den) as i64,
            den: (self.den * other.den) as i64,
        }
    }

    pub fn new(num: i64, den: i64) -> (r: Frac)
        requires
            den >= 1,
        ensures
            r == (Frac { num, den }),
            r.wf(),
    {
        Frac { num, den }
    }

    /// The fraction `0 / 1`, denoting zero.
    pub fn zero() -> (r: Frac)
        ensures
            r == (Frac { num: 0, den: 1 }),
    {
        Frac { num: 0, den: 1 }
    }

    /// The fraction `1 / 2`, denoting half a turn when read as an angle.
    pub fn half() -> (r: Frac)
        ensures
            r == (Frac { num: 1, den: 2 }),
    {
        Frac { num: 1, den: 2 }
    }

    /// The fraction `1 / 1`, denoting one full turn when read as an angle.
    pub fn one() -> (r: Frac)
        ensures
            r == (Frac { num: 1, den: 1 }),
    {
        Frac { num: 1, den: 1 }
    }

    /// Exact addition on the common denominator.
    pub fn plus(self, other: Frac) -> (r: Frac)
        requires
            self.bounded(),
            other.bounded(),
        ensures
            r == self.plus_spec(other),
            r.wf(),
    {
        proof {
            lemma_bounded_product(self.num, other.den);
            lemma_bounded_product(other.num, self.den);
            lemma_bounded_product(self.den, other.den);
            assert(self.den * other.den >= 1) by (nonlinear_arith)
                requires
                    self.den >= 1,
                    other.den >= 1,
            ;
        }
        Frac { num: self.num * other.den + other.num * self.den, den: self.den * other.den }
    }
}

/// The product of two values within `FRAC_LIMIT` stays well within `i64`.
proof fn lemma_bounded_product(a: i64, b: i64)
    requires
        -(FRAC_LIMIT as int) <= a <= FRAC_LIMIT as int,
        -(FRAC_LIMIT as int) <= b <= FRAC_LIMIT as int,
    ensures
        -4_000_000_000_000_000_000 <= a * b <= 4_000_000_000_000_000_000,
{
    assert(-4_000_000_000_000_000_000 <= a * b <= 4_000_000_000_000_000_000) by (nonlinear_arith)
        requires
            -2_000_000_000 <= a <= 2_000_000_000,
            -2_000_000_000 <= b <= 2_000_000_000,
    ;
}

/// One signed polar component of a position: the 2-D vector of polar
/// coordinates `(radius, angle)` (angle measured in turns), taken positively
/// or negatively.
#[derive(Clone, Copy, Debug, PartialEq, Eq, Structural)]
pub struct PolarTerm {
    pub positive: bool,
    pub radius: Frac,
    pub angle: Frac,
}

impl PolarTerm {
    /// The zero vector, written as a polar component of radius zero.
    pub open spec fn zero_spec() -> PolarTerm {
        PolarTerm {
            positive: true,
            radius: Frac { num: 0, den: 1 },
            angle: Frac { num: 0, den: 1 },
        }
    }

    pub fn zero() -> (r: PolarTerm)
        ensures
            r == PolarTerm::zero_spec(),
    {
        PolarTerm { positive: true, radius: Frac::zero(), angle: Frac::zero() }
    }

    pub fn plus(radius: Frac, angle: Frac) -> (r: PolarTerm)
        ensures
            r == (PolarTerm { positive: true, radius, angle }),
    {
        PolarTerm { positive: true, radius, angle }
    }

    pub fn minus(radius: Frac, angle: Frac) -> (r: PolarTerm)
        ensures
            r == (PolarTerm { positive: false, radius, angle }),
    {
        PolarTerm { positive: false, radius, angle }
    }
}

/// An absolute 2-D position, kept in the symbolic form in which the layout
/// algorithm produces it: the sum of up to four signed polar components
/// (sentence-circle placement, word-circle placement, and up to two local
/// corrective offsets). Unused slots hold the zero vector, which does not
/// change the denoted point. The rendering shell evaluates the sum
/// numerically.
#[derive(Clone, Copy, Debug, PartialEq, Eq, Structural)]
pub struct Position {
    pub t1: PolarTerm,
    pub t2: PolarTerm,
    pub t3: PolarTerm,
    pub t4: PolarTerm,
}

impl Position {
    /// The position at the origin.
    pub open spec fn origin_spec() -> Position {
        Position {
            t1: PolarTerm::zero_spec(),
            t2: PolarTerm::zero_spec(),
            t3: PolarTerm::zero_spec(),
            t4: PolarTerm::zero_spec(),
        }
    }

    pub fn origin() -> (r: Position)
        ensures
            r == Position::origin_spec(),
    {
        Position {
            t1: PolarTerm::zero(),
            t2: PolarTerm::zero(),
            t3: PolarTerm::zero(),
            t4: PolarTerm::zero(),
        }
    }

    /// A position given by a single polar component.
    pub open spec fn single_spec(t: PolarTerm) -> Position {
        Position {
            t1: t,
            t2: PolarTerm::zero_spec(),
            t3: PolarTerm::zero_spec(),
            t4: PolarTerm::zero_spec(),
        }
    }

    pub fn single(t: PolarTerm) -> (r: Position)
        ensures
            r == Position::single_spec(t),
    {
        Position { t1: t, t2: PolarTerm::zero(), t3: PolarTerm::zero(), t4: PolarTerm::zero() }
    }

    /// A position given by two polar components.
    pub open spec fn pair_spec(t1: PolarTerm, t2: PolarTerm) -> Position {
        Position { t1, t2, t3: PolarTerm::zero_spec(), t4: PolarTerm::zero_spec() }
    }

    pub fn pair(t1: PolarTerm, t2: PolarTerm) -> (r: Position)
        ensures
            r == Position::pair_spec(t1, t2),
    {
        Position { t1, t2, t3: PolarTerm::zero(), t4: PolarTerm::zero() }
    }
}

/// The angular half-width that a shape of radius `shape_radius`, whose own
/// edge sits at angular distance `shape_angle` (in turns) from its center
/// line, subtends as seen from the center of the circle of radius
/// `circle_radius` it sits on. Denotes the law-of-sines correction
/// `asin(shape_radius * sin(shape_angle) / circle_radius)`, kept symbolic so
/// that the surrounding bookkeeping stays exact.
#[derive(Clone, Copy, Debug, PartialEq, Eq, Structural)]
pub struct AsinTerm {
    pub shape_radius: Frac,
    pub shape_angle: Frac,
    pub circle_radius: Frac,
}

/// An optional symbolic correction applied to a rational angle.
#[derive(Clone, Copy, Debug, PartialEq, Eq, Structural)]
pub enum Shift {
    Zero,
    Minus(AsinTerm),
    Plus(AsinTerm),
}

/// An angle on a circle: a rational base angle (in turns) with an optional
/// law-of-sines correction. The boundary angles of connecting edges take
/// this form; every other angle in the system is purely rational.
#[derive(Clone, Copy, Debug, PartialEq, Eq, Structural)]
pub struct EdgeAngle {
    pub base: Frac,
    pub shift: Shift,
}

impl EdgeAngle {
    /// A purely rational angle, with no correction.
    pub open spec fn exact_spec(base: Frac) -> EdgeAngle {
        EdgeAngle { base, shift: Shift::Zero }
    }

    pub fn exact(base: Frac) -> (r: EdgeAngle)
        ensures
            r == EdgeAngle::exact_spec(base),
    {
        EdgeAngle { base, shift: Shift::Zero }
    }
}

} // verus!
