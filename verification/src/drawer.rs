use vstd::prelude::*;
use crate::layout::Plot;
use crate::letters::Part;
use crate::math::{EdgeAngle, Frac, Position};

verus! {

/// Round `t / d` (with `d` positive) to the nearest whole number, halves
/// away from zero.
pub open spec fn round_div(t: int, d: int) -> int {
    if t >= 0 {
        (2 * t + d) / (2 * d)
    } else {
        -((2 * -t + d) / (2 * d))
    }
}

/// The nearest whole number of degrees to an angle given in turns.
pub open spec fn turns_to_degrees(a: Frac) -> int {
    round_div(360 * a.num, a.den as int)
}

/// Convert an exact angle in turns to the nearest whole degree.
pub fn round_to_degrees(a: Frac) -> (d: i64)
    requires
        a.wf(),
        -0x4000_0000_0000i64 <= a.num <= 0x4000_0000_0000i64,
        a.den <= 0x4000_0000_0000i64,
    ensures
        d == turns_to_degrees(a),
{
    let t: i64 = 360 * a.num;
    if t >= 0 {
        (2 * t + a.den) / (2 * a.den)
    } else {
        -((2 * -t + a.den) / (2 * a.den))
    }
}

/// The number of one-degree samples of an arc from `start` to `end` degrees:
/// both ends inclusive, the end extended by a full circle when the range
/// wraps (when `start` is not strictly below `end`).
pub open spec fn arc_sample_count(start: int, end: int) -> int {
    let stop = if start < end {
        end
    } else {
        end + 360
    };
    if start <= stop {
        stop - start + 1
    } else {
        0
    }
}

/// The whole degrees at which an arc is sampled, one per degree from the
/// start to the (possibly wrapped) end.
pub open spec fn arc_sample_degrees(start: int, end: int) -> Seq<int> {
    Seq::new(arc_sample_count(start, end) as nat, |q: int| start + q)
}

/// Sample an arc at one-degree resolution: every whole degree from `start`
/// up to `end`, the end extended by a full circle when the range wraps.
pub fn arc_degrees(start: i64, end: i64) -> (r: Vec<i64>)
    requires
        -1_000_000_000 <= start <= 1_000_000_000,
        -1_000_000_000 <= end <= 1_000_000_000,
    ensures
        r@.len() == arc_sample_count(start as int, end as int),
        forall|q: int| 0 <= q < r@.len() ==> r@[q] == start + q,
{
    let stop: i64 = if start < end {
        end
    } else {
        end + 360
    };
    let mut r: Vec<i64> = Vec::new();
    if start <= stop {
        let mut d: i64 = start;
        while d <= stop
            invariant
                start <= d <= stop + 1,
                stop <= 1_000_000_360,
                r@.len() == d - start,
                forall|q: int| 0 <= q < r@.len() ==> r@[q] == start + q,
            decreases stop + 1 - d,
        {
            r.push(d);
            d = d + 1;
        }
    }
    r
}

/// Sampling an arc is deterministic: any two sample lists drawn from the
/// same angular range are identical.
pub proof fn lemma_arc_sampling_deterministic(start: int, end: int, r1: Seq<i64>, r2: Seq<i64>)
    requires
        r1.len() == arc_sample_count(start, end),
        forall|q: int| 0 <= q < r1.len() ==> r1[q] == start + q,
        r2.len() == arc_sample_count(start, end),
        forall|q: int| 0 <= q < r2.len() ==> r2[q] == start + q,
    ensures
        r1 == r2,
{
    assert(r1 =~= r2);
}

/// How one plot is drawn: an arc sampled along a circle, a ring of dots just
/// outside it, or radial line ticks.
#[derive(Debug, PartialEq, Eq)]
pub enum DrawPlan {
    Arc { origin: Position, size: Frac, start: EdgeAngle, end: EdgeAngle, rotation: Frac },
    Dots { origin: Position, size: Frac, angles: Vec<Frac>, rotation: Frac },
    Lines { origin: Position, size: Frac, angles: Vec<Frac>, rotation: Frac },
}

/// The parts drawn as dots.
pub open spec fn is_dot_part(p: Part) -> bool {
    match p {
        Part::Dot1 | Part::Dot2 | Part::Dot3 | Part::Dot4 => true,
        _ => false,
    }
}

/// The parts drawn as radial line ticks.
pub open spec fn is_line_part(p: Part) -> bool {
    match p {
        Part::VowelLine1(_) | Part::Line1 | Part::Line2 | Part::Line3 => true,
        _ => false,
    }
}

/// The angles (in turns, before rotation) of the dots of a dot part.
pub open spec fn dot_angles(p: Part) -> Seq<Frac> {
    match p {
        Part::Dot1 => seq![Frac { num: 0, den: 1 }],
        Part::Dot2 => seq![Frac { num: -1i64, den: 8 }, Frac { num: 1, den: 8 }],
        Part::Dot3 => seq![
            Frac { num: -1i64, den: 8 },
            Frac { num: 0, den: 1 },
            Frac { num: 1, den: 8 },
        ],
        Part::Dot4 => seq![
            Frac { num: -1i64, den: 8 },
            Frac { num: -1i64, den: 16 },
            Frac { num: 1, den: 16 },
            Frac { num: 1, den: 8 },
        ],
        _ => Seq::empty(),
    }
}

/// The angles (in turns, before rotation) of the ticks of a line part.
pub open spec fn line_angles(p: Part) -> Seq<Frac> {
    match p {
        Part::VowelLine1(_) => seq![Frac { num: 0, den: 1 }],
        Part::Line1 => seq![Frac { num: 1, den: 2 }],
        Part::Line2 => seq![Frac { num: -1i64, den: 8 }, Frac { num: 1, den: 8 }],
        Part::Line3 => seq![
            Frac { num: -1i64, den: 8 },
            Frac { num: 0, den: 1 },
            Frac { num: 1, den: 8 },
        ],
        _ => Seq::empty(),
    }
}

/// The rotation applied to a line part's ticks: the vowel line turns with
/// its carried offset, and the single tick of `Line1` is shifted by half a
/// turn.
pub open spec fn line_rotation(p: Part, offset: Frac) -> Frac {
    match p {
        Part::VowelLine1(o) => offset.plus_spec(o),
        Part::Line1 => offset.plus_spec(Frac { num: 1, den: 2 }),
        _ => offset,
    }
}

/// The angular range (in turns) along which a part's arc is drawn: a full
/// circle for the closed shapes, the open span for the crescent, quarter
/// and notch, and the carried boundary pair for a connecting edge.
pub open spec fn arc_range(p: Part) -> (EdgeAngle, EdgeAngle) {
    match p {
        Part::Crescent => (
            EdgeAngle::exact_spec(Frac { num: 1, den: 12 }),
            EdgeAngle::exact_spec(Frac { num: -1i64, den: 12 }),
        ),
        Part::Quarter => (
            EdgeAngle::exact_spec(Frac { num: 5, den: 18 }),
            EdgeAngle::exact_spec(Frac { num: -5i64, den: 18 }),
        ),
        Part::Notch => (
            EdgeAngle::exact_spec(Frac { num: -1i64, den: 4 }),
            EdgeAngle::exact_spec(Frac { num: 1, den: 4 }),
        ),
        Part::Edge(s, e) => (s, e),
        _ => (
            EdgeAngle::exact_spec(Frac { num: 0, den: 1 }),
            EdgeAngle::exact_spec(Frac { num: 1, den: 1 }),
        ),
    }
}

/// How far beyond its base circle a dot sits.
pub fn dot_offset() -> (r: Frac)
    ensures
        r == (Frac { num: 2, den: 5 }),
{
    Frac { num: 2, den: 5 }
}

/// How far a line tick extends, as a multiple of its base radius.
pub fn line_extent_ratio() -> (r: Frac)
    ensures
        r == (Frac { num: 3, den: 2 }),
{
    Frac { num: 3, den: 2 }
}

/// The angles fed to the exact rotation of a line part stay within the
/// range the exact addition accepts.
pub open spec fn plan_angles_in_range(plot: Plot) -> bool {
    &&& (plot.part matches Part::VowelLine1(o) ==> plot.offset.bounded() && o.bounded())
    &&& (plot.part is Line1 ==> plot.offset.bounded())
}

/// What drawing a plot means: dot parts become dots, line parts become
/// radial ticks, and every other part becomes an arc along its angular
/// range, everything else carried over unchanged.
pub open spec fn plan_matches(plot: Plot, plan: DrawPlan) -> bool {
    if is_dot_part(plot.part) {
        &&& plan matches DrawPlan::Dots { origin, size, angles, rotation }
        &&& origin == plot.vector
        &&& size == plot.radius
        &&& angles@ =~= dot_angles(plot.part)
        &&& rotation == plot.offset
    } else if is_line_part(plot.part) {
        &&& plan matches DrawPlan::Lines { origin, size, angles, rotation }
        &&& origin == plot.vector
        &&& size == plot.radius
        &&& angles@ =~= line_angles(plot.part)
        &&& rotation == line_rotation(plot.part, plot.offset)
    } else {
        &&& plan matches DrawPlan::Arc { origin, size, start, end, rotation }
        &&& origin == plot.vector
        &&& size == plot.radius
        &&& (start, end) == arc_range(plot.part)
        &&& rotation == plot.offset
    }
}

/// Decide how a plot is drawn: dot parts become dots, line parts become
/// radial ticks, and every other part becomes an arc along its angular
/// range.
pub fn draw_plan(plot: &Plot) -> (r: DrawPlan)
    requires
        plan_angles_in_range(*plot),
    ensures
        plan_matches(*plot, r),
{
    match plot.part {
        Part::Dot1 => DrawPlan::Dots {
            origin: plot.vector,
            size: plot.radius,
            angles: vec![Frac { num: 0, den: 1 }],
            rotation: plot.offset,
        },
        Part::Dot2 => DrawPlan::Dots {
            origin: plot.vector,
            size: plot.radius,
            angles: vec![Frac { num: -1i64, den: 8 }, Frac { num: 1, den: 8 }],
            rotation: plot.offset,
        },
        Part::Dot3 => DrawPlan::Dots {
            origin: plot.vector,
            size: plot.radius,
            angles: vec![
                Frac { num: -1, den: 8 },
                Frac { num: 0, den: 1 },
                Frac { num: 1, den: 8 },
            ],
            rotation: plot.offset,
        },
        Part::Dot4 => DrawPlan::Dots {
            origin: plot.vector,
            size: plot.radius,
            angles: vec![
                Frac { num: -1, den: 8 },
                Frac { num: -1, den: 16 },
                Frac { num: 1, den: 16 },
                Frac { num: 1, den: 8 },
            ],
            rotation: plot.offset,
        },
        Part::VowelLine1(o) => DrawPlan::Lines {
            origin: plot.vector,
            size: plot.radius,
            angles: vec![Frac { num: 0, den: 1 }],
            rotation: plot.offset.plus(o),
        },
        Part::Line1 => DrawPlan::Lines {
            origin: plot.vector,
            size: plot.radius,
            angles: vec![Frac { num: 1, den: 2 }],
            rotation: plot.offset.plus(Frac { num: 1, den: 2 }),
        },
        Part::Line2 => DrawPlan::Lines {
            origin: plot.vector,
            size: plot.radius,
            angles: vec![Frac { num: -1i64, den: 8 }, Frac { num: 1, den: 8 }],
            rotation: plot.offset,
        },
        Part::Line3 => DrawPlan::Lines {
            origin: plot.vector,
            size: plot.radius,
            angles: vec![
                Frac { num: -1, den: 8 },
                Frac { num: 0, den: 1 },
                Frac { num: 1, den: 8 },
            ],
            rotation: plot.offset,
        },
        Part::Crescent => DrawPlan::Arc {
            origin: plot.vector,
            size: plot.radius,
            start: EdgeAngle::exact(Frac { num: 1, den: 12 }),
            end: EdgeAngle::exact(Frac { num: -1, den: 12 }),
            rotation: plot.offset,
        },
        Part::Quarter => DrawPlan::Arc {
            origin: plot.vector,
            size: plot.radius,
            start: EdgeAngle::exact(Frac { num: 5, den: 18 }),
            end: EdgeAngle::exact(Frac { num: -5, den: 18 }),
            rotation: plot.offset,
        },
        Part::Notch => DrawPlan::Arc {
            origin: plot.vector,
            size: plot.radius,
            start: EdgeAngle::exact(Frac { num: -1, den: 4 }),
            end: EdgeAngle::exact(Frac { num: 1, den: 4 }),
            rotation: plot.offset,
        },
        Part::Edge(s, e) => DrawPlan::Arc {
            origin: plot.vector,
            size: plot.radius,
            start: s,
            end: e,
            rotation: plot.offset,
        },
        _ => DrawPlan::Arc {
            origin: plot.vector,
            size: plot.radius,
            start: EdgeAngle::exact(Frac { num: 0, den: 1 }),
            end: EdgeAngle::exact(Frac { num: 1, den: 1 }),
            rotation: plot.offset,
        },
    }
}

/// Decide how every plot of a layout is drawn, in order.
pub fn draw_plots(plots: &Vec<Plot>) -> (r: Vec<DrawPlan>)
    requires
        forall|i: int| 0 <= i < plots@.len() ==> plan_angles_in_range(#[trigger] plots@[i]),
    ensures
        r@.len() == plots@.len(),
        forall|i: int| 0 <= i < plots@.len() ==> plan_matches(plots@[i], #[trigger] r@[i]),
{
    let mut r: Vec<DrawPlan> = Vec::new();
    let mut i: usize = 0;
    while i < plots.len()
        invariant
            i <= plots.len(),
            forall|q: int| 0 <= q < plots@.len() ==> plan_angles_in_range(#[trigger] plots@[q]),
            r@.len() == i,
            forall|q: int| 0 <= q < i ==> plan_matches(plots@[q], #[trigger] r@[q]),
        decreases plots.len() - i,
    {
        r.push(draw_plan(&plots[i]));
        i = i + 1;
    }
    r
}

} // verus!
