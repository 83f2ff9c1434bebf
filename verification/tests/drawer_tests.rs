use gallifreyan::drawer::{
    arc_degrees, dot_offset, draw_plan, draw_plots, line_extent_ratio, round_to_degrees, DrawPlan,
};
use gallifreyan::sentence::layout_sentence;
use gallifreyan::layout::Plot;
use gallifreyan::letters::Part;
use gallifreyan::math::{EdgeAngle, Frac, PolarTerm, Position};

fn fr(num: i64, den: i64) -> Frac {
    Frac { num, den }
}

fn plot_with(part: Part) -> Plot {
    Plot {
        part,
        vector: Position::single(PolarTerm::plus(fr(10, 1), fr(-1, 4))),
        radius: fr(1, 1),
        offset: fr(-1, 4),
    }
}

#[test]
fn degrees_of_exact_angles() {
    assert_eq!(round_to_degrees(fr(-1, 4)), -90);
    assert_eq!(round_to_degrees(fr(1, 12)), 30);
    assert_eq!(round_to_degrees(fr(-1, 12)), -30);
    assert_eq!(round_to_degrees(fr(5, 18)), 100);
    assert_eq!(round_to_degrees(fr(0, 1)), 0);
    assert_eq!(round_to_degrees(fr(1, 1)), 360);
}

#[test]
fn degrees_round_half_away_from_zero() {
    // 360/7 = 51.43 rounds down, 360/700 = 0.51 rounds up
    assert_eq!(round_to_degrees(fr(1, 7)), 51);
    assert_eq!(round_to_degrees(fr(1, 700)), 1);
    // exact halves go away from zero
    assert_eq!(round_to_degrees(fr(1, 720)), 1);
    assert_eq!(round_to_degrees(fr(-1, 720)), -1);
    assert_eq!(round_to_degrees(fr(3, 720)), 2);
}

#[test]
fn arc_sampling_one_degree_steps() {
    let r = arc_degrees(0, 360);
    assert_eq!(r.len(), 361);
    assert_eq!(r[0], 0);
    assert_eq!(r[360], 360);
    for (q, d) in r.iter().enumerate() {
        assert_eq!(*d, q as i64);
    }
}

#[test]
fn arc_sampling_wraps_when_start_is_not_below_end() {
    // the crescent's open span: from 30 degrees around to -30, which wraps
    // to 330
    let r = arc_degrees(30, -30);
    assert_eq!(r.len(), 301);
    assert_eq!(r[0], 30);
    assert_eq!(r[300], 330);
}

#[test]
fn arc_sampling_is_deterministic() {
    let a = arc_degrees(100, -100);
    let b = arc_degrees(100, -100);
    assert_eq!(a, b);
    let c = arc_degrees(-90, 270);
    let d = arc_degrees(-90, 270);
    assert_eq!(c, d);
}

#[test]
fn plans_for_arcs() {
    let p = plot_with(Part::Crescent);
    match draw_plan(&p) {
        DrawPlan::Arc {
            origin,
            size,
            start,
            end,
            rotation,
        } => {
            assert_eq!(origin, p.vector);
            assert_eq!(size, fr(1, 1));
            assert_eq!(start, EdgeAngle::exact(fr(1, 12)));
            assert_eq!(end, EdgeAngle::exact(fr(-1, 12)));
            assert_eq!(rotation, fr(-1, 4));
        }
        other => panic!("expected an arc, got {:?}", other),
    }
    match draw_plan(&plot_with(Part::Full)) {
        DrawPlan::Arc { start, end, .. } => {
            assert_eq!(start, EdgeAngle::exact(fr(0, 1)));
            assert_eq!(end, EdgeAngle::exact(fr(1, 1)));
        }
        other => panic!("expected an arc, got {:?}", other),
    }
    let e = plot_with(Part::Edge(
        EdgeAngle::exact(fr(1, 8)),
        EdgeAngle::exact(fr(3, 8)),
    ));
    match draw_plan(&e) {
        DrawPlan::Arc { start, end, .. } => {
            assert_eq!(start, EdgeAngle::exact(fr(1, 8)));
            assert_eq!(end, EdgeAngle::exact(fr(3, 8)));
        }
        other => panic!("expected an arc, got {:?}", other),
    }
}

#[test]
fn plans_for_dots_and_lines() {
    match draw_plan(&plot_with(Part::Dot2)) {
        DrawPlan::Dots { angles, rotation, .. } => {
            assert_eq!(angles, vec![fr(-1, 8), fr(1, 8)]);
            assert_eq!(rotation, fr(-1, 4));
        }
        other => panic!("expected dots, got {:?}", other),
    }
    match draw_plan(&plot_with(Part::Dot4)) {
        DrawPlan::Dots { angles, .. } => {
            assert_eq!(angles, vec![fr(-1, 8), fr(-1, 16), fr(1, 16), fr(1, 8)]);
        }
        other => panic!("expected dots, got {:?}", other),
    }
    // the lone tick of Line1 is shifted half a turn, on both sides
    match draw_plan(&plot_with(Part::Line1)) {
        DrawPlan::Lines { angles, rotation, .. } => {
            assert_eq!(angles, vec![fr(1, 2)]);
            // -1/4 + 1/2 on the common denominator
            assert_eq!(rotation, fr(2, 8));
        }
        other => panic!("expected lines, got {:?}", other),
    }
    // the vowel line turns with its carried offset
    match draw_plan(&plot_with(Part::VowelLine1(fr(1, 2)))) {
        DrawPlan::Lines { angles, rotation, .. } => {
            assert_eq!(angles, vec![fr(0, 1)]);
            assert_eq!(rotation, fr(2, 8));
        }
        other => panic!("expected lines, got {:?}", other),
    }
}

#[test]
fn drawing_constants() {
    assert_eq!(dot_offset(), fr(2, 5));
    assert_eq!(line_extent_ratio(), fr(3, 2));
}

#[test]
fn plans_for_a_whole_layout() {
    let text: Vec<char> = "HI".chars().collect();
    let plots = layout_sentence(&text).unwrap();
    let plans = draw_plots(&plots);
    assert_eq!(plans.len(), plots.len());
    // crescent base, line ticks, core, vowel line, then arcs only
    assert!(matches!(plans[0], DrawPlan::Arc { .. }));
    assert!(matches!(plans[1], DrawPlan::Lines { .. }));
    assert!(matches!(plans[2], DrawPlan::Arc { .. }));
    assert!(matches!(plans[3], DrawPlan::Lines { .. }));
    assert!(matches!(plans[4], DrawPlan::Arc { .. }));
    assert!(matches!(plans[7], DrawPlan::Arc { .. }));
}
