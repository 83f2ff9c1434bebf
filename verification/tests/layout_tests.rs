use gallifreyan::layout::{get_word_circle_plots, slot_count, LayoutError, Plot};
use gallifreyan::letters::{GallifreyanToken, Part};
use gallifreyan::math::{AsinTerm, EdgeAngle, Frac, PolarTerm, Position, Shift};
use gallifreyan::sentence::layout_sentence;

fn chars(s: &str) -> Vec<char> {
    s.chars().collect()
}

fn fr(num: i64, den: i64) -> Frac {
    Frac { num, den }
}

/// The law-of-sines term of an edge-bearing letter shape against the word
/// circle.
fn letter_term(shape_angle: Frac) -> AsinTerm {
    AsinTerm {
        shape_radius: fr(1, 1),
        shape_angle,
        circle_radius: fr(5, 1),
    }
}

#[test]
fn slot_count_vowel_attachment() {
    // "BA": the A attaches to the B, so one slot
    assert_eq!(slot_count(&[GallifreyanToken::B, GallifreyanToken::A]), 1);
    // "AB": the A leads and cannot attach, so two slots
    assert_eq!(slot_count(&[GallifreyanToken::A, GallifreyanToken::B]), 2);
    // a vowel after a vowel does not attach
    assert_eq!(
        slot_count(&[
            GallifreyanToken::B,
            GallifreyanToken::A,
            GallifreyanToken::E
        ]),
        2
    );
    assert_eq!(slot_count(&[GallifreyanToken::H, GallifreyanToken::I]), 1);
}

#[test]
fn slot_angles_evenly_spaced() {
    // four consonants: four slots, a quarter turn apart, starting at twelve
    // o'clock
    let tokens = [
        GallifreyanToken::D,
        GallifreyanToken::G,
        GallifreyanToken::F,
        GallifreyanToken::H,
    ];
    let plots = get_word_circle_plots(&tokens, fr(-1, 4)).unwrap();
    // each consonant here has two parts; bases sit at even indices
    let offsets: Vec<Frac> = (0..4).map(|k| plots[2 * k].offset).collect();
    assert_eq!(offsets[0], fr(-4, 16));
    assert_eq!(offsets[1], fr(0, 16));
    assert_eq!(offsets[2], fr(4, 16));
    assert_eq!(offsets[3], fr(8, 16));
    // common denominator, numerators advancing by the same step
    for k in 0..3 {
        assert_eq!(offsets[k].den, offsets[k + 1].den);
        assert_eq!(offsets[k + 1].num - offsets[k].num, 4);
    }
}

#[test]
fn single_crescent_edge_wraps_around() {
    // one crescent-based letter: one edge, from its ending angle back
    // around to its starting angle
    let tokens = [GallifreyanToken::B];
    let wa = fr(-1, 4);
    let plots = get_word_circle_plots(&tokens, wa).unwrap();
    assert_eq!(plots.len(), 2);
    let term = letter_term(fr(1, 12));
    let sa = fr(-1, 4);
    assert_eq!(
        plots[1],
        Plot {
            part: Part::Edge(
                EdgeAngle {
                    base: sa,
                    shift: Shift::Plus(term)
                },
                EdgeAngle {
                    base: sa,
                    shift: Shift::Minus(term)
                },
            ),
            vector: Position::single(PolarTerm::plus(fr(10, 1), wa)),
            radius: fr(5, 1),
            offset: fr(0, 1),
        }
    );
}

#[test]
fn no_edge_shapes_full_circle() {
    // J (Full) with attached E (Core): no crescent or quarter, so one edge
    // spanning the whole circle
    let tokens = [GallifreyanToken::J, GallifreyanToken::E];
    let wa = fr(-1, 4);
    let plots = get_word_circle_plots(&tokens, wa).unwrap();
    assert_eq!(plots.len(), 3);
    assert_eq!(
        plots[2],
        Plot {
            part: Part::Edge(EdgeAngle::exact(fr(0, 1)), EdgeAngle::exact(fr(1, 1))),
            vector: Position::single(PolarTerm::plus(fr(10, 1), wa)),
            radius: fr(5, 1),
            offset: fr(0, 1),
        }
    );
}

#[test]
fn two_quarters_pair_between_letters() {
    // T T: two quarter-based letters, two gaps: end of the first to start
    // of the second, end of the second wrapping to start of the first
    let tokens = [GallifreyanToken::T, GallifreyanToken::T];
    let wa = fr(-1, 4);
    let plots = get_word_circle_plots(&tokens, wa).unwrap();
    assert_eq!(plots.len(), 4);
    let term = letter_term(fr(5, 18));
    let sa0 = fr(-2, 8);
    let sa1 = fr(2, 8);
    let lo = |sa: Frac| EdgeAngle {
        base: sa,
        shift: Shift::Minus(term),
    };
    let hi = |sa: Frac| EdgeAngle {
        base: sa,
        shift: Shift::Plus(term),
    };
    match plots[2].part {
        Part::Edge(s, e) => {
            assert_eq!(s, hi(sa0));
            assert_eq!(e, lo(sa1));
        }
        _ => panic!("expected an edge"),
    }
    match plots[3].part {
        Part::Edge(s, e) => {
            assert_eq!(s, hi(sa1));
            assert_eq!(e, lo(sa0));
        }
        _ => panic!("expected an edge"),
    }
}

#[test]
fn attached_vowel_sits_on_consonant_rim() {
    // "HI": H is Crescent + Line2, I attaches as Core + VowelLine1
    let tokens = [GallifreyanToken::H, GallifreyanToken::I];
    let wa = fr(-1, 4);
    let plots = get_word_circle_plots(&tokens, wa).unwrap();
    assert_eq!(plots.len(), 5);
    let sa = fr(-1, 4);
    let word_term = PolarTerm::plus(fr(10, 1), wa);
    let slot_term = PolarTerm::plus(fr(5, 1), sa);
    // H's crescent base, displaced by the crescent ratio
    assert_eq!(
        plots[0],
        Plot {
            part: Part::Crescent,
            vector: Position {
                t1: word_term,
                t2: slot_term,
                t3: PolarTerm::minus(fr(9, 10), fr(-1, 4)),
                t4: PolarTerm::zero(),
            },
            radius: fr(1, 1),
            offset: sa,
        }
    );
    // H's Line2 modifier aligns with the crescent
    assert_eq!(
        plots[1],
        Plot {
            part: Part::Line2,
            vector: Position {
                t1: word_term,
                t2: slot_term,
                t3: PolarTerm::minus(fr(9, 10), fr(-1, 4)),
                t4: PolarTerm::zero(),
            },
            radius: fr(1, 1),
            offset: sa,
        }
    );
    // I's core is additionally backed off by H's crescent ratio, so it sits
    // on the crescent's rim, and renders at a third of the letter radius
    assert_eq!(
        plots[2],
        Plot {
            part: Part::Core,
            vector: Position {
                t1: word_term,
                t2: slot_term,
                t3: PolarTerm::minus(fr(0, 1), fr(-1, 4)),
                t4: PolarTerm::minus(fr(9, 10), sa),
            },
            radius: fr(1, 3),
            offset: sa,
        }
    );
    // I's vowel line gets the same correction and aligns with the core
    assert_eq!(
        plots[3],
        Plot {
            part: Part::VowelLine1(fr(0, 1)),
            vector: Position {
                t1: word_term,
                t2: slot_term,
                t3: PolarTerm::minus(fr(0, 1), fr(-1, 4)),
                t4: PolarTerm::minus(fr(9, 10), sa),
            },
            radius: fr(1, 3),
            offset: sa,
        }
    );
    // one slot, one crescent: the single edge wraps around
    let term = letter_term(fr(1, 12));
    assert_eq!(
        plots[4].part,
        Part::Edge(
            EdgeAngle {
                base: sa,
                shift: Shift::Plus(term)
            },
            EdgeAngle {
                base: sa,
                shift: Shift::Minus(term)
            },
        )
    );
}

#[test]
fn end_to_end_single_word() {
    // the whole pipeline on "HI": the word's five plots, then the notch,
    // the inner sentence arc, and the outer boundary circle
    let plots = layout_sentence(&chars("HI")).unwrap();
    assert_eq!(plots.len(), 8);
    let word_plots = get_word_circle_plots(&[GallifreyanToken::H, GallifreyanToken::I], fr(-1, 4))
        .unwrap();
    assert_eq!(&plots[0..5], &word_plots[..]);
    // the notch at the angular midpoint, pulled in from the inner circle
    let na = fr(1, 4);
    assert_eq!(
        plots[5],
        Plot {
            part: Part::Notch,
            vector: Position::pair(
                PolarTerm::plus(fr(16, 1), na),
                PolarTerm::minus(fr(3, 4), na)
            ),
            radius: fr(5, 1),
            offset: fr(3, 4),
        }
    );
    // the single inner-circle arc wraps around the notch
    let term = AsinTerm {
        shape_radius: fr(5, 1),
        shape_angle: fr(1, 4),
        circle_radius: fr(16, 1),
    };
    assert_eq!(
        plots[6],
        Plot {
            part: Part::Edge(
                EdgeAngle {
                    base: fr(3, 4),
                    shift: Shift::Plus(term)
                },
                EdgeAngle {
                    base: fr(3, 4),
                    shift: Shift::Minus(term)
                },
            ),
            vector: Position::origin(),
            radius: fr(16, 1),
            offset: fr(1, 2),
        }
    );
    assert_eq!(
        plots[7],
        Plot {
            part: Part::New,
            vector: Position::origin(),
            radius: fr(18, 1),
            offset: fr(0, 1),
        }
    );
}

#[test]
fn two_words_get_two_notches() {
    let plots = layout_sentence(&chars("HI THERE")).unwrap();
    let notches: Vec<&Plot> = plots
        .iter()
        .filter(|p| matches!(p.part, Part::Notch))
        .collect();
    assert_eq!(notches.len(), 2);
    // first word at twelve o'clock, second half a turn later
    assert_eq!(notches[0].offset, fr(4, 8));
    assert_eq!(notches[1].offset, fr(8, 8));
    let edges: Vec<&Plot> = plots
        .iter()
        .filter(|p| matches!(p.part, Part::Edge(_, _)) && p.radius == fr(16, 1))
        .collect();
    assert_eq!(edges.len(), 2);
}

#[test]
fn empty_input_is_rejected() {
    assert_eq!(layout_sentence(&chars("")).unwrap_err(), LayoutError::EmptyInput);
    assert_eq!(layout_sentence(&chars(" ")).unwrap_err(), LayoutError::EmptyInput);
    // a doubled space leaves an empty word between the two others
    assert_eq!(
        layout_sentence(&chars("HI  THERE")).unwrap_err(),
        LayoutError::EmptyInput
    );
}

#[test]
fn tokenization_failure_names_the_substring() {
    match layout_sentence(&chars("H# THERE")).unwrap_err() {
        LayoutError::Tokenization(e) => assert_eq!(e.text, vec!['#']),
        other => panic!("expected a tokenization failure, got {:?}", other),
    }
    // the leftmost bad word wins
    match layout_sentence(&chars("HI TH3RE")).unwrap_err() {
        LayoutError::Tokenization(e) => assert_eq!(e.text, vec!['3']),
        other => panic!("expected a tokenization failure, got {:?}", other),
    }
}

#[test]
fn empty_word_is_rejected_by_word_layout() {
    let tokens: [GallifreyanToken; 0] = [];
    assert_eq!(
        get_word_circle_plots(&tokens, fr(-1, 4)).unwrap_err(),
        LayoutError::EmptyInput
    );
}

#[test]
fn moon_vowels_carry_their_side() {
    // O's moon sits at the slot angle itself, A's half a turn across
    let o_plots = get_word_circle_plots(&[GallifreyanToken::O], fr(-1, 4)).unwrap();
    assert_eq!(o_plots[0].part, Part::Moon(fr(0, 1)));
    assert_eq!(o_plots[0].vector.t3, PolarTerm::minus(fr(1, 1), fr(-1, 4)));
    assert_eq!(o_plots[0].radius, fr(1, 3));
    let a_plots = get_word_circle_plots(&[GallifreyanToken::A], fr(-1, 4)).unwrap();
    assert_eq!(a_plots[0].part, Part::Moon(fr(1, 2)));
    // the slot angle plus half a turn, on the common denominator
    assert_eq!(a_plots[0].vector.t3, PolarTerm::minus(fr(1, 1), fr(2, 8)));
    assert_eq!(a_plots[0].vector.t4, PolarTerm::zero());
}

#[test]
fn leading_vowel_is_standalone() {
    // "AB": the leading A cannot attach, so it keeps its own slot and gets
    // no rim correction
    let tokens = [GallifreyanToken::A, GallifreyanToken::B];
    let plots = get_word_circle_plots(&tokens, fr(-1, 4)).unwrap();
    // two slots: A at twelve o'clock, B half a turn on
    assert_eq!(plots[0].offset, fr(-2, 8));
    assert_eq!(plots[0].vector.t4, PolarTerm::zero());
    assert_eq!(plots[1].offset, fr(2, 8));
}

#[test]
fn full_base_uses_its_own_ratio() {
    // J is a lone Full shape: displaced by six fifths of the letter radius
    let plots = get_word_circle_plots(&[GallifreyanToken::J], fr(-1, 4)).unwrap();
    assert_eq!(plots[0].part, Part::Full);
    assert_eq!(plots[0].vector.t3, PolarTerm::minus(fr(6, 5), fr(-1, 4)));
    assert_eq!(plots[0].radius, fr(1, 1));
}

#[test]
fn words_are_spaced_around_the_sentence_circle() {
    // three one-letter words: word centers a third of a turn apart,
    // starting at twelve o'clock
    let plots = layout_sentence(&chars("A A A")).unwrap();
    // each word contributes its moon plot and one full-circle edge
    assert_eq!(plots[0].vector.t1, PolarTerm::plus(fr(10, 1), fr(-3, 12)));
    assert_eq!(plots[2].vector.t1, PolarTerm::plus(fr(10, 1), fr(1, 12)));
    assert_eq!(plots[4].vector.t1, PolarTerm::plus(fr(10, 1), fr(5, 12)));
    let notches: Vec<&Plot> = plots
        .iter()
        .filter(|p| matches!(p.part, Part::Notch))
        .collect();
    assert_eq!(notches.len(), 3);
}
