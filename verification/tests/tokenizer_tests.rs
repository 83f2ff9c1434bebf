use gallifreyan::letters::{GallifreyanToken, Part};
use gallifreyan::math::Frac;
use gallifreyan::tokenizer::{split_sentence, tokenize_word};

fn chars(s: &str) -> Vec<char> {
    s.chars().collect()
}

#[test]
fn spelling_roundtrip_all_letters() {
    let alphabet = [
        GallifreyanToken::A,
        GallifreyanToken::E,
        GallifreyanToken::I,
        GallifreyanToken::O,
        GallifreyanToken::U,
        GallifreyanToken::B,
        GallifreyanToken::CH,
        GallifreyanToken::D,
        GallifreyanToken::G,
        GallifreyanToken::H,
        GallifreyanToken::F,
        GallifreyanToken::J,
        GallifreyanToken::PH,
        GallifreyanToken::K,
        GallifreyanToken::L,
        GallifreyanToken::C,
        GallifreyanToken::N,
        GallifreyanToken::P,
        GallifreyanToken::M,
        GallifreyanToken::T,
        GallifreyanToken::WH,
        GallifreyanToken::SH,
        GallifreyanToken::R,
        GallifreyanToken::V,
        GallifreyanToken::W,
        GallifreyanToken::S,
        GallifreyanToken::TH,
        GallifreyanToken::GH,
        GallifreyanToken::Y,
        GallifreyanToken::Z,
        GallifreyanToken::Q,
        GallifreyanToken::QU,
        GallifreyanToken::X,
        GallifreyanToken::NG,
    ];
    assert_eq!(alphabet.len(), 34);
    for t in alphabet {
        let spelled = t.spelling();
        let tokens = tokenize_word(&spelled).unwrap();
        assert_eq!(tokens, vec![t]);
    }
}

#[test]
fn digraph_merging() {
    assert_eq!(
        tokenize_word(&chars("CH")).unwrap(),
        vec![GallifreyanToken::CH]
    );
    assert_eq!(
        tokenize_word(&chars("C")).unwrap(),
        vec![GallifreyanToken::C]
    );
    assert_eq!(
        tokenize_word(&chars("NG")).unwrap(),
        vec![GallifreyanToken::NG]
    );
    assert_eq!(
        tokenize_word(&chars("N")).unwrap(),
        vec![GallifreyanToken::N]
    );
    assert_eq!(
        tokenize_word(&chars("NO")).unwrap(),
        vec![GallifreyanToken::N, GallifreyanToken::O]
    );
    assert_eq!(
        tokenize_word(&chars("QUIT")).unwrap(),
        vec![
            GallifreyanToken::QU,
            GallifreyanToken::I,
            GallifreyanToken::T
        ]
    );
    assert_eq!(
        tokenize_word(&chars("THE")).unwrap(),
        vec![GallifreyanToken::TH, GallifreyanToken::E]
    );
}

#[test]
fn lowercase_is_normalized() {
    assert_eq!(
        tokenize_word(&chars("chi")).unwrap(),
        vec![GallifreyanToken::CH, GallifreyanToken::I]
    );
    assert_eq!(
        tokenize_word(&chars("Hi")).unwrap(),
        vec![GallifreyanToken::H, GallifreyanToken::I]
    );
}

#[test]
fn unknown_grouping_is_reported() {
    let err = tokenize_word(&chars("A#B")).unwrap_err();
    assert_eq!(err.text, vec!['#']);
    let err = tokenize_word(&chars("1")).unwrap_err();
    assert_eq!(err.text, vec!['1']);
}

#[test]
fn symbol_before_h_stays_alone() {
    // only the listed consonants group with a following H
    let err = tokenize_word(&chars("#H")).unwrap_err();
    assert_eq!(err.text, vec!['#']);
}

#[test]
fn split_on_spaces_with_terminator_semantics() {
    let words = split_sentence(&chars("AB CD"));
    assert_eq!(words, vec![chars("AB"), chars("CD")]);
    // a trailing space adds no empty word
    let words = split_sentence(&chars("AB "));
    assert_eq!(words, vec![chars("AB")]);
    // a doubled space yields an empty word in the middle
    let words = split_sentence(&chars("AB  CD"));
    assert_eq!(words, vec![chars("AB"), chars(""), chars("CD")]);
    // newlines are discarded before splitting
    let words = split_sentence(&chars("AB\n CD\n"));
    assert_eq!(words, vec![chars("AB"), chars("CD")]);
    let words: Vec<Vec<char>> = split_sentence(&chars(""));
    assert_eq!(words.len(), 0);
}

#[test]
fn tokens_carry_their_parts() {
    assert_eq!(
        GallifreyanToken::H.parts(),
        vec![Part::Crescent, Part::Line2]
    );
    assert_eq!(
        GallifreyanToken::I.parts(),
        vec![Part::Core, Part::VowelLine1(Frac { num: 0, den: 1 })]
    );
    assert_eq!(
        GallifreyanToken::A.parts(),
        vec![Part::Moon(Frac { num: 1, den: 2 })]
    );
    assert_eq!(GallifreyanToken::J.parts(), vec![Part::Full]);
    assert_eq!(GallifreyanToken::T.parts(), vec![Part::Quarter]);
    assert_eq!(GallifreyanToken::TH.parts(), vec![Part::New]);
}

#[test]
fn vowels_and_letters() {
    assert!(GallifreyanToken::A.is_vowel());
    assert!(GallifreyanToken::U.is_vowel());
    assert!(!GallifreyanToken::B.is_vowel());
    assert!(!GallifreyanToken::QU.is_vowel());
    assert!(GallifreyanToken::A.is_letter());
    assert!(GallifreyanToken::NG.is_letter());
}

#[test]
fn part_classification() {
    assert!(Part::Crescent.is_base());
    assert!(Part::Moon(Frac { num: 0, den: 1 }).is_base());
    assert!(!Part::Dot2.is_base());
    assert!(Part::Dot2.is_modifier());
    assert!(Part::VowelLine1(Frac { num: 0, den: 1 }).is_modifier());
    assert!(!Part::Core.is_modifier());
    assert!(Part::Crescent.has_edge());
    assert!(Part::Quarter.has_edge());
    assert!(!Part::Full.has_edge());
    assert!(!Part::New.has_edge());
    assert!(!Part::Core.has_edge());
}

#[test]
fn single_letter_parse() {
    assert_eq!(
        GallifreyanToken::from_text(&chars("ch")).unwrap(),
        GallifreyanToken::CH
    );
    assert_eq!(
        GallifreyanToken::from_text(&chars("Q")).unwrap(),
        GallifreyanToken::Q
    );
    // an unknown spelling is reported, uppercased
    let err = GallifreyanToken::from_text(&chars("zz")).unwrap_err();
    assert_eq!(err.text, vec!['Z', 'Z']);
    let err = GallifreyanToken::from_text(&chars("")).unwrap_err();
    assert_eq!(err.text, Vec::<char>::new());
}

#[test]
fn readable_names() {
    assert_eq!(GallifreyanToken::CH.name(), "Gallifreyan CH");
    assert_eq!(GallifreyanToken::A.name(), "Gallifreyan A");
    assert_eq!(Part::Crescent.name(), "Crescent");
    assert_eq!(Part::Moon(Frac { num: 1, den: 2 }).name(), "Moon");
}
