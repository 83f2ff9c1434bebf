use vstd::prelude::*;
use crate::math::{EdgeAngle, Frac};

verus! {

/// Failure to recognise a letter grouping: carries the offending substring.
#[derive(Debug, PartialEq, Eq)]
pub struct ParseGallifreyanTokenError {
    pub text: Vec<char>,
}

/// The letters of the Gallifreyan alphabet: the five vowels and the
/// consonants, including the digraphs that the tokenizer merges into a
/// single letter.
#[derive(Clone, Copy, Debug, PartialEq, Eq, Structural)]
pub enum GallifreyanToken {
    A,
    E,
    I,
    O,
    U,
    B,
    CH,
    D,
    G,
    H,
    F,
    J,
    PH,
    K,
    L,
    C,
    N,
    P,
    M,
    T,
    WH,
    SH,
    R,
    V,
    W,
    S,
    TH,
    GH,
    Y,
    Z,
    Q,
    QU,
    X,
    NG,
}

/// The constructive-geometry primitives that letters decompose into, plus
/// the synthesized connector (`Edge`) and word separator (`Notch`). A base
/// shape is chosen once per letter; zero or one modifier accompanies it.
/// `Moon` and `VowelLine1` carry the angular offset (in turns) that selects
/// which side of the base the mark sits on; `Edge` carries the pair of
/// boundary angles of the arc it spans.
#[derive(Clone, Copy, Debug, PartialEq, Eq, Structural)]
pub enum Part {
    Moon(Frac),
    Core,
    Crescent,
    Full,
    Quarter,
    New,
    Dot1,
    Dot2,
    Dot3,
    Dot4,
    VowelLine1(Frac),
    Line1,
    Line2,
    Line3,
    Notch,
    Edge(EdgeAngle, EdgeAngle),
}

impl GallifreyanToken {
    /// The parts that compose this letter: its base shape first, then its
    /// modifier mark, if it has one.
    pub open spec fn parts_spec(self) -> Seq<Part> {
        match self {
            GallifreyanToken::A => seq![Part::Moon(Frac { num: 1, den: 2 })],
            GallifreyanToken::E => seq![Part::Core],
            GallifreyanToken::I => seq![Part::Core, Part::VowelLine1(Frac { num: 0, den: 1 })],
            GallifreyanToken::O => seq![Part::Moon(Frac { num: 0, den: 1 })],
            GallifreyanToken::U => seq![Part::Core, Part::VowelLine1(Frac { num: 1, den: 2 })],
            GallifreyanToken::B => seq![Part::Crescent],
            GallifreyanToken::CH => seq![Part::Crescent, Part::Dot2],
            GallifreyanToken::D => seq![Part::Crescent, Part::Dot3],
            GallifreyanToken::G => seq![Part::Crescent, Part::Line1],
            GallifreyanToken::H => seq![Part::Crescent, Part::Line2],
            GallifreyanToken::F => seq![Part::Crescent, Part::Line3],
            GallifreyanToken::J => seq![Part::Full],
            GallifreyanToken::PH => seq![Part::Full, Part::Dot1],
            GallifreyanToken::K => seq![Part::Full, Part::Dot2],
            GallifreyanToken::L => seq![Part::Full, Part::Dot3],
            GallifreyanToken::C => seq![Part::Full, Part::Dot4],
            GallifreyanToken::N => seq![Part::Full, Part::Line1],
            GallifreyanToken::P => seq![Part::Full, Part::Line2],
            GallifreyanToken::M => seq![Part::Full, Part::Line3],
            GallifreyanToken::T => seq![Part::Quarter],
            GallifreyanToken::WH => seq![Part::Quarter, Part::Dot1],
            GallifreyanToken::SH => seq![Part::Quarter, Part::Dot2],
            GallifreyanToken::R => seq![Part::Quarter, Part::Dot3],
            GallifreyanToken::V => seq![Part::Quarter, Part::Line1],
            GallifreyanToken::W => seq![Part::Quarter, Part::Line2],
            GallifreyanToken::S => seq![Part::Quarter, Part::Line3],
            GallifreyanToken::TH => seq![Part::New],
            GallifreyanToken::GH => seq![Part::New, Part::Dot1],
            GallifreyanToken::Y => seq![Part::New, Part::Dot2],
            GallifreyanToken::Z => seq![Part::New, Part::Dot3],
            GallifreyanToken::Q => seq![Part::New, Part::Dot4],
            GallifreyanToken::QU => seq![Part::New, Part::Line1],
            GallifreyanToken::X => seq![Part::New, Part::Line2],
            GallifreyanToken::NG => seq![Part::New, Part::Line3],
        }
    }

    /// The base shape of this letter.
    pub open spec fn base_spec(self) -> Part {
        self.parts_spec()[0]
    }

    pub fn parts(&self) -> (r: Vec<Part>)
        ensures
            r@ == self.parts_spec(),
    {
        let r = match self {
            GallifreyanToken::A => vec![Part::Moon(Frac { num: 1, den: 2 })],
            GallifreyanToken::E => vec![Part::Core],
            GallifreyanToken::I => vec![Part::Core, Part::VowelLine1(Frac { num: 0, den: 1 })],
            GallifreyanToken::O => vec![Part::Moon(Frac { num: 0, den: 1 })],
            GallifreyanToken::U => vec![Part::Core, Part::VowelLine1(Frac { num: 1, den: 2 })],
            GallifreyanToken::B => vec![Part::Crescent],
            GallifreyanToken::CH => vec![Part::Crescent, Part::Dot2],
            GallifreyanToken::D => vec![Part::Crescent, Part::Dot3],
            GallifreyanToken::G => vec![Part::Crescent, Part::Line1],
            GallifreyanToken::H => vec![Part::Crescent, Part::Line2],
            GallifreyanToken::F => vec![Part::Crescent, Part::Line3],
            GallifreyanToken::J => vec![Part::Full],
            GallifreyanToken::PH => vec![Part::Full, Part::Dot1],
            GallifreyanToken::K => vec![Part::Full, Part::Dot2],
            GallifreyanToken::L => vec![Part::Full, Part::Dot3],
            GallifreyanToken::C => vec![Part::Full, Part::Dot4],
            GallifreyanToken::N => vec![Part::Full, Part::Line1],
            GallifreyanToken::P => vec![Part::Full, Part::Line2],
            GallifreyanToken::M => vec![Part::Full, Part::Line3],
            GallifreyanToken::T => vec![Part::Quarter],
            GallifreyanToken::WH => vec![Part::Quarter, Part::Dot1],
            GallifreyanToken::SH => vec![Part::Quarter, Part::Dot2],
            GallifreyanToken::R => vec![Part::Quarter, Part::Dot3],
            GallifreyanToken::V => vec![Part::Quarter, Part::Line1],
            GallifreyanToken::W => vec![Part::Quarter, Part::Line2],
            GallifreyanToken::S => vec![Part::Quarter, Part::Line3],
            GallifreyanToken::TH => vec![Part::New],
            GallifreyanToken::GH => vec![Part::New, Part::Dot1],
            GallifreyanToken::Y => vec![Part::New, Part::Dot2],
            GallifreyanToken::Z => vec![Part::New, Part::Dot3],
            GallifreyanToken::Q => vec![Part::New, Part::Dot4],
            GallifreyanToken::QU => vec![Part::New, Part::Line1],
            GallifreyanToken::X => vec![Part::New, Part::Line2],
            GallifreyanToken::NG => vec![Part::New, Part::Line3],
        };
        proof {
            assert(r@ =~= self.parts_spec());
        }
        r
    }

    /// Every token of the alphabet is a letter; the predicate exists so that
    /// a parsed token stream can be treated generically by the edge and
    /// notch bookkeeping.
    pub open spec fn is_letter_spec(self) -> bool {
        true
    }

    pub fn is_letter(&self) -> (r: bool)
        ensures
            r == self.is_letter_spec(),
    {
        true
    }

    /// Whether this letter is one of the five vowels.
    pub open spec fn is_vowel_spec(self) -> bool {
        match self {
            GallifreyanToken::A
            | GallifreyanToken::E
            | GallifreyanToken::I
            | GallifreyanToken::O
            | GallifreyanToken::U => true,
            _ => false,
        }
    }

    pub fn is_vowel(&self) -> (r: bool)
        ensures
            r == self.is_vowel_spec(),
    {
        matches!(
            self,
            GallifreyanToken::A
                | GallifreyanToken::E
                | GallifreyanToken::I
                | GallifreyanToken::O
                | GallifreyanToken::U
        )
    }


    /// A readable name for this letter.
    pub open spec fn name_spec(self) -> Seq<char> {
        match self {
            GallifreyanToken::A => "Gallifreyan A"@,
            GallifreyanToken::E => "Gallifreyan E"@,
            GallifreyanToken::I => "Gallifreyan I"@,
            GallifreyanToken::O => "Gallifreyan O"@,
            GallifreyanToken::U => "Gallifreyan U"@,
            GallifreyanToken::B => "Gallifreyan B"@,
            GallifreyanToken::CH => "Gallifreyan CH"@,
            GallifreyanToken::D => "Gallifreyan D"@,
            GallifreyanToken::G => "Gallifreyan G"@,
            GallifreyanToken::H => "Gallifreyan H"@,
            GallifreyanToken::F => "Gallifreyan F"@,
            GallifreyanToken::J => "Gallifreyan J"@,
            GallifreyanToken::PH => "Gallifreyan PH"@,
            GallifreyanToken::K => "Gallifreyan K"@,
            GallifreyanToken::L => "Gallifreyan L"@,
            GallifreyanToken::C => "Gallifreyan C"@,
            GallifreyanToken::N => "Gallifreyan N"@,
            GallifreyanToken::P => "Gallifreyan P"@,
            GallifreyanToken::M => "Gallifreyan M"@,
            GallifreyanToken::T => "Gallifreyan T"@,
            GallifreyanToken::WH => "Gallifreyan WH"@,
            GallifreyanToken::SH => "Gallifreyan SH"@,
            GallifreyanToken::R => "Gallifreyan R"@,
            GallifreyanToken::V => "Gallifreyan V"@,
            GallifreyanToken::W => "Gallifreyan W"@,
            GallifreyanToken::S => "Gallifreyan S"@,
            GallifreyanToken::TH => "Gallifreyan TH"@,
            GallifreyanToken::GH => "Gallifreyan GH"@,
            GallifreyanToken::Y => "Gallifreyan Y"@,
            GallifreyanToken::Z => "Gallifreyan Z"@,
            GallifreyanToken::Q => "Gallifreyan Q"@,
            GallifreyanToken::QU => "Gallifreyan QU"@,
            GallifreyanToken::X => "Gallifreyan X"@,
            GallifreyanToken::NG => "Gallifreyan NG"@,
        }
    }

    pub fn name(&self) -> (r: &'static str)
        ensures
            r@ == self.name_spec(),
    {
        match self {
            GallifreyanToken::A => "Gallifreyan A",
            GallifreyanToken::E => "Gallifreyan E",
            GallifreyanToken::I => "Gallifreyan I",
            GallifreyanToken::O => "Gallifreyan O",
            GallifreyanToken::U => "Gallifreyan U",
            GallifreyanToken::B => "Gallifreyan B",
            GallifreyanToken::CH => "Gallifreyan CH",
            GallifreyanToken::D => "Gallifreyan D",
            GallifreyanToken::G => "Gallifreyan G",
            GallifreyanToken::H => "Gallifreyan H",
            GallifreyanToken::F => "Gallifreyan F",
            GallifreyanToken::J => "Gallifreyan J",
            GallifreyanToken::PH => "Gallifreyan PH",
            GallifreyanToken::K => "Gallifreyan K",
            GallifreyanToken::L => "Gallifreyan L",
            GallifreyanToken::C => "Gallifreyan C",
            GallifreyanToken::N => "Gallifreyan N",
            GallifreyanToken::P => "Gallifreyan P",
            GallifreyanToken::M => "Gallifreyan M",
            GallifreyanToken::T => "Gallifreyan T",
            GallifreyanToken::WH => "Gallifreyan WH",
            GallifreyanToken::SH => "Gallifreyan SH",
            GallifreyanToken::R => "Gallifreyan R",
            GallifreyanToken::V => "Gallifreyan V",
            GallifreyanToken::W => "Gallifreyan W",
            GallifreyanToken::S => "Gallifreyan S",
            GallifreyanToken::TH => "Gallifreyan TH",
            GallifreyanToken::GH => "Gallifreyan GH",
            GallifreyanToken::Y => "Gallifreyan Y",
            GallifreyanToken::Z => "Gallifreyan Z",
            GallifreyanToken::Q => "Gallifreyan Q",
            GallifreyanToken::QU => "Gallifreyan QU",
            GallifreyanToken::X => "Gallifreyan X",
            GallifreyanToken::NG => "Gallifreyan NG",
        }
    }

    /// The canonical spelling of this letter, in uppercase.
    pub open spec fn spelling_spec(self) -> Seq<char> {
        match self {
            GallifreyanToken::A => seq!['A'],
            GallifreyanToken::E => seq!['E'],
            GallifreyanToken::I => seq!['I'],
            GallifreyanToken::O => seq!['O'],
            GallifreyanToken::U => seq!['U'],
            GallifreyanToken::B => seq!['B'],
            GallifreyanToken::CH => seq!['C', 'H'],
            GallifreyanToken::D => seq!['D'],
            GallifreyanToken::G => seq!['G'],
            GallifreyanToken::H => seq!['H'],
            GallifreyanToken::F => seq!['F'],
            GallifreyanToken::J => seq!['J'],
            GallifreyanToken::PH => seq!['P', 'H'],
            GallifreyanToken::K => seq!['K'],
            GallifreyanToken::L => seq!['L'],
            GallifreyanToken::C => seq!['C'],
            GallifreyanToken::N => seq!['N'],
            GallifreyanToken::P => seq!['P'],
            GallifreyanToken::M => seq!['M'],
            GallifreyanToken::T => seq!['T'],
            GallifreyanToken::WH => seq!['W', 'H'],
            GallifreyanToken::SH => seq!['S', 'H'],
            GallifreyanToken::R => seq!['R'],
            GallifreyanToken::V => seq!['V'],
            GallifreyanToken::W => seq!['W'],
            GallifreyanToken::S => seq!['S'],
            GallifreyanToken::TH => seq!['T', 'H'],
            GallifreyanToken::GH => seq!['G', 'H'],
            GallifreyanToken::Y => seq!['Y'],
            GallifreyanToken::Z => seq!['Z'],
            GallifreyanToken::Q => seq!['Q'],
            GallifreyanToken::QU => seq!['Q', 'U'],
            GallifreyanToken::X => seq!['X'],
            GallifreyanToken::NG => seq!['N', 'G'],
        }
    }

    pub fn spelling(&self) -> (r: Vec<char>)
        ensures
            r@ == self.spelling_spec(),
    {
        let r = match self {
            GallifreyanToken::A => vec!['A'],
            GallifreyanToken::E => vec!['E'],
            GallifreyanToken::I => vec!['I'],
            GallifreyanToken::O => vec!['O'],
            GallifreyanToken::U => vec!['U'],
            GallifreyanToken::B => vec!['B'],
            GallifreyanToken::CH => vec!['C', 'H'],
            GallifreyanToken::D => vec!['D'],
            GallifreyanToken::G => vec!['G'],
            GallifreyanToken::H => vec!['H'],
            GallifreyanToken::F => vec!['F'],
            GallifreyanToken::J => vec!['J'],
            GallifreyanToken::PH => vec!['P', 'H'],
            GallifreyanToken::K => vec!['K'],
            GallifreyanToken::L => vec!['L'],
            GallifreyanToken::C => vec!['C'],
            GallifreyanToken::N => vec!['N'],
            GallifreyanToken::P => vec!['P'],
            GallifreyanToken::M => vec!['M'],
            GallifreyanToken::T => vec!['T'],
            GallifreyanToken::WH => vec!['W', 'H'],
            GallifreyanToken::SH => vec!['S', 'H'],
            GallifreyanToken::R => vec!['R'],
            GallifreyanToken::V => vec!['V'],
            GallifreyanToken::W => vec!['W'],
            GallifreyanToken::S => vec!['S'],
            GallifreyanToken::TH => vec!['T', 'H'],
            GallifreyanToken::GH => vec!['G', 'H'],
            GallifreyanToken::Y => vec!['Y'],
            GallifreyanToken::Z => vec!['Z'],
            GallifreyanToken::Q => vec!['Q'],
            GallifreyanToken::QU => vec!['Q', 'U'],
            GallifreyanToken::X => vec!['X'],
            GallifreyanToken::NG => vec!['N', 'G'],
        };
        proof {
            assert(r@ =~= self.spelling_spec());
        }
        r
    }
}

/// The letter, if any, whose canonical spelling is the given (uppercase)
/// substring.
pub open spec fn token_of(s: Seq<char>) -> Option<GallifreyanToken> {
    if s.len() == 1 {
        if s[0] == 'A' {
            Some(GallifreyanToken::A)
        } else if s[0] == 'E' {
            Some(GallifreyanToken::E)
        } else if s[0] == 'I' {
            Some(GallifreyanToken::I)
        } else if s[0] == 'O' {
            Some(GallifreyanToken::O)
        } else if s[0] == 'U' {
            Some(GallifreyanToken::U)
        } else if s[0] == 'B' {
            Some(GallifreyanToken::B)
        } else if s[0] == 'D' {
            Some(GallifreyanToken::D)
        } else if s[0] == 'G' {
            Some(GallifreyanToken::G)
        } else if s[0] == 'H' {
            Some(GallifreyanToken::H)
        } else if s[0] == 'F' {
            Some(GallifreyanToken::F)
        } else if s[0] == 'J' {
            Some(GallifreyanToken::J)
        } else if s[0] == 'K' {
            Some(GallifreyanToken::K)
        } else if s[0] == 'L' {
            Some(GallifreyanToken::L)
        } else if s[0] == 'C' {
            Some(GallifreyanToken::C)
        } else if s[0] == 'N' {
            Some(GallifreyanToken::N)
        } else if s[0] == 'P' {
            Some(GallifreyanToken::P)
        } else if s[0] == 'M' {
            Some(GallifreyanToken::M)
        } else if s[0] == 'T' {
            Some(GallifreyanToken::T)
        } else if s[0] == 'R' {
            Some(GallifreyanToken::R)
        } else if s[0] == 'V' {
            Some(GallifreyanToken::V)
        } else if s[0] == 'W' {
            Some(GallifreyanToken::W)
        } else if s[0] == 'S' {
            Some(GallifreyanToken::S)
        } else if s[0] == 'Y' {
            Some(GallifreyanToken::Y)
        } else if s[0] == 'Z' {
            Some(GallifreyanToken::Z)
        } else if s[0] == 'Q' {
            Some(GallifreyanToken::Q)
        } else if s[0] == 'X' {
            Some(GallifreyanToken::X)
        } else {
            None
        }
    } else if s.len() == 2 {
        if s[0] == 'C' && s[1] == 'H' {
            Some(GallifreyanToken::CH)
        } else if s[0] == 'P' && s[1] == 'H' {
            Some(GallifreyanToken::PH)
        } else if s[0] == 'W' && s[1] == 'H' {
            Some(GallifreyanToken::WH)
        } else if s[0] == 'S' && s[1] == 'H' {
            Some(GallifreyanToken::SH)
        } else if s[0] == 'T' && s[1] == 'H' {
            Some(GallifreyanToken::TH)
        } else if s[0] == 'G' && s[1] == 'H' {
            Some(GallifreyanToken::GH)
        } else if s[0] == 'Q' && s[1] == 'U' {
            Some(GallifreyanToken::QU)
        } else if s[0] == 'N' && s[1] == 'G' {
            Some(GallifreyanToken::NG)
        } else {
            None
        }
    } else {
        None
    }
}

impl Part {

    /// A readable name for this part's kind, ignoring any carried angles.
    pub open spec fn name_spec(self) -> Seq<char> {
        match self {
            Part::Moon(_) => "Moon"@,
            Part::Core => "Core"@,
            Part::Crescent => "Crescent"@,
            Part::Full => "Full"@,
            Part::Quarter => "Quarter"@,
            Part::New => "New"@,
            Part::Dot1 => "Dot1"@,
            Part::Dot2 => "Dot2"@,
            Part::Dot3 => "Dot3"@,
            Part::Dot4 => "Dot4"@,
            Part::VowelLine1(_) => "VowelLine1"@,
            Part::Line1 => "Line1"@,
            Part::Line2 => "Line2"@,
            Part::Line3 => "Line3"@,
            Part::Notch => "Notch"@,
            Part::Edge(_, _) => "Edge"@,
        }
    }

    pub fn name(&self) -> (r: &'static str)
        ensures
            r@ == self.name_spec(),
    {
        match self {
            Part::Moon(_) => "Moon",
            Part::Core => "Core",
            Part::Crescent => "Crescent",
            Part::Full => "Full",
            Part::Quarter => "Quarter",
            Part::New => "New",
            Part::Dot1 => "Dot1",
            Part::Dot2 => "Dot2",
            Part::Dot3 => "Dot3",
            Part::Dot4 => "Dot4",
            Part::VowelLine1(_) => "VowelLine1",
            Part::Line1 => "Line1",
            Part::Line2 => "Line2",
            Part::Line3 => "Line3",
            Part::Notch => "Notch",
            Part::Edge(_, _) => "Edge",
        }
    }

    /// Whether this part is one of the base shapes, of which each letter has
    /// exactly one.
    pub open spec fn is_base_spec(self) -> bool {
        match self {
            Part::Crescent
            | Part::Full
            | Part::Core
            | Part::Quarter
            | Part::New
            | Part::Moon(_)
            | Part::Notch => true,
            _ => false,
        }
    }

    pub fn is_base(&self) -> (r: bool)
        ensures
            r == self.is_base_spec(),
    {
        matches!(
            self,
            Part::Crescent | Part::Full | Part::Core | Part::Quarter | Part::New | Part::Moon(_)
                | Part::Notch
        )
    }

    /// Whether this part is one of the modifier marks, of which each letter
    /// has at most one.
    pub open spec fn is_modifier_spec(self) -> bool {
        match self {
            Part::Dot1
            | Part::Dot2
            | Part::Dot3
            | Part::Dot4
            | Part::Line1
            | Part::Line2
            | Part::Line3
            | Part::VowelLine1(_) => true,
            _ => false,
        }
    }

    pub fn is_modifier(&self) -> (r: bool)
        ensures
            r == self.is_modifier_spec(),
    {
        matches!(
            self,
            Part::Dot1 | Part::Dot2 | Part::Dot3 | Part::Dot4 | Part::Line1 | Part::Line2
                | Part::Line3 | Part::VowelLine1(_)
        )
    }

    /// Whether this base shape meets the circle it sits on, and so subtends
    /// an angular span there that the connecting arcs must leave open.
    pub open spec fn has_edge_spec(self) -> bool {
        match self {
            Part::Crescent | Part::Quarter => true,
            _ => false,
        }
    }

    pub fn has_edge(&self) -> (r: bool)
        ensures
            r == self.has_edge_spec(),
    {
        matches!(self, Part::Crescent | Part::Quarter)
    }
}

/// Every letter decomposes into exactly one base shape followed by at most
/// one modifier mark.
pub proof fn lemma_parts_shape(t: GallifreyanToken)
    ensures
        1 <= t.parts_spec().len() <= 2,
        t.parts_spec()[0].is_base_spec(),
        t.parts_spec().len() == 2 ==> t.parts_spec()[1].is_modifier_spec(),
{
}

} // verus!
