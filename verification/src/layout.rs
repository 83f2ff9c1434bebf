use vstd::prelude::*;
use crate::letters::{GallifreyanToken, Part};
use crate::math::{AsinTerm, EdgeAngle, Frac, PolarTerm, Position, Shift};

verus! {

/// Upper bound on the number of tokens in one word and on the number of
/// words in one sentence, so that every angle numerator and denominator
/// stays within the range that `Frac::plus` accepts.
pub const MAX_ITEMS: usize = 500_000_000;

/// Radius of the sentence circle.
pub open spec fn sentence_radius() -> Frac {
    Frac { num: 10, den: 1 }
}

/// Radius of a word circle.
pub open spec fn word_radius() -> Frac {
    Frac { num: 5, den: 1 }
}

/// Radius of a letter glyph.
pub open spec fn letter_radius() -> Frac {
    Frac { num: 1, den: 1 }
}

/// How far (as a fraction of the letter radius) each base shape's center
/// sits from the point where the letter is placed on its word circle.
pub open spec fn own_base_ratio(p: Part) -> Frac {
    match p {
        Part::Crescent => Frac { num: 9, den: 10 },
        Part::Full => Frac { num: 6, den: 5 },
        Part::Moon(_) => Frac { num: 1, den: 1 },
        _ => Frac { num: 0, den: 1 },
    }
}

/// How far (as a fraction of the letter radius) anything that must align
/// with a given base shape — its own modifier mark, or an attached vowel —
/// is displaced toward it.
pub open spec fn attach_ratio(p: Part) -> Frac {
    match p {
        Part::Crescent => Frac { num: 9, den: 10 },
        Part::Full => Frac { num: 6, den: 5 },
        _ => Frac { num: 0, den: 1 },
    }
}

/// The angular offset (in turns) carried by a part, selecting which side of
/// the base the mark sits on; zero for parts that carry none.
pub open spec fn payload_offset(p: Part) -> Frac {
    match p {
        Part::Moon(o) => o,
        Part::VowelLine1(o) => o,
        _ => Frac { num: 0, den: 1 },
    }
}

/// The radius at which a part is drawn: the inner vowel parts render at one
/// third of the letter radius, everything else at the full letter radius.
pub open spec fn part_draw_radius(p: Part) -> Frac {
    match p {
        Part::Moon(_) => Frac { num: 1, den: 3 },
        Part::Core => Frac { num: 1, den: 3 },
        Part::VowelLine1(_) => Frac { num: 1, den: 3 },
        _ => Frac { num: 1, den: 1 },
    }
}

/// The angular half-width (in turns) at which an edge-bearing base shape
/// meets its own circle: a sixth of a half turn for the crescent, five
/// ninths of a half turn for the quarter.
pub open spec fn edge_shape_angle(p: Part) -> Frac {
    match p {
        Part::Crescent => Frac { num: 1, den: 12 },
        Part::Quarter => Frac { num: 5, den: 18 },
        _ => Frac { num: 0, den: 1 },
    }
}

pub fn own_base_ratio_exec(p: &Part) -> (r: Frac)
    ensures
        r == own_base_ratio(*p),
{
    match p {
        Part::Crescent => Frac { num: 9, den: 10 },
        Part::Full => Frac { num: 6, den: 5 },
        Part::Moon(_) => Frac { num: 1, den: 1 },
        _ => Frac { num: 0, den: 1 },
    }
}

pub fn attach_ratio_exec(p: &Part) -> (r: Frac)
    ensures
        r == attach_ratio(*p),
{
    match p {
        Part::Crescent => Frac { num: 9, den: 10 },
        Part::Full => Frac { num: 6, den: 5 },
        _ => Frac { num: 0, den: 1 },
    }
}

pub fn payload_offset_exec(p: &Part) -> (r: Frac)
    ensures
        r == payload_offset(*p),
{
    match p {
        Part::Moon(o) => *o,
        Part::VowelLine1(o) => *o,
        _ => Frac { num: 0, den: 1 },
    }
}

pub fn part_draw_radius_exec(p: &Part) -> (r: Frac)
    ensures
        r == part_draw_radius(*p),
{
    match p {
        Part::Moon(_) => Frac { num: 1, den: 3 },
        Part::Core => Frac { num: 1, den: 3 },
        Part::VowelLine1(_) => Frac { num: 1, den: 3 },
        _ => Frac { num: 1, den: 1 },
    }
}

pub fn edge_shape_angle_exec(p: &Part) -> (r: Frac)
    ensures
        r == edge_shape_angle(*p),
{
    match p {
        Part::Crescent => Frac { num: 1, den: 12 },
        Part::Quarter => Frac { num: 5, den: 18 },
        _ => Frac { num: 0, den: 1 },
    }
}

/// The angular offsets carried by letter parts are zero or half a turn.
pub proof fn lemma_payload_small(t: GallifreyanToken, k: int)
    requires
        0 <= k < t.parts_spec().len(),
    ensures
        payload_offset(t.parts_spec()[k]) == (Frac { num: 0, den: 1 }) || payload_offset(
            t.parts_spec()[k],
        ) == (Frac { num: 1, den: 2 }),
{
}

/// A token is attached when it is a vowel immediately following a consonant:
/// it then shares its predecessor's angular slot instead of opening one.
pub open spec fn attached_at(tokens: Seq<GallifreyanToken>, i: int) -> bool {
    &&& 0 < i < tokens.len()
    &&& tokens[i].is_vowel_spec()
    &&& !tokens[i - 1].is_vowel_spec()
}

/// A token opens a new angular slot unless it is attached.
pub open spec fn standalone_at(tokens: Seq<GallifreyanToken>, i: int) -> bool {
    !attached_at(tokens, i)
}

/// How many of the first `upto` tokens open a slot of their own.
pub open spec fn standalone_count(tokens: Seq<GallifreyanToken>, upto: int) -> int
    decreases upto,
{
    if upto <= 0 {
        0
    } else {
        standalone_count(tokens, upto - 1) + if standalone_at(tokens, upto - 1) {
            1int
        } else {
            0int
        }
    }
}

/// The number of angular slots of a word.
pub open spec fn slot_count_spec(tokens: Seq<GallifreyanToken>) -> int {
    standalone_count(tokens, tokens.len() as int)
}

/// The slot that token `i` occupies.
pub open spec fn slot_of(tokens: Seq<GallifreyanToken>, i: int) -> int {
    standalone_count(tokens, i + 1) - 1
}

pub proof fn lemma_standalone_count_monotone(tokens: Seq<GallifreyanToken>, k1: int, k2: int)
    requires
        k1 <= k2,
    ensures
        standalone_count(tokens, k1) <= standalone_count(tokens, k2) <= standalone_count(
            tokens,
            k1,
        ) + (k2 - k1),
    decreases k2 - k1,
{
    if k1 < k2 {
        lemma_standalone_count_monotone(tokens, k1, k2 - 1);
    }
}

/// Every token's slot lies between zero and the word's slot count.
pub proof fn lemma_slot_of_bounds(tokens: Seq<GallifreyanToken>, i: int)
    requires
        0 <= i < tokens.len(),
    ensures
        0 <= slot_of(tokens, i) < slot_count_spec(tokens),
        1 <= slot_count_spec(tokens) <= tokens.len(),
{
    reveal_with_fuel(standalone_count, 2);
    assert(standalone_at(tokens, 0));
    assert(standalone_count(tokens, 1) == 1);
    lemma_standalone_count_monotone(tokens, 1, i + 1);
    lemma_standalone_count_monotone(tokens, i + 1, tokens.len() as int);
    lemma_standalone_count_monotone(tokens, 1, tokens.len() as int);
    lemma_standalone_count_monotone(tokens, 0, tokens.len() as int);
}

/// The angle (in turns) of slot `s` out of `n`: slots begin at twelve
/// o'clock, a quarter turn before zero, and advance by one `n`-th of a turn.
pub open spec fn slot_angle(s: int, n: int) -> Frac {
    Frac { num: (4 * s - n) as i64, den: (4 * n) as i64 }
}

pub fn slot_angle_exec(s: usize, n: usize) -> (r: Frac)
    requires
        0 < n <= MAX_ITEMS as int,
        s < n,
    ensures
        r == slot_angle(s as int, n as int),
        r.wf(),
        r.bounded(),
{
    Frac { num: 4 * (s as i64) - (n as i64), den: 4 * (n as i64) }
}

/// Count the angular slots of a word: one for each token except the vowels
/// that attach to a preceding consonant.
pub fn slot_count(tokens: &[GallifreyanToken]) -> (n: usize)
    ensures
        n == slot_count_spec(tokens@),
{
    let mut count: usize = 0;
    let mut prev_consonant: bool = false;
    let mut i: usize = 0;
    while i < tokens.len()
        invariant
            i <= tokens.len(),
            count == standalone_count(tokens@, i as int),
            prev_consonant == (i > 0 && !tokens@[i - 1].is_vowel_spec()),
        decreases tokens.len() - i,
    {
        let vowel = tokens[i].is_vowel();
        if !(prev_consonant && vowel) {
            proof {
                lemma_standalone_count_monotone(tokens@, 0, i as int);
            }
            count = count + 1;
        }
        prev_consonant = !vowel;
        i = i + 1;
    }
    count
}

/// The number of slots equals the number of tokens minus the number of
/// attached vowels.
pub open spec fn attached_count(tokens: Seq<GallifreyanToken>, upto: int) -> int
    decreases upto,
{
    if upto <= 0 {
        0
    } else {
        attached_count(tokens, upto - 1) + if attached_at(tokens, upto - 1) {
            1int
        } else {
            0int
        }
    }
}

pub proof fn lemma_slot_count_attached(tokens: Seq<GallifreyanToken>, upto: int)
    requires
        0 <= upto <= tokens.len(),
    ensures
        standalone_count(tokens, upto) == upto - attached_count(tokens, upto),
    decreases upto,
{
    if upto > 0 {
        lemma_slot_count_attached(tokens, upto - 1);
    }
}

/// The number of angular slots equals the number of tokens minus the number
/// of vowels that attach to a preceding consonant.
pub proof fn lemma_slot_count_invariant(tokens: Seq<GallifreyanToken>)
    ensures
        slot_count_spec(tokens) == tokens.len() - attached_count(tokens, tokens.len() as int),
{
    lemma_slot_count_attached(tokens, tokens.len() as int);
}

/// The angle of slot `s` out of `n` when the first slot sits at `start`
/// rather than at twelve o'clock: `start` plus `s` `n`-ths of a turn, on the
/// common denominator.
pub open spec fn slot_angle_from(start: Frac, s: int, n: int) -> Frac {
    Frac { num: (start.num * n + s * start.den) as i64, den: (start.den * n) as i64 }
}

/// The slot angles are the general scheme started a quarter turn before
/// zero.
pub proof fn lemma_slot_angle_start(s: int, n: int)
    requires
        0 < n <= MAX_ITEMS as int,
        0 <= s <= n,
    ensures
        slot_angle(s, n) == slot_angle_from(Frac { num: -1i64, den: 4 }, s, n),
{
}

/// The components of a general slot angle, free of truncation.
proof fn lemma_slot_angle_from_fields(start: Frac, s: int, n: int)
    requires
        start.wf(),
        start.bounded(),
        0 < n <= MAX_ITEMS as int,
        0 <= s <= n,
    ensures
        slot_angle_from(start, s, n).num == start.num * n + s * start.den,
        slot_angle_from(start, s, n).den == start.den * n,
{
    assert(-4_000_000_000_000_000_000 <= start.num * n <= 4_000_000_000_000_000_000 && 0 <= s
        * start.den <= 4_000_000_000_000_000_000 && 1 <= start.den * n
        <= 4_000_000_000_000_000_000) by (nonlinear_arith)
        requires
            -2_000_000_000 <= start.num <= 2_000_000_000,
            1 <= start.den <= 2_000_000_000,
            0 < n <= 500_000_000,
            0 <= s <= n,
    ;
}

/// Consecutive slot angles are evenly spaced, exactly one `n`-th of a turn
/// apart, whatever the starting angle.
pub proof fn lemma_slot_angles_evenly_spaced(start: Frac, s: int, n: int)
    requires
        start.wf(),
        start.bounded(),
        0 < n <= MAX_ITEMS as int,
        0 <= s < n,
    ensures
        slot_angle_from(start, s + 1, n).diff_eqv(
            slot_angle_from(start, s, n),
            Frac { num: 1, den: n as i64 },
        ),
{
    let hi = slot_angle_from(start, s + 1, n);
    let lo = slot_angle_from(start, s, n);
    lemma_slot_angle_from_fields(start, s + 1, n);
    lemma_slot_angle_from_fields(start, s, n);
    assert((hi.num * lo.den - lo.num * hi.den) * (n as i64) == 1 * (hi.den * lo.den))
        by (nonlinear_arith)
        requires
            hi.num == start.num * n + (s + 1) * start.den,
            hi.den == start.den * n,
            lo.num == start.num * n + s * start.den,
            lo.den == start.den * n,
            1 <= start.den,
            0 < n,
    ;
}

/// Within one word the slot angles share a denominator and their numerators
/// grow with the slot, so sorting them is sorting the slots.
pub proof fn lemma_slot_angles_sorted(s1: int, s2: int, n: int)
    requires
        0 < n <= MAX_ITEMS as int,
        0 <= s1 < s2 <= n,
    ensures
        slot_angle(s1, n).den == slot_angle(s2, n).den,
        slot_angle(s1, n).num < slot_angle(s2, n).num,
{
}

/// Choosing a different starting angle only rotates the whole layout
/// rigidly: the difference between the angles that two starts give to the
/// same slot is the difference of the starts, whatever the slot.
pub proof fn lemma_slot_angles_rotation(a: Frac, b: Frac, s: int, n: int)
    requires
        a.wf(),
        a.bounded(),
        b.wf(),
        b.bounded(),
        0 < n <= MAX_ITEMS as int,
        0 <= s < n,
    ensures
        (slot_angle_from(a, s, n).num * slot_angle_from(b, s, n).den - slot_angle_from(
            b,
            s,
            n,
        ).num * slot_angle_from(a, s, n).den) * (a.den * b.den) == (a.num * b.den - b.num * a.den)
            * (slot_angle_from(a, s, n).den * slot_angle_from(b, s, n).den),
{
    let va = slot_angle_from(a, s, n);
    let vb = slot_angle_from(b, s, n);
    lemma_slot_angle_from_fields(a, s, n);
    lemma_slot_angle_from_fields(b, s, n);
    assert(va.num * vb.den == a.num * b.den * n * n + s * a.den * b.den * n) by (nonlinear_arith)
        requires
            va.num == a.num * n + s * a.den,
            vb.den == b.den * n,
    ;
    assert(vb.num * va.den == b.num * a.den * n * n + s * b.den * a.den * n) by (nonlinear_arith)
        requires
            vb.num == b.num * n + s * b.den,
            va.den == a.den * n,
    ;
    assert(va.num * vb.den - vb.num * va.den == n * n * (a.num * b.den - b.num * a.den))
        by (nonlinear_arith)
        requires
            va.num * vb.den == a.num * b.den * n * n + s * a.den * b.den * n,
            vb.num * va.den == b.num * a.den * n * n + s * b.den * a.den * n,
    ;
    assert((n * n * (a.num * b.den - b.num * a.den)) * (a.den * b.den) == (a.num * b.den - b.num
        * a.den) * ((a.den * n) * (b.den * n))) by (nonlinear_arith);
}

/// One drawable record of the layout: a part, the absolute position of its
/// center, the radius it is drawn at, and the angular offset it is rotated
/// by.
#[derive(Clone, Copy, Debug, PartialEq, Eq, Structural)]
pub struct Plot {
    pub part: Part,
    pub vector: Position,
    pub radius: Frac,
    pub offset: Frac,
}

/// How far from its slot point a part's center sits: a base is displaced by
/// its own ratio, a modifier by the ratio of the base it accompanies.
pub open spec fn local_radius(tokens: Seq<GallifreyanToken>, i: int, p: Part) -> Frac {
    if p.is_modifier_spec() {
        attach_ratio(tokens[i].base_spec())
    } else {
        own_base_ratio(p)
    }
}

/// The plot of part `p` of token `i` of a word whose center sits at
/// `word_angle` on the sentence circle and that has `n` slots. The position
/// composes three levels — sentence-circle placement of the word,
/// word-circle placement of the slot, and the part's local offset — and,
/// for every part of an attached vowel, additionally backs the part off by
/// the preceding consonant's base offset so that the vowel sits on that
/// consonant's rim.
pub open spec fn plot_for(
    tokens: Seq<GallifreyanToken>,
    word_angle: Frac,
    n: int,
    i: int,
    p: Part,
) -> Plot {
    let sa = slot_angle(slot_of(tokens, i), n);
    let local = PolarTerm {
        positive: false,
        radius: local_radius(tokens, i, p),
        angle: sa.plus_spec(payload_offset(p)),
    };
    let correction = if attached_at(tokens, i) {
        PolarTerm {
            positive: false,
            radius: attach_ratio(tokens[i - 1].base_spec()),
            angle: sa,
        }
    } else {
        PolarTerm::zero_spec()
    };
    Plot {
        part: p,
        vector: Position {
            t1: PolarTerm { positive: true, radius: sentence_radius(), angle: word_angle },
            t2: PolarTerm { positive: true, radius: word_radius(), angle: sa },
            t3: local,
            t4: correction,
        },
        radius: part_draw_radius(p),
        offset: sa,
    }
}

/// The plots of all parts of token `i`.
pub open spec fn token_plots(
    tokens: Seq<GallifreyanToken>,
    word_angle: Frac,
    n: int,
    i: int,
) -> Seq<Plot> {
    tokens[i].parts_spec().map_values(|p: Part| plot_for(tokens, word_angle, n, i, p))
}

/// The plots of all parts of the first `i` tokens, in token order.
pub open spec fn word_plots_upto(
    tokens: Seq<GallifreyanToken>,
    word_angle: Frac,
    n: int,
    i: int,
) -> Seq<Plot>
    decreases i,
{
    if i <= 0 {
        Seq::empty()
    } else {
        word_plots_upto(tokens, word_angle, n, i - 1) + token_plots(tokens, word_angle, n, i - 1)
    }
}

/// The letter plots of a whole word.
pub open spec fn word_letter_plots(tokens: Seq<GallifreyanToken>, word_angle: Frac) -> Seq<Plot> {
    word_plots_upto(tokens, word_angle, slot_count_spec(tokens), tokens.len() as int)
}

/// Lay out the letters of one word: every part of every token, placed around
/// the word circle.
fn letter_plots(tokens: &[GallifreyanToken], word_angle: Frac) -> (r: Vec<Plot>)
    requires
        0 < tokens@.len() <= MAX_ITEMS as int,
    ensures
        r@ == word_letter_plots(tokens@, word_angle),
{
    let n = slot_count(tokens);
    proof {
        lemma_slot_of_bounds(tokens@, 0);
    }
    let mut plots: Vec<Plot> = Vec::new();
    let mut i: usize = 0;
    let mut slot: usize = 0;
    let mut prev_consonant: bool = false;
    while i < tokens.len()
        invariant
            0 < tokens@.len() <= MAX_ITEMS as int,
            i <= tokens.len(),
            n == slot_count_spec(tokens@),
            1 <= n <= tokens@.len(),
            plots@ == word_plots_upto(tokens@, word_angle, n as int, i as int),
            i > 0 ==> slot == slot_of(tokens@, i - 1),
            i == 0 ==> slot == 0,
            prev_consonant == (i > 0 && !tokens@[i - 1].is_vowel_spec()),
        decreases tokens.len() - i,
    {
        let t = tokens[i];
        let vowel = t.is_vowel();
        let standalone = !(prev_consonant && vowel);
        proof {
            assert(standalone == standalone_at(tokens@, i as int));
            lemma_slot_of_bounds(tokens@, i as int);
            if i > 0 {
                assert(standalone_count(tokens@, i + 1) == standalone_count(tokens@, i as int)
                    + if standalone_at(tokens@, i as int) {
                    1int
                } else {
                    0int
                });
            } else {
                reveal_with_fuel(standalone_count, 2);
            }
        }
        if standalone && i != 0 {
            slot = slot + 1;
        }
        proof {
            assert(slot == slot_of(tokens@, i as int));
        }
        let sa = slot_angle_exec(slot, n);
        let parts = t.parts();
        let base = parts[0];
        let prev_ratio: Frac = if standalone {
            Frac { num: 0, den: 1 }
        } else {
            let prev_parts = tokens[i - 1].parts();
            proof {
                crate::letters::lemma_parts_shape(tokens@[i - 1]);
            }
            attach_ratio_exec(&prev_parts[0])
        };
        let ghost tp = token_plots(tokens@, word_angle, n as int, i as int);
        let mut k: usize = 0;
        proof {
            assert(plots@ + tp.take(0) =~= plots@);
        }
        let ghost plots0 = plots@;
        while k < parts.len()
            invariant
                0 < tokens@.len() <= MAX_ITEMS as int,
                i < tokens.len(),
                n == slot_count_spec(tokens@),
                1 <= n <= tokens@.len(),
                k <= parts.len(),
                parts@ == tokens@[i as int].parts_spec(),
                base == tokens@[i as int].base_spec(),
                tp == token_plots(tokens@, word_angle, n as int, i as int),
                plots@ == plots0 + tp.take(k as int),
                slot == slot_of(tokens@, i as int),
                sa == slot_angle(slot_of(tokens@, i as int), n as int),
                sa.bounded(),
                standalone == standalone_at(tokens@, i as int),
                standalone ==> prev_ratio == (Frac { num: 0, den: 1 }),
                !standalone ==> prev_ratio == attach_ratio(tokens@[i - 1].base_spec()),
            decreases parts.len() - k,
        {
            let p = parts[k];
            let local_r = if p.is_modifier() {
                attach_ratio_exec(&base)
            } else {
                own_base_ratio_exec(&p)
            };
            proof {
                lemma_payload_small(tokens@[i as int], k as int);
            }
            let local_angle = sa.plus(payload_offset_exec(&p));
            let t4 = if standalone {
                PolarTerm::zero()
            } else {
                PolarTerm::minus(prev_ratio, sa)
            };
            let plot = Plot {
                part: p,
                vector: Position {
                    t1: PolarTerm::plus(Frac { num: 10, den: 1 }, word_angle),
                    t2: PolarTerm::plus(Frac { num: 5, den: 1 }, sa),
                    t3: PolarTerm::minus(local_r, local_angle),
                    t4,
                },
                radius: part_draw_radius_exec(&p),
                offset: sa,
            };
            proof {
                assert(plot == plot_for(tokens@, word_angle, n as int, i as int, p));
                assert(tp.take(k + 1) =~= tp.take(k as int).push(tp[k as int]));
            }
            plots.push(plot);
            k = k + 1;
        }
        proof {
            assert(tp.take(parts@.len() as int) =~= tp);
            assert(plots@ == word_plots_upto(tokens@, word_angle, n as int, i + 1));
        }
        prev_consonant = !vowel;
        i = i + 1;
    }
    plots
}

/// Failure of the layout operation as a whole.
#[derive(Debug, PartialEq, Eq)]
pub enum LayoutError {
    /// The sentence has no words, or a word has no letters, so there is no
    /// angular step to divide the circle by.
    EmptyInput,
    /// A letter grouping was not recognised.
    Tokenization(crate::letters::ParseGallifreyanTokenError),
}

/// The pair of boundary angles that one edge-bearing plot occupies on the
/// circle it sits on, found by the law-of-sines correction against the word
/// radius.
pub open spec fn bounds_of_plot(p: Plot) -> Seq<EdgeAngle> {
    let term = AsinTerm {
        shape_radius: letter_radius(),
        shape_angle: edge_shape_angle(p.part),
        circle_radius: word_radius(),
    };
    seq![
        EdgeAngle { base: p.offset, shift: Shift::Minus(term) },
        EdgeAngle { base: p.offset, shift: Shift::Plus(term) },
    ]
}

/// All boundary angles of the edge-bearing plots, in plot order: for each
/// such plot its start (before the slot) then its end (after the slot).
pub open spec fn edge_bounds(plots: Seq<Plot>) -> Seq<EdgeAngle>
    decreases plots.len(),
{
    if plots.len() == 0 {
        Seq::empty()
    } else {
        edge_bounds(plots.drop_last()) + (if plots.last().part.has_edge_spec() {
            bounds_of_plot(plots.last())
        } else {
            Seq::empty()
        })
    }
}

/// Rotating the boundary list left by one re-pairs each shape's end with the
/// next shape's start, so that consecutive pairs describe the gaps between
/// letters, the last gap wrapping around to the first letter.
pub open spec fn rotate1(s: Seq<EdgeAngle>) -> Seq<EdgeAngle> {
    if s.len() <= 1 {
        s
    } else {
        s.skip(1) + s.take(1)
    }
}

/// Consecutive pairs of boundary angles, each becoming one connecting arc.
pub open spec fn pair_edges(
    s: Seq<EdgeAngle>,
    vector: Position,
    radius: Frac,
    offset: Frac,
) -> Seq<Plot> {
    Seq::new(
        (s.len() / 2) as nat,
        |k: int| Plot { part: Part::Edge(s[2 * k], s[2 * k + 1]), vector, radius, offset },
    )
}

/// The connecting arcs of one word: one arc per gap between edge-bearing
/// letters, or a single full circle when the word has no edge-bearing
/// letter at all.
pub open spec fn word_edge_plots(tokens: Seq<GallifreyanToken>, word_angle: Frac) -> Seq<Plot> {
    let bounds = edge_bounds(word_letter_plots(tokens, word_angle));
    let vector = Position::single_spec(
        PolarTerm { positive: true, radius: sentence_radius(), angle: word_angle },
    );
    if bounds.len() == 0 {
        seq![
            Plot {
                part: Part::Edge(
                    EdgeAngle::exact_spec(Frac { num: 0, den: 1 }),
                    EdgeAngle::exact_spec(Frac { num: 1, den: 1 }),
                ),
                vector,
                radius: word_radius(),
                offset: Frac { num: 0, den: 1 },
            },
        ]
    } else {
        pair_edges(rotate1(bounds), vector, word_radius(), Frac { num: 0, den: 1 })
    }
}

/// Everything drawn for one word: its letter plots followed by its
/// connecting arcs.
pub open spec fn word_plots_spec(tokens: Seq<GallifreyanToken>, word_angle: Frac) -> Seq<Plot> {
    word_letter_plots(tokens, word_angle) + word_edge_plots(tokens, word_angle)
}

/// Boundary angles accumulate independently over a concatenation of plots.
pub proof fn lemma_edge_bounds_concat(a: Seq<Plot>, b: Seq<Plot>)
    ensures
        edge_bounds(a + b) == edge_bounds(a) + edge_bounds(b),
    decreases b.len(),
{
    if b.len() == 0 {
        assert(a + b =~= a);
        assert(edge_bounds(a) + edge_bounds(b) =~= edge_bounds(a));
    } else {
        let bit: Seq<EdgeAngle> = if b.last().part.has_edge_spec() {
            bounds_of_plot(b.last())
        } else {
            Seq::empty()
        };
        assert((a + b).drop_last() =~= a + b.drop_last());
        assert((a + b).last() == b.last());
        lemma_edge_bounds_concat(a, b.drop_last());
        assert((edge_bounds(a) + edge_bounds(b.drop_last())) + bit =~= edge_bounds(a) + (
        edge_bounds(b.drop_last()) + bit));
    }
}

/// The boundary angles of one token's plots: its base contributes its pair
/// when it bears an edge; a modifier never does.
pub proof fn lemma_token_edge_bounds(
    tokens: Seq<GallifreyanToken>,
    word_angle: Frac,
    n: int,
    i: int,
)
    requires
        0 <= i < tokens.len(),
    ensures
        edge_bounds(token_plots(tokens, word_angle, n, i)) == (
        if tokens[i].base_spec().has_edge_spec() {
            bounds_of_plot(plot_for(tokens, word_angle, n, i, tokens[i].base_spec()))
        } else {
            Seq::<EdgeAngle>::empty()
        }),
{
    let t = tokens[i];
    crate::letters::lemma_parts_shape(t);
    let tp = token_plots(tokens, word_angle, n, i);
    reveal_with_fuel(edge_bounds, 3);
    if t.parts_spec().len() == 1 {
        assert(tp.len() == 1);
        assert(tp.drop_last() =~= Seq::<Plot>::empty());
        assert(tp.last() == plot_for(tokens, word_angle, n, i, t.parts_spec()[0]));
        assert(tp.last().part == t.base_spec());
        if t.base_spec().has_edge_spec() {
            assert(edge_bounds(tp) =~= bounds_of_plot(tp.last()));
        } else {
            assert(edge_bounds(tp) =~= Seq::<EdgeAngle>::empty());
        }
    } else {
        assert(tp.len() == 2);
        assert(tp.last() == plot_for(tokens, word_angle, n, i, t.parts_spec()[1]));
        assert(tp.last().part == t.parts_spec()[1]);
        assert(!tp.last().part.has_edge_spec());
        assert(tp.drop_last().drop_last() =~= Seq::<Plot>::empty());
        assert(tp.drop_last().last() == plot_for(tokens, word_angle, n, i, t.parts_spec()[0]));
        assert(tp.drop_last().last().part == t.base_spec());
        if t.base_spec().has_edge_spec() {
            assert(edge_bounds(tp) =~= bounds_of_plot(tp.drop_last().last()));
        } else {
            assert(edge_bounds(tp) =~= Seq::<EdgeAngle>::empty());
        }
    }
}

/// The boundary list of the letter plots of a word with exactly one
/// edge-bearing letter, at token `m`: that letter's pair alone, once the
/// walk has passed it.
proof fn lemma_single_edge_bounds_upto(
    tokens: Seq<GallifreyanToken>,
    word_angle: Frac,
    n: int,
    m: int,
    i: int,
)
    requires
        0 <= m < tokens.len(),
        tokens[m].base_spec().has_edge_spec(),
        forall|q: int|
            0 <= q < tokens.len() && q != m ==> !(#[trigger] tokens[q].base_spec()).has_edge_spec(),
        0 <= i <= tokens.len(),
    ensures
        edge_bounds(word_plots_upto(tokens, word_angle, n, i)) == (if i > m {
            bounds_of_plot(plot_for(tokens, word_angle, n, m, tokens[m].base_spec()))
        } else {
            Seq::<EdgeAngle>::empty()
        }),
    decreases i,
{
    let goal = bounds_of_plot(plot_for(tokens, word_angle, n, m, tokens[m].base_spec()));
    if i > 0 {
        lemma_single_edge_bounds_upto(tokens, word_angle, n, m, i - 1);
        lemma_edge_bounds_concat(
            word_plots_upto(tokens, word_angle, n, i - 1),
            token_plots(tokens, word_angle, n, i - 1),
        );
        lemma_token_edge_bounds(tokens, word_angle, n, i - 1);
        if i - 1 == m {
            assert(Seq::<EdgeAngle>::empty() + goal =~= goal);
        } else if i - 1 > m {
            assert(goal + Seq::<EdgeAngle>::empty() =~= goal);
        } else {
            assert(Seq::<EdgeAngle>::empty() + Seq::<EdgeAngle>::empty() =~= Seq::<
                EdgeAngle,
            >::empty());
        }
    }
}

/// A word with exactly one edge-bearing letter gets exactly one connecting
/// arc, and its boundary pair is that letter's ending angle followed by its
/// starting angle: the letter's own gap wraps all the way around the word
/// circle.
pub proof fn lemma_edge_wraparound(tokens: Seq<GallifreyanToken>, word_angle: Frac, m: int)
    requires
        0 <= m < tokens.len(),
        tokens[m].base_spec().has_edge_spec(),
        forall|q: int|
            0 <= q < tokens.len() && q != m ==> !(#[trigger] tokens[q].base_spec()).has_edge_spec(),
    ensures
        ({
            let n = slot_count_spec(tokens);
            let sa = slot_angle(slot_of(tokens, m), n);
            let term = AsinTerm {
                shape_radius: letter_radius(),
                shape_angle: edge_shape_angle(tokens[m].base_spec()),
                circle_radius: word_radius(),
            };
            word_edge_plots(tokens, word_angle) == seq![
                Plot {
                    part: Part::Edge(
                        EdgeAngle { base: sa, shift: Shift::Plus(term) },
                        EdgeAngle { base: sa, shift: Shift::Minus(term) },
                    ),
                    vector: Position::single_spec(
                        PolarTerm {
                            positive: true,
                            radius: sentence_radius(),
                            angle: word_angle,
                        },
                    ),
                    radius: word_radius(),
                    offset: Frac { num: 0, den: 1 },
                },
            ]
        }),
{
    let n = slot_count_spec(tokens);
    lemma_single_edge_bounds_upto(tokens, word_angle, n, m, tokens.len() as int);
    let b = edge_bounds(word_letter_plots(tokens, word_angle));
    let vector = Position::single_spec(
        PolarTerm { positive: true, radius: sentence_radius(), angle: word_angle },
    );
    assert(b.len() == 2);
    assert(rotate1(b) =~= seq![b[1], b[0]]);
    assert(word_edge_plots(tokens, word_angle) =~= seq![
        Plot {
            part: Part::Edge(b[1], b[0]),
            vector,
            radius: word_radius(),
            offset: Frac { num: 0, den: 1 },
        },
    ]);
}

/// A word with no edge-bearing letter at all gets exactly one connecting
/// arc, spanning the full circle.
pub proof fn lemma_full_circle(tokens: Seq<GallifreyanToken>, word_angle: Frac)
    requires
        forall|q: int| 0 <= q < tokens.len() ==> !(#[trigger] tokens[q].base_spec()).has_edge_spec(),
    ensures
        word_edge_plots(tokens, word_angle) == seq![
            Plot {
                part: Part::Edge(
                    EdgeAngle::exact_spec(Frac { num: 0, den: 1 }),
                    EdgeAngle::exact_spec(Frac { num: 1, den: 1 }),
                ),
                vector: Position::single_spec(
                    PolarTerm { positive: true, radius: sentence_radius(), angle: word_angle },
                ),
                radius: word_radius(),
                offset: Frac { num: 0, den: 1 },
            },
        ],
{
    let n = slot_count_spec(tokens);
    lemma_no_edge_bounds_upto(tokens, word_angle, n, tokens.len() as int);
}

/// The boundary list of a word with no edge-bearing letter is empty however
/// far the walk has come.
proof fn lemma_no_edge_bounds_upto(tokens: Seq<GallifreyanToken>, word_angle: Frac, n: int, i: int)
    requires
        forall|q: int| 0 <= q < tokens.len() ==> !(#[trigger] tokens[q].base_spec()).has_edge_spec(),
        0 <= i <= tokens.len(),
    ensures
        edge_bounds(word_plots_upto(tokens, word_angle, n, i)) == Seq::<EdgeAngle>::empty(),
    decreases i,
{
    if i > 0 {
        lemma_no_edge_bounds_upto(tokens, word_angle, n, i - 1);
        lemma_edge_bounds_concat(
            word_plots_upto(tokens, word_angle, n, i - 1),
            token_plots(tokens, word_angle, n, i - 1),
        );
        lemma_token_edge_bounds(tokens, word_angle, n, i - 1);
        assert(Seq::<EdgeAngle>::empty() + Seq::<EdgeAngle>::empty() =~= Seq::<
            EdgeAngle,
        >::empty());
    }
}

/// Lay out one word on the sentence circle: the plots of every part of every
/// token, followed by the connecting arcs between the letters. A word with
/// no letters has no angular step and is rejected.
pub fn get_word_circle_plots(tokens: &[GallifreyanToken], word_angle: Frac) -> (r: Result<
    Vec<Plot>,
    LayoutError,
>)
    requires
        tokens@.len() <= MAX_ITEMS as int,
    ensures
        match r {
            Ok(plots) => tokens@.len() > 0 && plots@ == word_plots_spec(tokens@, word_angle),
            Err(e) => tokens@.len() == 0 && e is EmptyInput,
        },
{
    if tokens.len() == 0 {
        return Err(LayoutError::EmptyInput);
    }
    let mut plots = letter_plots(tokens, word_angle);
    let ghost lp = word_letter_plots(tokens@, word_angle);
    let mut bounds: Vec<EdgeAngle> = Vec::new();
    let mut m: usize = 0;
    proof {
        assert(lp.take(0) =~= Seq::<Plot>::empty());
    }
    while m < plots.len()
        invariant
            m <= plots.len(),
            plots@ == lp,
            bounds@ == edge_bounds(lp.take(m as int)),
        decreases plots.len() - m,
    {
        let p = &plots[m];
        proof {
            assert(lp.take(m + 1).drop_last() =~= lp.take(m as int));
            assert(lp.take(m + 1).last() == lp[m as int]);
        }
        if p.part.has_edge() {
            let term = AsinTerm {
                shape_radius: Frac { num: 1, den: 1 },
                shape_angle: edge_shape_angle_exec(&p.part),
                circle_radius: Frac { num: 5, den: 1 },
            };
            let lo = EdgeAngle { base: p.offset, shift: Shift::Minus(term) };
            let hi = EdgeAngle { base: p.offset, shift: Shift::Plus(term) };
            bounds.push(lo);
            bounds.push(hi);
            proof {
                assert(bounds@ =~= edge_bounds(lp.take(m + 1)));
            }
        } else {
            proof {
                assert(bounds@ =~= edge_bounds(lp.take(m + 1)));
            }
        }
        m = m + 1;
    }
    proof {
        assert(lp.take(lp.len() as int) =~= lp);
    }
    let vector = Position::single(PolarTerm::plus(Frac { num: 10, den: 1 }, word_angle));
    let mut edge_plots: Vec<Plot> = Vec::new();
    if bounds.len() == 0 {
        edge_plots.push(
            Plot {
                part: Part::Edge(
                    EdgeAngle::exact(Frac { num: 0, den: 1 }),
                    EdgeAngle::exact(Frac { num: 1, den: 1 }),
                ),
                vector,
                radius: Frac { num: 5, den: 1 },
                offset: Frac { num: 0, den: 1 },
            },
        );
        proof {
            assert(edge_plots@ =~= word_edge_plots(tokens@, word_angle));
        }
    } else {
        let ghost unrotated = bounds@;
        let first = bounds.remove(0);
        bounds.push(first);
        proof {
            assert(bounds@ =~= rotate1(unrotated));
        }
        let ghost rotated = bounds@;
        let ghost target = pair_edges(
            rotated,
            vector,
            Frac { num: 5, den: 1 },
            Frac { num: 0, den: 1 },
        );
        let mut j: usize = 0;
        while j + 1 < bounds.len()
            invariant
                bounds@ == rotated,
                j % 2 == 0,
                j <= bounds@.len(),
                target == pair_edges(
                    rotated,
                    vector,
                    Frac { num: 5, den: 1 },
                    Frac { num: 0, den: 1 },
                ),
                edge_plots@ == target.take(j as int / 2),
            decreases bounds.len() - j,
        {
            let plot = Plot {
                part: Part::Edge(bounds[j], bounds[j + 1]),
                vector,
                radius: Frac { num: 5, den: 1 },
                offset: Frac { num: 0, den: 1 },
            };
            proof {
                let k = j as int / 2;
                assert(2 * k == j as int);
                assert(target.take(k + 1) =~= target.take(k).push(target[k]));
            }
            edge_plots.push(plot);
            j = j + 2;
        }
        proof {
            assert(j as int / 2 == rotated.len() / 2);
            assert(edge_plots@ =~= target);
            assert(edge_plots@ =~= word_edge_plots(tokens@, word_angle));
        }
    }
    plots.append(&mut edge_plots);
    proof {
        assert(plots@ == word_plots_spec(tokens@, word_angle));
    }
    Ok(plots)
}

} // verus!
