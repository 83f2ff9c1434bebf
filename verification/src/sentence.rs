use vstd::prelude::*;
use crate::letters::{GallifreyanToken, Part};
use crate::math::{AsinTerm, EdgeAngle, Frac, PolarTerm, Position, Shift};
use crate::layout::{
    get_word_circle_plots, pair_edges, rotate1, slot_angle, slot_angle_exec, word_plots_spec,
    word_radius, LayoutError, Plot, MAX_ITEMS,
};
use crate::tokenizer::{
    sentence_words_spec, split_sentence, tokenize_word, word_tokens_spec,
};

verus! {

/// Radius of the inner sentence circle, on which the notches between words
/// sit.
pub open spec fn inner_sentence_radius() -> Frac {
    Frac { num: 16, den: 1 }
}

/// Radius of the outer sentence boundary circle.
pub open spec fn outer_sentence_radius() -> Frac {
    Frac { num: 18, den: 1 }
}

/// How far a notch is pulled in from the inner sentence circle.
pub open spec fn notch_base_radius() -> Frac {
    Frac { num: 3, den: 4 }
}

/// The angular half-width (in turns) of a notch on its own circle: a quarter
/// turn.
pub open spec fn notch_shape_angle() -> Frac {
    Frac { num: 1, den: 4 }
}

/// The views of a vector of token vectors.
pub open spec fn views_of(words: Seq<Vec<GallifreyanToken>>) -> Seq<Seq<GallifreyanToken>> {
    words.map_values(|v: Vec<GallifreyanToken>| v@)
}

/// The letter and edge plots of the first `k` words, each word centered at
/// its own angle on the sentence circle.
pub open spec fn sentence_word_plots_upto(words: Seq<Seq<GallifreyanToken>>, k: int) -> Seq<Plot>
    decreases k,
{
    if k <= 0 {
        Seq::empty()
    } else {
        sentence_word_plots_upto(words, k - 1) + word_plots_spec(
            words[k - 1],
            slot_angle(k - 1, words.len() as int),
        )
    }
}

/// The angle (in turns) of the notch after word `k`: the midpoint between
/// that word and the next.
pub open spec fn notch_angle(k: int, w: int) -> Frac {
    Frac { num: (4 * k - w + 2) as i64, den: (4 * w) as i64 }
}

/// The rotation offset of the notch after word `k`: its angle plus half a
/// turn.
pub open spec fn notch_rotation(k: int, w: int) -> Frac {
    Frac { num: (4 * k + w + 2) as i64, den: (4 * w) as i64 }
}

/// The notch separating word `k` from the next word, pulled slightly in from
/// the inner sentence circle.
pub open spec fn notch_plot(k: int, w: int) -> Plot {
    let na = notch_angle(k, w);
    Plot {
        part: Part::Notch,
        vector: Position::pair_spec(
            PolarTerm { positive: true, radius: inner_sentence_radius(), angle: na },
            PolarTerm { positive: false, radius: notch_base_radius(), angle: na },
        ),
        radius: word_radius(),
        offset: notch_rotation(k, w),
    }
}

pub open spec fn notch_plots_upto(w: int, k: int) -> Seq<Plot>
    decreases k,
{
    if k <= 0 {
        Seq::empty()
    } else {
        notch_plots_upto(w, k - 1).push(notch_plot(k - 1, w))
    }
}

/// The law-of-sines correction of a notch against the inner sentence circle.
pub open spec fn notch_asin_term() -> AsinTerm {
    AsinTerm {
        shape_radius: word_radius(),
        shape_angle: notch_shape_angle(),
        circle_radius: inner_sentence_radius(),
    }
}

/// The boundary angles of the first `k` notches, in order: for each notch
/// its start then its end.
pub open spec fn notch_bounds_upto(w: int, k: int) -> Seq<EdgeAngle>
    decreases k,
{
    if k <= 0 {
        Seq::empty()
    } else {
        notch_bounds_upto(w, k - 1) + seq![
            EdgeAngle { base: notch_rotation(k - 1, w), shift: Shift::Minus(notch_asin_term()) },
            EdgeAngle { base: notch_rotation(k - 1, w), shift: Shift::Plus(notch_asin_term()) },
        ]
    }
}

/// The arcs of the inner sentence circle between the notches, paired the
/// same way as the word-circle edges.
pub open spec fn sentence_edge_plots(w: int) -> Seq<Plot> {
    pair_edges(
        rotate1(notch_bounds_upto(w, w)),
        Position::origin_spec(),
        inner_sentence_radius(),
        Frac { num: 1, den: 2 },
    )
}

/// The outer sentence boundary: one full circle around everything.
pub open spec fn outer_circle_plot() -> Plot {
    Plot {
        part: Part::New,
        vector: Position::origin_spec(),
        radius: outer_sentence_radius(),
        offset: Frac { num: 0, den: 1 },
    }
}

/// Everything drawn for a sentence: each word's plots, the notches on the
/// inner sentence circle, the arcs between them, and the outer boundary.
pub open spec fn sentence_plots_spec(words: Seq<Seq<GallifreyanToken>>) -> Seq<Plot> {
    let w = words.len() as int;
    sentence_word_plots_upto(words, w) + notch_plots_upto(w, w) + sentence_edge_plots(w) + seq![
        outer_circle_plot(),
    ]
}

/// Lay out a tokenized sentence: every word placed around the sentence
/// circle, a notch at the midpoint between each pair of adjacent words, the
/// arcs of the inner sentence circle between the notches, and the outer
/// boundary circle. A sentence with no words, or with a word of no letters,
/// is rejected.
pub fn get_sentence_circle_plots(words: &Vec<Vec<GallifreyanToken>>) -> (r: Result<
    Vec<Plot>,
    LayoutError,
>)
    requires
        words@.len() <= MAX_ITEMS as int,
        forall|i: int| 0 <= i < words@.len() ==> #[trigger] words@[i]@.len() <= MAX_ITEMS as int,
    ensures
        match r {
            Ok(plots) => {
                &&& words@.len() > 0
                &&& forall|i: int| 0 <= i < words@.len() ==> #[trigger] words@[i]@.len() > 0
                &&& plots@ == sentence_plots_spec(views_of(words@))
            },
            Err(e) => {
                &&& e is EmptyInput
                &&& (words@.len() == 0 || exists|i: int|
                    0 <= i < words@.len() && #[trigger] words@[i]@.len() == 0)
            },
        },
{
    let w = words.len();
    let ghost wseq = views_of(words@);
    if w == 0 {
        return Err(LayoutError::EmptyInput);
    }
    let mut plots: Vec<Plot> = Vec::new();
    let mut k: usize = 0;
    while k < w
        invariant
            k <= w,
            w == words@.len() <= MAX_ITEMS as int,
            forall|i: int| 0 <= i < words@.len() ==> #[trigger] words@[i]@.len() <= MAX_ITEMS
                as int,
            wseq == views_of(words@),
            plots@ == sentence_word_plots_upto(wseq, k as int),
            forall|i: int| 0 <= i < k ==> #[trigger] words@[i]@.len() > 0,
        decreases w - k,
    {
        let wa = slot_angle_exec(k, w);
        match get_word_circle_plots(words[k].as_slice(), wa) {
            Ok(mut wp) => {
                proof {
                    assert(wseq[k as int] == words@[k as int]@);
                }
                plots.append(&mut wp);
            },
            Err(_) => {
                return Err(LayoutError::EmptyInput);
            },
        }
        k = k + 1;
    }
    let mut notches: Vec<Plot> = Vec::new();
    let mut bounds: Vec<EdgeAngle> = Vec::new();
    let mut k2: usize = 0;
    while k2 < w
        invariant
            k2 <= w,
            0 < w <= MAX_ITEMS as int,
            notches@ == notch_plots_upto(w as int, k2 as int),
            bounds@ == notch_bounds_upto(w as int, k2 as int),
        decreases w - k2,
    {
        let na = Frac { num: 4 * (k2 as i64) - (w as i64) + 2, den: 4 * (w as i64) };
        let rot = Frac { num: 4 * (k2 as i64) + (w as i64) + 2, den: 4 * (w as i64) };
        let term = AsinTerm {
            shape_radius: Frac { num: 5, den: 1 },
            shape_angle: Frac { num: 1, den: 4 },
            circle_radius: Frac { num: 16, den: 1 },
        };
        notches.push(
            Plot {
                part: Part::Notch,
                vector: Position::pair(
                    PolarTerm::plus(Frac { num: 16, den: 1 }, na),
                    PolarTerm::minus(Frac { num: 3, den: 4 }, na),
                ),
                radius: Frac { num: 5, den: 1 },
                offset: rot,
            },
        );
        bounds.push(EdgeAngle { base: rot, shift: Shift::Minus(term) });
        bounds.push(EdgeAngle { base: rot, shift: Shift::Plus(term) });
        k2 = k2 + 1;
    }
    plots.append(&mut notches);
    let ghost unrotated = bounds@;
    proof {
        lemma_notch_bounds_len(w as int, w as int);
    }
    let first = bounds.remove(0);
    bounds.push(first);
    proof {
        assert(bounds@ =~= rotate1(unrotated));
    }
    let ghost rotated = bounds@;
    let ghost target = pair_edges(
        rotated,
        Position::origin_spec(),
        Frac { num: 16, den: 1 },
        Frac { num: 1, den: 2 },
    );
    let origin = Position::origin();
    let mut edge_plots: Vec<Plot> = Vec::new();
    let mut j: usize = 0;
    while j + 1 < bounds.len()
        invariant
            bounds@ == rotated,
            j % 2 == 0,
            j <= bounds@.len(),
            origin == Position::origin_spec(),
            target == pair_edges(
                rotated,
                Position::origin_spec(),
                Frac { num: 16, den: 1 },
                Frac { num: 1, den: 2 },
            ),
            edge_plots@ == target.take(j as int / 2),
        decreases bounds.len() - j,
    {
        let plot = Plot {
            part: Part::Edge(bounds[j], bounds[j + 1]),
            vector: origin,
            radius: Frac { num: 16, den: 1 },
            offset: Frac { num: 1, den: 2 },
        };
        proof {
            let p = j as int / 2;
            assert(2 * p == j as int);
            assert(target.take(p + 1) =~= target.take(p).push(target[p]));
        }
        edge_plots.push(plot);
        j = j + 2;
    }
    proof {
        assert(j as int / 2 == rotated.len() / 2);
        assert(edge_plots@ =~= target);
    }
    plots.append(&mut edge_plots);
    plots.push(
        Plot {
            part: Part::New,
            vector: origin,
            radius: Frac { num: 18, den: 1 },
            offset: Frac { num: 0, den: 1 },
        },
    );
    proof {
        assert(plots@ =~= sentence_plots_spec(wseq));
    }
    Ok(plots)
}

/// The tokenization of a whole sentence, word by word: the token sequences
/// of all words, or the leftmost letter group that is not in the alphabet.
pub open spec fn sentence_tokens(words: Seq<Seq<char>>) -> Result<
    Seq<Seq<GallifreyanToken>>,
    Seq<char>,
>
    decreases words.len(),
{
    if words.len() == 0 {
        Ok(Seq::empty())
    } else {
        match word_tokens_spec(words[0]) {
            Err(g) => Err(g),
            Ok(ts) => match sentence_tokens(words.drop_first()) {
                Ok(rest) => Ok(seq![ts] + rest),
                Err(g) => Err(g),
            },
        }
    }
}

/// A sentence tokenization with already-tokenized words in front.
pub open spec fn prepend_words(
    acc: Seq<Seq<GallifreyanToken>>,
    rest: Result<Seq<Seq<GallifreyanToken>>, Seq<char>>,
) -> Result<Seq<Seq<GallifreyanToken>>, Seq<char>> {
    match rest {
        Ok(r) => Ok(acc + r),
        Err(g) => Err(g),
    }
}

/// One unfolding of `sentence_tokens` on a non-empty word list, phrased with
/// `prepend_words`.
proof fn lemma_sentence_tokens_unfold(words: Seq<Seq<char>>)
    requires
        words.len() > 0,
    ensures
        sentence_tokens(words) == (match word_tokens_spec(words[0]) {
            Err(g) => Err(g),
            Ok(ts) => prepend_words(seq![ts], sentence_tokens(words.drop_first())),
        }),
{
    match sentence_tokens(words.drop_first()) {
        Ok(_) => {},
        Err(_) => {},
    }
}

/// Tokenized words can be moved one at a time onto the accumulator.
proof fn lemma_prepend_words_shift(
    acc: Seq<Seq<GallifreyanToken>>,
    ts: Seq<GallifreyanToken>,
    rest: Result<Seq<Seq<GallifreyanToken>>, Seq<char>>,
)
    ensures
        prepend_words(acc, prepend_words(seq![ts], rest)) == prepend_words(acc.push(ts), rest),
{
    match rest {
        Ok(r) => {
            assert(acc + (seq![ts] + r) =~= acc.push(ts) + r);
        },
        Err(_) => {},
    }
}

/// The full pipeline: split the text into words, tokenize each word, and lay
/// the sentence out. An unrecognised letter grouping fails the whole
/// operation and names the offending substring; an empty sentence, or an
/// empty word between two spaces, is rejected rather than dividing the
/// circle by zero.
pub fn layout_sentence(text: &[char]) -> (r: Result<Vec<Plot>, LayoutError>)
    requires
        text@.len() <= MAX_ITEMS as int,
    ensures
        match r {
            Ok(plots) => {
                &&& sentence_tokens(sentence_words_spec(text@)) matches Ok(tw)
                &&& tw.len() > 0
                &&& (forall|i: int| 0 <= i < tw.len() ==> #[trigger] tw[i].len() > 0)
                &&& plots@ == sentence_plots_spec(tw)
            },
            Err(LayoutError::Tokenization(e)) => {
                &&& sentence_tokens(sentence_words_spec(text@)) matches Err(g)
                &&& e.text@ == g
            },
            Err(LayoutError::EmptyInput) => {
                &&& sentence_tokens(sentence_words_spec(text@)) matches Ok(tw)
                &&& (tw.len() == 0 || exists|i: int| 0 <= i < tw.len() && #[trigger] tw[i].len()
                    == 0)
            },
        },
{
    let words = split_sentence(text);
    let ghost wviews = words.deep_view();
    let mut toks: Vec<Vec<GallifreyanToken>> = Vec::new();
    let mut k: usize = 0;
    proof {
        assert(wviews.skip(0) =~= wviews);
        match sentence_tokens(wviews) {
            Ok(r0) => {
                assert(Seq::<Seq<GallifreyanToken>>::empty() + r0 =~= r0);
            },
            Err(_) => {},
        }
        assert(views_of(toks@) =~= Seq::<Seq<GallifreyanToken>>::empty());
    }
    while k < words.len()
        invariant
            k <= words.len(),
            words.deep_view() == wviews,
            wviews == sentence_words_spec(text@),
            text@.len() <= MAX_ITEMS as int,
            sentence_tokens(wviews) == prepend_words(
                views_of(toks@),
                sentence_tokens(wviews.skip(k as int)),
            ),
            toks@.len() == k,
            forall|i: int| 0 <= i < toks@.len() ==> #[trigger] toks@[i]@.len() <= MAX_ITEMS
                as int,
        decreases words.len() - k,
    {
        let ghost remw = wviews.skip(k as int);
        proof {
            assert(words@[k as int].deep_view() =~= words@[k as int]@);
            assert(remw[0] == wviews[k as int]);
            assert(remw.drop_first() =~= wviews.skip(k + 1));
            lemma_sentence_tokens_unfold(remw);
        }
        match tokenize_word(words[k].as_slice()) {
            Ok(ts) => {
                let ghost old_toks = toks@;
                proof {
                    lemma_prepend_words_shift(
                        views_of(old_toks),
                        ts@,
                        sentence_tokens(wviews.skip(k + 1)),
                    );
                    crate::tokenizer::lemma_strip_len(text@);
                    crate::tokenizer::lemma_split_word_len(
                        crate::tokenizer::strip_newlines(text@),
                        k as int,
                    );
                    crate::tokenizer::lemma_token_count(
                        crate::tokenizer::upper_seq(wviews[k as int]),
                    );
                }
                toks.push(ts);
                proof {
                    assert(views_of(toks@) =~= views_of(old_toks).push(ts@));
                }
            },
            Err(e) => {
                return Err(LayoutError::Tokenization(e));
            },
        }
        k = k + 1;
    }
    proof {
        assert(wviews.skip(wviews.len() as int) =~= Seq::<Seq<char>>::empty());
        assert(views_of(toks@) + Seq::<Seq<GallifreyanToken>>::empty() =~= views_of(toks@));
        crate::tokenizer::lemma_strip_len(text@);
        crate::tokenizer::lemma_split_count(crate::tokenizer::strip_newlines(text@));
    }
    match get_sentence_circle_plots(&toks) {
        Ok(plots) => {
            proof {
                let tw = views_of(toks@);
                assert(forall|i: int| 0 <= i < tw.len() ==> #[trigger] tw[i].len() > 0) by {
                    assert(forall|i: int|
                        0 <= i < toks@.len() ==> #[trigger] toks@[i]@.len() > 0);
                }
            }
            Ok(plots)
        },
        Err(_) => {
            proof {
                let tw = views_of(toks@);
                if toks@.len() > 0 {
                    let i = choose|i: int|
                        0 <= i < toks@.len() && #[trigger] toks@[i]@.len() == 0;
                    assert(tw[i].len() == 0);
                }
            }
            return Err(LayoutError::EmptyInput);
        },
    }
}

/// There are two boundary angles per notch.
proof fn lemma_notch_bounds_len(w: int, k: int)
    requires
        k >= 0,
    ensures
        notch_bounds_upto(w, k).len() == 2 * k,
    decreases k,
{
    if k > 0 {
        lemma_notch_bounds_len(w, k - 1);
    }
}

} // verus!
