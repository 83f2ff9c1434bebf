use vstd::prelude::*;
use crate::letters::{token_of, GallifreyanToken, ParseGallifreyanTokenError};

verus! {

/// Uppercase normalization for the Latin letters; every other character is
/// left unchanged.
pub open spec fn upper_char(c: char) -> char {
    match c {
        'a' => 'A',
        'b' => 'B',
        'c' => 'C',
        'd' => 'D',
        'e' => 'E',
        'f' => 'F',
        'g' => 'G',
        'h' => 'H',
        'i' => 'I',
        'j' => 'J',
        'k' => 'K',
        'l' => 'L',
        'm' => 'M',
        'n' => 'N',
        'o' => 'O',
        'p' => 'P',
        'q' => 'Q',
        'r' => 'R',
        's' => 'S',
        't' => 'T',
        'u' => 'U',
        'v' => 'V',
        'w' => 'W',
        'x' => 'X',
        'y' => 'Y',
        'z' => 'Z',
        _ => c,
    }
}

pub open spec fn upper_seq(s: Seq<char>) -> Seq<char> {
    s.map_values(|c: char| upper_char(c))
}

pub fn to_upper(c: char) -> (r: char)
    ensures
        r == upper_char(c),
{
    match c {
        'a' => 'A',
        'b' => 'B',
        'c' => 'C',
        'd' => 'D',
        'e' => 'E',
        'f' => 'F',
        'g' => 'G',
        'h' => 'H',
        'i' => 'I',
        'j' => 'J',
        'k' => 'K',
        'l' => 'L',
        'm' => 'M',
        'n' => 'N',
        'o' => 'O',
        'p' => 'P',
        'q' => 'Q',
        'r' => 'R',
        's' => 'S',
        't' => 'T',
        'u' => 'U',
        'v' => 'V',
        'w' => 'W',
        'x' => 'X',
        'y' => 'Y',
        'z' => 'Z',
        _ => c,
    }
}

/// Whether an (uppercased) character pair is consumed as one digraph letter.
pub open spec fn is_digraph(a: char, b: char) -> bool {
    ||| (a == 'C' || a == 'P' || a == 'W' || a == 'S' || a == 'T' || a == 'G') && b == 'H'
    ||| a == 'Q' && b == 'U'
    ||| a == 'N' && b == 'G'
}

pub fn check_digraph(a: char, b: char) -> (r: bool)
    ensures
        r == is_digraph(a, b),
{
    ((a == 'C' || a == 'P' || a == 'W' || a == 'S' || a == 'T' || a == 'G') && b == 'H') || (a
        == 'Q' && b == 'U') || (a == 'N' && b == 'G')
}

/// The length of the maximal letter group at the front of an uppercased
/// word: two characters where they form a digraph, one otherwise. A missing
/// next character is no match.
pub open spec fn group_len(s: Seq<char>) -> int {
    if s.len() >= 2 && is_digraph(s[0], s[1]) {
        2
    } else {
        1
    }
}

/// The token sequence of an uppercased word, scanning left to right and
/// merging digraphs, or the leftmost letter group that is not in the
/// alphabet.
pub open spec fn tokens_of(s: Seq<char>) -> Result<Seq<GallifreyanToken>, Seq<char>>
    decreases s.len(),
{
    if s.len() == 0 {
        Ok(Seq::empty())
    } else {
        let g = s.subrange(0, group_len(s));
        match token_of(g) {
            Some(t) => match tokens_of(s.skip(group_len(s))) {
                Ok(rest) => Ok(seq![t] + rest),
                Err(e) => Err(e),
            },
            None => Err(g),
        }
    }
}

/// What tokenizing a raw word yields: the word is uppercased first.
pub open spec fn word_tokens_spec(word: Seq<char>) -> Result<Seq<GallifreyanToken>, Seq<char>> {
    tokens_of(upper_seq(word))
}

/// A token result with a sequence of already-recognised tokens in front.
pub open spec fn prepend_tokens(
    acc: Seq<GallifreyanToken>,
    rest: Result<Seq<GallifreyanToken>, Seq<char>>,
) -> Result<Seq<GallifreyanToken>, Seq<char>> {
    match rest {
        Ok(r) => Ok(acc + r),
        Err(e) => Err(e),
    }
}

fn lookup1(c: char) -> (r: Option<GallifreyanToken>)
    ensures
        r == token_of(seq![c]),
{
    if c == 'A' {
        Some(GallifreyanToken::A)
    } else if c == 'E' {
        Some(GallifreyanToken::E)
    } else if c == 'I' {
        Some(GallifreyanToken::I)
    } else if c == 'O' {
        Some(GallifreyanToken::O)
    } else if c == 'U' {
        Some(GallifreyanToken::U)
    } else if c == 'B' {
        Some(GallifreyanToken::B)
    } else if c == 'D' {
        Some(GallifreyanToken::D)
    } else if c == 'G' {
        Some(GallifreyanToken::G)
    } else if c == 'H' {
        Some(GallifreyanToken::H)
    } else if c == 'F' {
        Some(GallifreyanToken::F)
    } else if c == 'J' {
        Some(GallifreyanToken::J)
    } else if c == 'K' {
        Some(GallifreyanToken::K)
    } else if c == 'L' {
        Some(GallifreyanToken::L)
    } else if c == 'C' {
        Some(GallifreyanToken::C)
    } else if c == 'N' {
        Some(GallifreyanToken::N)
    } else if c == 'P' {
        Some(GallifreyanToken::P)
    } else if c == 'M' {
        Some(GallifreyanToken::M)
    } else if c == 'T' {
        Some(GallifreyanToken::T)
    } else if c == 'R' {
        Some(GallifreyanToken::R)
    } else if c == 'V' {
        Some(GallifreyanToken::V)
    } else if c == 'W' {
        Some(GallifreyanToken::W)
    } else if c == 'S' {
        Some(GallifreyanToken::S)
    } else if c == 'Y' {
        Some(GallifreyanToken::Y)
    } else if c == 'Z' {
        Some(GallifreyanToken::Z)
    } else if c == 'Q' {
        Some(GallifreyanToken::Q)
    } else if c == 'X' {
        Some(GallifreyanToken::X)
    } else {
        None
    }
}

fn lookup2(a: char, b: char) -> (r: Option<GallifreyanToken>)
    ensures
        r == token_of(seq![a, b]),
{
    if a == 'C' && b == 'H' {
        Some(GallifreyanToken::CH)
    } else if a == 'P' && b == 'H' {
        Some(GallifreyanToken::PH)
    } else if a == 'W' && b == 'H' {
        Some(GallifreyanToken::WH)
    } else if a == 'S' && b == 'H' {
        Some(GallifreyanToken::SH)
    } else if a == 'T' && b == 'H' {
        Some(GallifreyanToken::TH)
    } else if a == 'G' && b == 'H' {
        Some(GallifreyanToken::GH)
    } else if a == 'Q' && b == 'U' {
        Some(GallifreyanToken::QU)
    } else if a == 'N' && b == 'G' {
        Some(GallifreyanToken::NG)
    } else {
        None
    }
}

/// One unfolding of `tokens_of` on a non-empty word, phrased with
/// `prepend_tokens`.
proof fn lemma_tokens_of_unfold(r: Seq<char>)
    requires
        r.len() > 0,
    ensures
        tokens_of(r) == (match token_of(r.subrange(0, group_len(r))) {
            Some(t) => prepend_tokens(seq![t], tokens_of(r.skip(group_len(r)))),
            None => Err(r.subrange(0, group_len(r))),
        }),
{
    match tokens_of(r.skip(group_len(r))) {
        Ok(_) => {},
        Err(_) => {},
    }
}

/// Recognised tokens can be moved one at a time from the pending group onto
/// the accumulator.
proof fn lemma_prepend_shift(
    acc: Seq<GallifreyanToken>,
    t: GallifreyanToken,
    rest: Result<Seq<GallifreyanToken>, Seq<char>>,
)
    ensures
        prepend_tokens(acc, prepend_tokens(seq![t], rest)) == prepend_tokens(acc.push(t), rest),
{
    match rest {
        Ok(r) => {
            assert(acc + (seq![t] + r) =~= acc.push(t) + r);
        },
        Err(_) => {},
    }
}

/// Split a word into its ordered Gallifreyan letter tokens: the word is
/// uppercased, digraphs are merged into single tokens, and a letter group
/// that is not in the alphabet fails the whole word, reporting that group.
pub fn tokenize_word(word: &[char]) -> (r: Result<
    Vec<GallifreyanToken>,
    ParseGallifreyanTokenError,
>)
    ensures
        match r {
            Ok(tokens) => word_tokens_spec(word@) matches Ok(ts) && tokens@ == ts,
            Err(e) => word_tokens_spec(word@) matches Err(g) && e.text@ == g,
        },
{
    let mut u: Vec<char> = Vec::new();
    let mut i: usize = 0;
    while i < word.len()
        invariant
            i <= word.len(),
            u@ == upper_seq(word@.take(i as int)),
        decreases word.len() - i,
    {
        u.push(to_upper(word[i]));
        proof {
            assert(u@ =~= upper_seq(word@.take(i + 1)));
        }
        i = i + 1;
    }
    proof {
        assert(word@.take(word@.len() as int) =~= word@);
    }
    let ghost s = u@;
    let mut tokens: Vec<GallifreyanToken> = Vec::new();
    let mut j: usize = 0;
    proof {
        assert(s.skip(0) =~= s);
        match tokens_of(s) {
            Ok(r0) => {
                assert(Seq::<GallifreyanToken>::empty() + r0 =~= r0);
            },
            Err(_) => {},
        }
    }
    while j < u.len()
        invariant
            j <= u.len(),
            u@ == s,
            s == upper_seq(word@),
            tokens_of(s) == prepend_tokens(tokens@, tokens_of(s.skip(j as int))),
        decreases u.len() - j,
    {
        let ghost rem = s.skip(j as int);
        let glen: usize = if j + 1 < u.len() && check_digraph(u[j], u[j + 1]) {
            2
        } else {
            1
        };
        let ghost g = rem.subrange(0, glen as int);
        proof {
            assert(rem[0] == s[j as int]);
            assert(glen == group_len(rem));
            lemma_tokens_of_unfold(rem);
        }
        let found: Option<GallifreyanToken> = if glen == 2 {
            proof {
                assert(g =~= seq![s[j as int], s[j + 1]]);
            }
            lookup2(u[j], u[j + 1])
        } else {
            proof {
                assert(g =~= seq![s[j as int]]);
            }
            lookup1(u[j])
        };
        proof {
            assert(found == token_of(g));
        }
        match found {
            Some(t) => {
                proof {
                    assert(rem.skip(glen as int) =~= s.skip(j + glen));
                    lemma_prepend_shift(tokens@, t, tokens_of(s.skip(j + glen)));
                }
                tokens.push(t);
                j = j + glen;
            },
            None => {
                let mut text: Vec<char> = Vec::new();
                text.push(u[j]);
                if glen == 2 {
                    text.push(u[j + 1]);
                }
                proof {
                    assert(text@ =~= g);
                }
                return Err(ParseGallifreyanTokenError { text });
            },
        }
    }
    proof {
        assert(s.skip(s.len() as int) =~= Seq::<char>::empty());
        assert(tokens@ + Seq::<GallifreyanToken>::empty() =~= tokens@);
    }
    Ok(tokens)
}

/// The sentence text with newline characters discarded.
pub open spec fn strip_newlines(s: Seq<char>) -> Seq<char>
    decreases s.len(),
{
    if s.len() == 0 {
        s
    } else {
        (if s[0] == '\n' {
            Seq::<char>::empty()
        } else {
            seq![s[0]]
        }) + strip_newlines(s.drop_first())
    }
}

proof fn lemma_strip_push(s: Seq<char>, c: char)
    ensures
        strip_newlines(s.push(c)) == strip_newlines(s) + (if c == '\n' {
            Seq::<char>::empty()
        } else {
            seq![c]
        }),
    decreases s.len(),
{
    let tailbit: Seq<char> = if c == '\n' {
        Seq::empty()
    } else {
        seq![c]
    };
    if s.len() == 0 {
        reveal_with_fuel(strip_newlines, 2);
        assert(s.push(c) =~= seq![c]);
        assert(seq![c].drop_first() =~= Seq::<char>::empty());
        assert(strip_newlines(seq![c]) =~= tailbit);
        assert(strip_newlines(s) + tailbit =~= tailbit);
    } else {
        let headbit: Seq<char> = if s[0] == '\n' {
            Seq::empty()
        } else {
            seq![s[0]]
        };
        assert(s.push(c)[0] == s[0]);
        assert(s.push(c).drop_first() =~= s.drop_first().push(c));
        lemma_strip_push(s.drop_first(), c);
        assert(strip_newlines(s.push(c)) == headbit + strip_newlines(s.drop_first().push(c)));
        assert(strip_newlines(s) == headbit + strip_newlines(s.drop_first()));
        assert(headbit + (strip_newlines(s.drop_first()) + tailbit) =~= (headbit + strip_newlines(
            s.drop_first(),
        )) + tailbit);
    }
}

/// The words of a sentence: the maximal space-free stretches, in order, with
/// a space ending (not beginning) each word, so that a trailing space adds
/// no empty final word.
pub open spec fn split_words(s: Seq<char>) -> Seq<Seq<char>>
    decreases s.len(),
{
    if s.len() == 0 {
        Seq::empty()
    } else if s[0] == ' ' {
        seq![Seq::<char>::empty()] + split_words(s.drop_first())
    } else {
        let rest = split_words(s.drop_first());
        if rest.len() == 0 {
            seq![seq![s[0]]]
        } else {
            seq![seq![s[0]] + rest[0]] + rest.drop_first()
        }
    }
}

/// What the words of a raw sentence are: newlines are discarded, then the
/// text is split on spaces.
pub open spec fn sentence_words_spec(text: Seq<char>) -> Seq<Seq<char>> {
    split_words(strip_newlines(text))
}

/// The words still to come, given a partially read word `cur` and the
/// remaining text `rem`.
pub open spec fn split_tail(cur: Seq<char>, rem: Seq<char>) -> Seq<Seq<char>> {
    if cur.len() == 0 {
        split_words(rem)
    } else {
        let r = split_words(rem);
        if r.len() == 0 {
            seq![cur]
        } else {
            seq![cur + r[0]] + r.drop_first()
        }
    }
}

/// Reading one non-space character extends the partial word.
proof fn lemma_split_tail_char(cur: Seq<char>, c: char, rem: Seq<char>)
    requires
        c != ' ',
    ensures
        split_tail(cur, seq![c] + rem) == split_tail(cur.push(c), rem),
{
    let s = seq![c] + rem;
    assert(s.drop_first() =~= rem);
    let r = split_words(rem);
    assert(cur.push(c) =~= cur + seq![c]);
    if r.len() == 0 {
        assert(split_words(s) == seq![seq![c]]);
        if cur.len() == 0 {
            assert(split_tail(cur, s) =~~= seq![cur.push(c)]);
        } else {
            assert(seq![cur + seq![c]] + split_words(s).drop_first() =~~= seq![cur.push(c)]);
        }
        assert(split_tail(cur.push(c), rem) == seq![cur.push(c)]);
    } else {
        assert(split_words(s) == seq![seq![c] + r[0]] + r.drop_first());
        if cur.len() == 0 {
            assert(split_tail(cur, s) =~~= seq![cur.push(c) + r[0]] + r.drop_first());
        } else {
            assert(split_words(s)[0] == seq![c] + r[0]);
            assert(cur + (seq![c] + r[0]) =~= cur.push(c) + r[0]);
            assert(seq![cur + split_words(s)[0]] + split_words(s).drop_first() =~~= seq![
                cur.push(c) + r[0]
            ] + r.drop_first());
        }
        assert(split_tail(cur.push(c), rem) == seq![cur.push(c) + r[0]] + r.drop_first());
    }
}

/// Reading a space closes the current word, empty or not.
proof fn lemma_split_tail_space(cur: Seq<char>, rem: Seq<char>)
    ensures
        split_tail(cur, seq![' '] + rem) == seq![cur] + split_tail(Seq::empty(), rem),
{
    let s = seq![' '] + rem;
    assert(s.drop_first() =~= rem);
    let r = split_words(rem);
    assert(split_words(s) == seq![Seq::<char>::empty()] + r);
    if cur.len() == 0 {
        assert(split_tail(cur, s) =~~= seq![cur] + r);
    } else {
        assert(split_words(s).len() > 0);
        assert(split_words(s)[0] =~= Seq::<char>::empty());
        assert(cur + split_words(s)[0] =~= cur);
        assert(split_words(s).drop_first() =~= r);
        assert(seq![cur + split_words(s)[0]] + split_words(s).drop_first() =~~= seq![cur] + r);
    }
}

/// Split a sentence into its words: newline characters are discarded, a
/// space ends each word, and a trailing space adds no empty final word.
pub fn split_sentence(text: &[char]) -> (r: Vec<Vec<char>>)
    ensures
        r.deep_view() == sentence_words_spec(text@),
{
    let mut stripped: Vec<char> = Vec::new();
    let mut i: usize = 0;
    while i < text.len()
        invariant
            i <= text.len(),
            stripped@ == strip_newlines(text@.take(i as int)),
        decreases text.len() - i,
    {
        let c = text[i];
        proof {
            assert(text@.take(i + 1) =~= text@.take(i as int).push(text@[i as int]));
            lemma_strip_push(text@.take(i as int), text@[i as int]);
        }
        if c != '\n' {
            stripped.push(c);
            proof {
                assert(stripped@ =~= strip_newlines(text@.take(i + 1)));
            }
        } else {
            proof {
                assert(stripped@ =~= strip_newlines(text@.take(i + 1)));
            }
        }
        i = i + 1;
    }
    proof {
        assert(text@.take(text@.len() as int) =~= text@);
    }
    let ghost s = stripped@;
    let mut words: Vec<Vec<char>> = Vec::new();
    let mut current: Vec<char> = Vec::new();
    let mut j: usize = 0;
    proof {
        assert(s.skip(0) =~= s);
        assert(words.deep_view() + split_tail(current@, s) =~= split_tail(current@, s));
    }
    while j < stripped.len()
        invariant
            j <= stripped.len(),
            stripped@ == s,
            split_words(s) == words.deep_view() + split_tail(current@, s.skip(j as int)),
        decreases stripped.len() - j,
    {
        let c = stripped[j];
        proof {
            assert(s.skip(j as int) =~= seq![s[j as int]] + s.skip(j + 1));
        }
        if c == ' ' {
            let ghost dw = words.deep_view();
            let ghost cur = current@;
            proof {
                assert(current.deep_view() =~= cur);
                lemma_split_tail_space(cur, s.skip(j + 1));
                assert((dw.push(cur)) + split_tail(Seq::<char>::empty(), s.skip(j + 1)) =~= dw + (
                seq![cur] + split_tail(Seq::<char>::empty(), s.skip(j + 1))));
            }
            words.push(current);
            current = Vec::new();
            proof {
                assert(words.deep_view() =~= dw.push(cur));
            }
        } else {
            proof {
                lemma_split_tail_char(current@, s[j as int], s.skip(j + 1));
            }
            current.push(c);
        }
        j = j + 1;
    }
    proof {
        assert(s.skip(s.len() as int) =~= Seq::<char>::empty());
    }
    if current.len() > 0 {
        let ghost dw = words.deep_view();
        let ghost cur = current@;
        proof {
            assert(current.deep_view() =~= cur);
            assert(split_tail(cur, Seq::<char>::empty()) == seq![cur]);
            assert(dw.push(cur) =~= dw + seq![cur]);
        }
        words.push(current);
        proof {
            assert(words.deep_view() =~= dw.push(cur));
        }
    } else {
        proof {
            assert(words.deep_view() + Seq::<Seq<char>>::empty() =~= words.deep_view());
        }
    }
    words
}

impl GallifreyanToken {
    /// Parse a single letter spelling, case-insensitively: the letter whose
    /// canonical spelling is the uppercased text, or a failure carrying
    /// that text.
    pub fn from_text(text: &[char]) -> (r: Result<GallifreyanToken, ParseGallifreyanTokenError>)
        ensures
            match r {
                Ok(t) => token_of(upper_seq(text@)) == Some(t),
                Err(e) => token_of(upper_seq(text@)) is None && e.text@ == upper_seq(text@),
            },
    {
        let mut u: Vec<char> = Vec::new();
        let mut i: usize = 0;
        while i < text.len()
            invariant
                i <= text.len(),
                u@ == upper_seq(text@.take(i as int)),
            decreases text.len() - i,
        {
            u.push(to_upper(text[i]));
            proof {
                assert(u@ =~= upper_seq(text@.take(i + 1)));
            }
            i = i + 1;
        }
        proof {
            assert(text@.take(text@.len() as int) =~= text@);
        }
        let found: Option<GallifreyanToken> = if u.len() == 1 {
            proof {
                assert(u@ =~= seq![u@[0]]);
            }
            lookup1(u[0])
        } else if u.len() == 2 {
            proof {
                assert(u@ =~= seq![u@[0], u@[1]]);
            }
            lookup2(u[0], u[1])
        } else {
            None
        };
        match found {
            Some(t) => Ok(t),
            None => Err(ParseGallifreyanTokenError { text: u }),
        }
    }
}

/// Discarding newlines does not lengthen the text.
pub proof fn lemma_strip_len(s: Seq<char>)
    ensures
        strip_newlines(s).len() <= s.len(),
    decreases s.len(),
{
    if s.len() > 0 {
        lemma_strip_len(s.drop_first());
    }
}

/// A text has no more words than characters.
pub proof fn lemma_split_count(s: Seq<char>)
    ensures
        split_words(s).len() <= s.len(),
    decreases s.len(),
{
    if s.len() > 0 {
        lemma_split_count(s.drop_first());
    }
}

/// No word is longer than the text it was split from.
pub proof fn lemma_split_word_len(s: Seq<char>, i: int)
    requires
        0 <= i < split_words(s).len(),
    ensures
        split_words(s)[i].len() <= s.len(),
    decreases s.len(),
{
    if s.len() > 0 {
        if s[0] == ' ' {
            if i > 0 {
                lemma_split_word_len(s.drop_first(), i - 1);
            }
        } else {
            let rest = split_words(s.drop_first());
            if rest.len() == 0 {
            } else if i == 0 {
                lemma_split_word_len(s.drop_first(), 0);
            } else {
                lemma_split_word_len(s.drop_first(), i);
            }
        }
    }
}

/// A word has no more tokens than characters: every letter group consumes at
/// least one character.
pub proof fn lemma_token_count(s: Seq<char>)
    ensures
        tokens_of(s) matches Ok(ts) ==> ts.len() <= s.len(),
    decreases s.len(),
{
    if s.len() > 0 {
        lemma_token_count(s.skip(group_len(s)));
    }
}

/// Tokenizing the canonical spelling of any letter of the alphabet yields
/// exactly that letter.
pub proof fn lemma_spelling_roundtrip(t: GallifreyanToken)
    ensures
        word_tokens_spec(t.spelling_spec()) == Ok::<Seq<GallifreyanToken>, Seq<char>>(seq![t]),
{
    let s = t.spelling_spec();
    assert(upper_seq(s) =~= s);
    reveal_with_fuel(tokens_of, 3);
    if s.len() == 1 {
        assert(s.subrange(0, 1) =~= seq![s[0]]);
        assert(s.skip(1) =~= Seq::<char>::empty());
    } else {
        assert(s.subrange(0, 2) =~= seq![s[0], s[1]]);
        assert(s.skip(2) =~= Seq::<char>::empty());
    }
    assert(seq![t] + Seq::<GallifreyanToken>::empty() =~= seq![t]);
}

} // verus!
