//! Properties of the scanner, stated over `next_spec`, which is what
//! `Lexer::next_token` is proved to compute.
use crate::lexer::{
    next_spec, run_end, single, in_class, letter_char, numeric_char, space_char, CharClass,
    LexerError,
};
use crate::token::{keyword, word, TokenView};
use vstd::prelude::*;

verus! {

/// A run never ends before it starts nor past the end of the text.
pub proof fn lemma_run_end_bounds(s: Seq<char>, i: int, k: CharClass)
    requires
        0 <= i <= s.len(),
    ensures
        i <= run_end(s, i, k) <= s.len(),
    decreases s.len() - i,
{
    if i < s.len() && in_class(k, s[i]) {
        lemma_run_end_bounds(s, i + 1, k);
    }
}

/// A run over characters that all belong to the class reaches the end.
pub proof fn lemma_run_to_end(s: Seq<char>, i: int, k: CharClass)
    requires
        0 <= i <= s.len(),
        forall|j: int| i <= j < s.len() ==> in_class(k, #[trigger] s[j]),
    ensures
        run_end(s, i, k) == s.len(),
    decreases s.len() - i,
{
    if i < s.len() {
        lemma_run_to_end(s, i + 1, k);
    }
}

/// Text made only of whitespace gives End-of-Input on the first request.
pub proof fn whitespace_only_ends(s: Seq<char>)
    requires
        forall|i: int| 0 <= i < s.len() ==> space_char(#[trigger] s[i]),
    ensures
        next_spec(s, 0) == (Err::<TokenView, LexerError>(LexerError::EOF), s.len() as int),
{
    lemma_run_to_end(s, 0, CharClass::Space);
}

/// Once End-of-Input is given, every later request gives it again and
/// leaves the cursor where it is.
pub proof fn end_of_input_repeats(s: Seq<char>, pos: int)
    requires
        0 <= pos <= s.len(),
        next_spec(s, pos).0 == Err::<TokenView, LexerError>(LexerError::EOF),
    ensures
        next_spec(s, next_spec(s, pos).1) == next_spec(s, pos),
{
    lemma_run_end_bounds(s, pos, CharClass::Space);
}

/// A supported operator or punctuation character alone gives its token,
/// then End-of-Input.
pub proof fn single_character_alone(c: char)
    requires
        single(c) is Some,
    ensures
        next_spec(seq![c], 0) == (Ok::<TokenView, LexerError>(single(c)->0), 1int),
        next_spec(seq![c], 1) == (Err::<TokenView, LexerError>(LexerError::EOF), 1int),
{
    let s = seq![c];
    assert(s[0] == c);
    assert(!space_char(c));
}

/// A character that is no whitespace, starts no identifier or number and
/// is no operator or punctuation gives Illegal-Character and does not move
/// the cursor.
pub proof fn unsupported_character_is_illegal(c: char)
    requires
        !space_char(c),
        !letter_char(c),
        !numeric_char(c),
        single(c) is None,
    ensures
        next_spec(seq![c], 0) == (Err::<TokenView, LexerError>(LexerError::Illegal(c)), 0int),
{
    let s = seq![c];
    assert(s[0] == c);
}

/// The spelling of a word token is the run it was read from.
pub proof fn lemma_word_spelling(s: Seq<char>)
    ensures
        word(s).spelling() == s,
{
}

/// Every token produced spells exactly the source characters it was read
/// from: those between the end of the skipped whitespace and the new cursor.
pub proof fn spelling_round_trip(s: Seq<char>, pos: int)
    requires
        0 <= pos <= s.len(),
        next_spec(s, pos).0 is Ok,
    ensures
        next_spec(s, pos).0->Ok_0.spelling() == s.subrange(
            run_end(s, pos, CharClass::Space),
            next_spec(s, pos).1,
        ),
{
    let p = run_end(s, pos, CharClass::Space);
    lemma_run_end_bounds(s, pos, CharClass::Space);
    let c = s[p];
    let joined = p + 1 < s.len() && s[p + 1] == '=';
    if c == '=' && joined {
        assert(s.subrange(p, p + 2) =~= seq!['=', '=']);
    } else if c == '!' && joined {
        assert(s.subrange(p, p + 2) =~= seq!['!', '=']);
    } else if single(c) is Some {
        assert(s.subrange(p, p + 1) =~= seq![c]);
    } else if letter_char(c) {
        lemma_run_end_bounds(s, p, CharClass::Letter);
        lemma_word_spelling(s.subrange(p, run_end(s, p, CharClass::Letter)));
    } else {
        lemma_run_end_bounds(s, p, CharClass::Digit);
    }
}

/// Each keyword alone gives its own token, not an identifier, and takes
/// the whole text.
pub proof fn keyword_alone(s: Seq<char>)
    requires
        keyword(s) is Some,
    ensures
        next_spec(s, 0) == (Ok::<TokenView, LexerError>(keyword(s)->0), s.len() as int),
{
    assert(forall|j: int| 0 <= j < s.len() ==> in_class(CharClass::Letter, #[trigger] s[j]));
    lemma_run_to_end(s, 0, CharClass::Letter);
    assert(s.subrange(0, s.len() as int) =~= s);
}

} // verus!
