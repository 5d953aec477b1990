use crate::token::{word, Token, TokenView};
use vstd::prelude::*;

verus! {

/// Whether a character beyond ASCII has Unicode's White_Space property.
pub uninterp spec fn unicode_white_space(c: char) -> bool;

/// Whether a character beyond ASCII has Unicode's Alphabetic property.
pub uninterp spec fn unicode_alphabetic(c: char) -> bool;

/// Whether a character beyond ASCII lies in one of Unicode's numeric
/// general categories (Nd, Nl, No).
pub uninterp spec fn unicode_numeric(c: char) -> bool;

pub open spec fn is_ascii_char(c: char) -> bool {
    (c as u32) < 128
}

/// Whitespace: for ASCII a space or one of tab, line feed, vertical tab,
/// form feed and carriage return.
pub open spec fn space_char(c: char) -> bool {
    if is_ascii_char(c) {
        c == ' ' || (9 <= (c as u32) && (c as u32) <= 13)
    } else {
        unicode_white_space(c)
    }
}

/// Alphabetic: for ASCII the letters `a`-`z` and `A`-`Z`.
pub open spec fn alphabetic_char(c: char) -> bool {
    if is_ascii_char(c) {
        ('a' <= c && c <= 'z') || ('A' <= c && c <= 'Z')
    } else {
        unicode_alphabetic(c)
    }
}

/// Numeric: for ASCII the digits `0`-`9`.
pub open spec fn numeric_char(c: char) -> bool {
    if is_ascii_char(c) {
        '0' <= c && c <= '9'
    } else {
        unicode_numeric(c)
    }
}

/// A character that may start or continue an identifier.
pub open spec fn letter_char(c: char) -> bool {
    alphabetic_char(c) || c == '_'
}

/// Relies on `char::is_whitespace`: on ASCII it holds of ' ' and of
/// '\t' through '\r'; beyond ASCII it is the White_Space property.
#[verifier::external_body]
fn char_is_whitespace(c: char) -> (r: bool)
    ensures
        is_ascii_char(c) ==> r == (c == ' ' || (9 <= (c as u32) && (c as u32) <= 13)),
        !is_ascii_char(c) ==> r == unicode_white_space(c),
{
    c.is_whitespace()
}

/// Relies on `char::is_alphabetic`: on ASCII it holds of the letters
/// alone; beyond ASCII it is the Alphabetic property.
#[verifier::external_body]
fn char_is_alphabetic(c: char) -> (r: bool)
    ensures
        is_ascii_char(c) ==> r == (('a' <= c && c <= 'z') || ('A' <= c && c <= 'Z')),
        !is_ascii_char(c) ==> r == unicode_alphabetic(c),
{
    c.is_alphabetic()
}

/// Relies on `char::is_numeric`: on ASCII it holds of the digits alone;
/// beyond ASCII it is membership in the numeric general categories.
#[verifier::external_body]
fn char_is_numeric(c: char) -> (r: bool)
    ensures
        is_ascii_char(c) ==> r == ('0' <= c && c <= '9'),
        !is_ascii_char(c) ==> r == unicode_numeric(c),
{
    c.is_numeric()
}

/// Relies on `String::push`: appends one character at the end.
#[verifier::external_body]
fn push_char(s: &mut String, c: char)
    ensures
        final(s)@ == old(s)@.push(c),
{
    s.push(c)
}

fn is_letter(val: char) -> (r: bool)
    ensures
        r == letter_char(val),
{
    char_is_alphabetic(val) || val == '_'
}

/// A class of characters whose maximal runs the scanner consumes.
pub enum CharClass {
    Letter,
    Digit,
    Space,
}

pub open spec fn in_class(k: CharClass, c: char) -> bool {
    match k {
        CharClass::Letter => letter_char(c),
        CharClass::Digit => numeric_char(c),
        CharClass::Space => space_char(c),
    }
}

fn class_holds(k: &CharClass, c: char) -> (r: bool)
    ensures
        r == in_class(*k, c),
{
    match k {
        CharClass::Letter => is_letter(c),
        CharClass::Digit => char_is_numeric(c),
        CharClass::Space => char_is_whitespace(c),
    }
}

/// The end of the maximal run of class `k` that starts at `i`.
pub open spec fn run_end(s: Seq<char>, i: int, k: CharClass) -> int
    decreases s.len() - i,
{
    if 0 <= i < s.len() && in_class(k, s[i]) {
        run_end(s, i + 1, k)
    } else {
        i
    }
}

/// The character at `i`, or none past either end.
pub open spec fn char_at(s: Seq<char>, i: int) -> Option<char> {
    if 0 <= i < s.len() {
        Some(s[i])
    } else {
        None
    }
}

/// The token that a single character stands for, when followed by no `=`
/// that would join it.
pub open spec fn single(c: char) -> Option<TokenView> {
    if c == '=' {
        Some(TokenView::Assign)
    } else if c == '!' {
        Some(TokenView::Bang)
    } else if c == '+' {
        Some(TokenView::Plus)
    } else if c == '-' {
        Some(TokenView::Minus)
    } else if c == '/' {
        Some(TokenView::Slash)
    } else if c == '*' {
        Some(TokenView::Asterisk)
    } else if c == '<' {
        Some(TokenView::Lt)
    } else if c == '>' {
        Some(TokenView::Gt)
    } else if c == ',' {
        Some(TokenView::Comma)
    } else if c == ';' {
        Some(TokenView::Semicolon)
    } else if c == '(' {
        Some(TokenView::LParen)
    } else if c == ')' {
        Some(TokenView::RParen)
    } else if c == '{' {
        Some(TokenView::LBrace)
    } else if c == '}' {
        Some(TokenView::RBrace)
    } else {
        None
    }
}

/// The two ways a request for a token can fail.
#[derive(Debug, PartialEq, Eq, Clone, Copy, Structural)]
pub enum LexerError {
    Illegal(char),
    EOF,
}

/// What one request for a token gives on text `s` with the cursor at
/// `pos`, and where the cursor stands afterwards.
pub open spec fn next_spec(s: Seq<char>, pos: int) -> (Result<TokenView, LexerError>, int) {
    let p = run_end(s, pos, CharClass::Space);
    if p >= s.len() {
        (Err(LexerError::EOF), p)
    } else {
        let c = s[p];
        let joined = p + 1 < s.len() && s[p + 1] == '=';
        if c == '=' && joined {
            (Ok(TokenView::Eq), p + 2)
        } else if c == '!' && joined {
            (Ok(TokenView::NotEq), p + 2)
        } else if single(c) is Some {
            (Ok(single(c)->0), p + 1)
        } else if letter_char(c) {
            let q = run_end(s, p, CharClass::Letter);
            (Ok(word(s.subrange(p, q))), q)
        } else if numeric_char(c) {
            let q = run_end(s, p, CharClass::Digit);
            (Ok(TokenView::Int(s.subrange(p, q))), q)
        } else {
            (Err(LexerError::Illegal(c)), p)
        }
    }
}

pub open spec fn result_view(r: Result<Token, LexerError>) -> Result<TokenView, LexerError> {
    match r {
        Ok(t) => Ok(t@),
        Err(e) => Err(e),
    }
}

/// A scanner over a complete source text, with a window of two characters:
/// the one being classified and the one after it.
pub struct Lexer {
    input: Vec<char>,
    pos: usize,
    cur_token: Option<char>,
    peek_token: Option<char>,
}

impl Lexer {
    /// The whole source text.
    pub closed spec fn text(&self) -> Seq<char> {
        self.input@
    }

    /// The index of the character being classified.
    pub closed spec fn position(&self) -> int {
        self.pos as int
    }

    pub closed spec fn wf(&self) -> bool {
        &&& self.pos <= self.input.len()
        &&& self.cur_token == char_at(self.input@, self.pos as int)
        &&& self.peek_token == char_at(self.input@, self.pos + 1)
    }

    /// Takes the whole source text, with the window on its first two
    /// characters.
    pub fn new(input: String) -> (r: Lexer)
        ensures
            r.wf(),
            r.text() == input@,
            r.position() == 0,
    {
        let text = input.as_str();
        let n = text.unicode_len();
        let mut chars: Vec<char> = Vec::new();
        let mut i: usize = 0;
        while i < n
            invariant
                text@ == input@,
                n == input@.len(),
                i <= n,
                chars@ == input@.subrange(0, i as int),
            decreases n - i,
        {
            chars.push(text.get_char(i));
            i += 1;
        }
        assert(chars@ == input@);
        let mut out = Lexer { input: chars, pos: 0, cur_token: None, peek_token: None };
        if out.input.len() > 0 {
            out.cur_token = Some(out.input[0]);
        }
        if out.input.len() > 1 {
            out.peek_token = Some(out.input[1]);
        }
        out
    }

    /// Moves the window one character forward.
    fn advance(&mut self)
        requires
            old(self).wf(),
        ensures
            final(self).wf(),
            final(self).input@ == old(self).input@,
            final(self).pos == if old(self).pos < old(self).input.len() {
                old(self).pos + 1
            } else {
                old(self).pos as int
            },
    {
        self.cur_token = self.peek_token;
        if self.pos < self.input.len() {
            self.pos = self.pos + 1;
        }
        self.peek_token = if self.input.len() - self.pos > 1 {
            Some(self.input[self.pos + 1])
        } else {
            None
        };
    }

    fn peek_char(&self) -> (r: Option<char>)
        requires
            self.wf(),
        ensures
            r == char_at(self.input@, self.pos + 1),
    {
        self.peek_token
    }

    /// Consumes the maximal run of class `k` at the cursor and returns it.
    fn read_while(&mut self, k: CharClass) -> (r: String)
        requires
            old(self).wf(),
        ensures
            final(self).wf(),
            final(self).input@ == old(self).input@,
            final(self).pos == run_end(old(self).input@, old(self).pos as int, k),
            r@ == old(self).input@.subrange(old(self).pos as int, final(self).pos as int),
    {
        let ghost s = self.input@;
        let ghost start = self.pos as int;
        let mut out = String::new();
        loop
            invariant
                self.wf(),
                self.input@ == s,
                0 <= start <= self.pos <= s.len(),
                run_end(s, start, k) == run_end(s, self.pos as int, k),
                out@ == s.subrange(start, self.pos as int),
            ensures
                self.wf(),
                self.input@ == s,
                0 <= start <= self.pos,
                self.pos == run_end(s, start, k),
                out@ == s.subrange(start, self.pos as int),
            decreases s.len() - self.pos,
        {
            match self.cur_token {
                Some(c) => {
                    if !class_holds(&k, c) {
                        break;
                    }
                    push_char(&mut out, c);
                    assert(s.subrange(start, self.pos + 1) =~= s.subrange(start, self.pos as int).push(c));
                    self.advance();
                },
                None => {
                    break;
                },
            }
        }
        out
    }

    fn read_ident(&mut self) -> (r: Token)
        requires
            old(self).wf(),
        ensures
            final(self).wf(),
            final(self).input@ == old(self).input@,
            final(self).pos == run_end(old(self).input@, old(self).pos as int, CharClass::Letter),
            r@ == word(old(self).input@.subrange(old(self).pos as int, final(self).pos as int)),
    {
        Token::ident_from_string(self.read_while(CharClass::Letter))
    }

    fn read_int(&mut self) -> (r: Token)
        requires
            old(self).wf(),
        ensures
            final(self).wf(),
            final(self).input@ == old(self).input@,
            final(self).pos == run_end(old(self).input@, old(self).pos as int, CharClass::Digit),
            r@ == TokenView::Int(
                old(self).input@.subrange(old(self).pos as int, final(self).pos as int),
            ),
    {
        Token::INT(self.read_while(CharClass::Digit))
    }

    fn skip_whitespace(&mut self)
        requires
            old(self).wf(),
        ensures
            final(self).wf(),
            final(self).input@ == old(self).input@,
            final(self).pos == run_end(old(self).input@, old(self).pos as int, CharClass::Space),
    {
        let _ = self.read_while(CharClass::Space);
    }

    /// Produces the next token, or says why there is none: the text is used
    /// up, or the character at the cursor belongs to no token.
    pub fn next_token(&mut self) -> (r: Result<Token, LexerError>)
        requires
            old(self).wf(),
        ensures
            final(self).wf(),
            final(self).text() == old(self).text(),
            (result_view(r), final(self).position()) == next_spec(
                old(self).text(),
                old(self).position(),
            ),
    {
        self.skip_whitespace();
        let c = match self.cur_token {
            Some(c) => c,
            None => {
                return Err(LexerError::EOF);
            },
        };
        let joined = matches!(self.peek_char(), Some('='));
        let out = match c {
            '=' => {
                if joined {
                    self.advance();
                    Token::EQ
                } else {
                    Token::ASSIGN
                }
            },
            '!' => {
                if joined {
                    self.advance();
                    Token::NOT_EQ
                } else {
                    Token::BANG
                }
            },
            '-' => Token::MINUS,
            '/' => Token::SLASH,
            '+' => Token::PLUS,
            '*' => Token::ASTERISK,
            ',' => Token::COMMA,
            ';' => Token::SEMICOLON,
            '<' => Token::LT,
            '>' => Token::GT,
            '(' => Token::LPAREN,
            ')' => Token::RPAREN,
            '{' => Token::LBRACE,
            '}' => Token::RBRACE,
            _ => {
                if is_letter(c) {
                    return Ok(self.read_ident());
                } else if char_is_numeric(c) {
                    return Ok(self.read_int());
                } else {
                    return Err(LexerError::Illegal(c));
                }
            },
        };
        self.advance();
        Ok(out)
    }
}

} // verus!
