use vstd::prelude::*;

verus! {

/// One lexical unit of the language.
#[allow(non_camel_case_types)]
#[derive(PartialEq, Eq, Debug, Clone)]
pub enum Token {
    IDENT(String),
    INT(String),
    ASSIGN,
    PLUS,
    BANG,
    MINUS,
    SLASH,
    LT,
    GT,
    ASTERISK,
    EQ,
    NOT_EQ,
    COMMA,
    SEMICOLON,
    LPAREN,
    RPAREN,
    LBRACE,
    RBRACE,
    FUNCTION,
    LET,
    IF,
    ELSE,
    RETURN,
    TRUE,
    FALSE,
}

/// The mathematical value of a token: its kind, and for identifiers and
/// integers the text it carries.
pub enum TokenView {
    Ident(Seq<char>),
    Int(Seq<char>),
    Assign,
    Plus,
    Bang,
    Minus,
    Slash,
    Lt,
    Gt,
    Asterisk,
    Eq,
    NotEq,
    Comma,
    Semicolon,
    LParen,
    RParen,
    LBrace,
    RBrace,
    Function,
    Let,
    If,
    Else,
    Return,
    True,
    False,
}

impl View for Token {
    type V = TokenView;

    open spec fn view(&self) -> TokenView {
        match self {
            Token::IDENT(s) => TokenView::Ident(s@),
            Token::INT(s) => TokenView::Int(s@),
            Token::ASSIGN => TokenView::Assign,
            Token::PLUS => TokenView::Plus,
            Token::BANG => TokenView::Bang,
            Token::MINUS => TokenView::Minus,
            Token::SLASH => TokenView::Slash,
            Token::LT => TokenView::Lt,
            Token::GT => TokenView::Gt,
            Token::ASTERISK => TokenView::Asterisk,
            Token::EQ => TokenView::Eq,
            Token::NOT_EQ => TokenView::NotEq,
            Token::COMMA => TokenView::Comma,
            Token::SEMICOLON => TokenView::Semicolon,
            Token::LPAREN => TokenView::LParen,
            Token::RPAREN => TokenView::RParen,
            Token::LBRACE => TokenView::LBrace,
            Token::RBRACE => TokenView::RBrace,
            Token::FUNCTION => TokenView::Function,
            Token::LET => TokenView::Let,
            Token::IF => TokenView::If,
            Token::ELSE => TokenView::Else,
            Token::RETURN => TokenView::Return,
            Token::TRUE => TokenView::True,
            Token::FALSE => TokenView::False,
        }
    }
}

impl TokenView {
    /// The exact source spelling of the token.
    pub open spec fn spelling(self) -> Seq<char> {
        match self {
            TokenView::Ident(s) => s,
            TokenView::Int(s) => s,
            TokenView::Assign => seq!['='],
            TokenView::Plus => seq!['+'],
            TokenView::Bang => seq!['!'],
            TokenView::Minus => seq!['-'],
            TokenView::Slash => seq!['/'],
            TokenView::Lt => seq!['<'],
            TokenView::Gt => seq!['>'],
            TokenView::Asterisk => seq!['*'],
            TokenView::Eq => seq!['=', '='],
            TokenView::NotEq => seq!['!', '='],
            TokenView::Comma => seq![','],
            TokenView::Semicolon => seq![';'],
            TokenView::LParen => seq!['('],
            TokenView::RParen => seq![')'],
            TokenView::LBrace => seq!['{'],
            TokenView::RBrace => seq!['}'],
            TokenView::Function => seq!['f', 'n'],
            TokenView::Let => seq!['l', 'e', 't'],
            TokenView::If => seq!['i', 'f'],
            TokenView::Else => seq!['e', 'l', 's', 'e'],
            TokenView::Return => seq!['r', 'e', 't', 'u', 'r', 'n'],
            TokenView::True => seq!['t', 'r', 'u', 'e'],
            TokenView::False => seq!['f', 'a', 'l', 's', 'e'],
        }
    }
}

/// The keyword spelled exactly by `s`, if any.
pub open spec fn keyword(s: Seq<char>) -> Option<TokenView> {
    if s == TokenView::Let.spelling() {
        Some(TokenView::Let)
    } else if s == TokenView::Function.spelling() {
        Some(TokenView::Function)
    } else if s == TokenView::If.spelling() {
        Some(TokenView::If)
    } else if s == TokenView::Else.spelling() {
        Some(TokenView::Else)
    } else if s == TokenView::True.spelling() {
        Some(TokenView::True)
    } else if s == TokenView::False.spelling() {
        Some(TokenView::False)
    } else if s == TokenView::Return.spelling() {
        Some(TokenView::Return)
    } else {
        None
    }
}

/// The token that a run of identifier characters stands for: its keyword,
/// or else an identifier holding the run.
pub open spec fn word(s: Seq<char>) -> TokenView {
    match keyword(s) {
        Some(k) => k,
        None => TokenView::Ident(s),
    }
}

/// Whether `s` spells exactly the characters of `lit`.
fn spells(s: &String, lit: &str) -> (r: bool)
    ensures
        r == (s@ == lit@),
{
    let t = s.as_str();
    let n = t.unicode_len();
    if n != lit.unicode_len() {
        return false;
    }
    let mut i: usize = 0;
    while i < n
        invariant
            t@ == s@,
            n == s@.len() == lit@.len(),
            i <= n,
            s@.subrange(0, i as int) == lit@.subrange(0, i as int),
        decreases n - i,
    {
        if t.get_char(i) != lit.get_char(i) {
            assert(s@[i as int] != lit@[i as int]);
            assert(s@ != lit@);
            return false;
        }
        assert(s@.subrange(0, i + 1) == s@.subrange(0, i as int).push(s@[i as int]));
        assert(lit@.subrange(0, i + 1) == lit@.subrange(0, i as int).push(lit@[i as int]));
        i += 1;
    }
    assert(s@ == s@.subrange(0, n as int));
    assert(lit@ == lit@.subrange(0, n as int));
    true
}

impl Token {
    /// Resolves a run of identifier characters: a keyword's own token when
    /// the run spells one exactly, an identifier holding the run otherwise.
    pub fn ident_from_string(input: String) -> (r: Token)
        ensures
            r@ == word(input@),
    {
        proof {
            reveal_strlit("let");
            reveal_strlit("fn");
            reveal_strlit("if");
            reveal_strlit("else");
            reveal_strlit("true");
            reveal_strlit("false");
            reveal_strlit("return");
            assert("let"@ =~= TokenView::Let.spelling());
            assert("fn"@ =~= TokenView::Function.spelling());
            assert("if"@ =~= TokenView::If.spelling());
            assert("else"@ =~= TokenView::Else.spelling());
            assert("true"@ =~= TokenView::True.spelling());
            assert("false"@ =~= TokenView::False.spelling());
            assert("return"@ =~= TokenView::Return.spelling());
        }
        if spells(&input, "let") {
            Token::LET
        } else if spells(&input, "fn") {
            Token::FUNCTION
        } else if spells(&input, "if") {
            Token::IF
        } else if spells(&input, "else") {
            Token::ELSE
        } else if spells(&input, "true") {
            Token::TRUE
        } else if spells(&input, "false") {
            Token::FALSE
        } else if spells(&input, "return") {
            Token::RETURN
        } else {
            Token::IDENT(input)
        }
    }

    /// The exact source spelling of the token.
    pub fn literal(&self) -> (r: String)
        ensures
            r@ == self@.spelling(),
    {
        let fixed: &str = match self {
            Token::IDENT(s) => {
                return s.clone();
            },
            Token::INT(s) => {
                return s.clone();
            },
            Token::ASSIGN => "=",
            Token::PLUS => "+",
            Token::BANG => "!",
            Token::MINUS => "-",
            Token::SLASH => "/",
            Token::LT => "<",
            Token::GT => ">",
            Token::ASTERISK => "*",
            Token::EQ => "==",
            Token::NOT_EQ => "!=",
            Token::COMMA => ",",
            Token::SEMICOLON => ";",
            Token::LPAREN => "(",
            Token::RPAREN => ")",
            Token::LBRACE => "{",
            Token::RBRACE => "}",
            Token::FUNCTION => "fn",
            Token::LET => "let",
            Token::IF => "if",
            Token::ELSE => "else",
            Token::RETURN => "return",
            Token::TRUE => "true",
            Token::FALSE => "false",
        };
        proof {
            reveal_strlit("=");
            reveal_strlit("+");
            reveal_strlit("!");
            reveal_strlit("-");
            reveal_strlit("/");
            reveal_strlit("<");
            reveal_strlit(">");
            reveal_strlit("*");
            reveal_strlit("==");
            reveal_strlit("!=");
            reveal_strlit(",");
            reveal_strlit(";");
            reveal_strlit("(");
            reveal_strlit(")");
            reveal_strlit("{");
            reveal_strlit("}");
            reveal_strlit("fn");
            reveal_strlit("let");
            reveal_strlit("if");
            reveal_strlit("else");
            reveal_strlit("return");
            reveal_strlit("true");
            reveal_strlit("false");
        }
        String::from_str(fixed)
    }
}

} // verus!
