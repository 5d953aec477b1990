use rusty::lexer::{Lexer, LexerError};
use rusty::token::Token;

#[test]
fn test_next_token() {
    let input = r#"let five = 5;
        let ten = 10;

        let add = fn(x, y) {
            x + y;
        };

        let result = add(five, ten);
        !-/*5;
        5 < 10 > 5;

        10 == 10;
        10 != 9;

        if (5 < 10) {
            return true;
        } else {
            return false;
        }"#;

    let expected = [
        Ok(Token::LET),
        Ok(Token::IDENT("five".to_string())),
        Ok(Token::ASSIGN),
        Ok(Token::INT("5".to_string())),
        Ok(Token::SEMICOLON),
        Ok(Token::LET),
        Ok(Token::IDENT("ten".to_string())),
        Ok(Token::ASSIGN),
        Ok(Token::INT("10".to_string())),
        Ok(Token::SEMICOLON),
        Ok(Token::LET),
        Ok(Token::IDENT("add".to_string())),
        Ok(Token::ASSIGN),
        Ok(Token::FUNCTION),
        Ok(Token::LPAREN),
        Ok(Token::IDENT("x".to_string())),
        Ok(Token::COMMA),
        Ok(Token::IDENT("y".to_string())),
        Ok(Token::RPAREN),
        Ok(Token::LBRACE),
        Ok(Token::IDENT("x".to_string())),
        Ok(Token::PLUS),
        Ok(Token::IDENT("y".to_string())),
        Ok(Token::SEMICOLON),
        Ok(Token::RBRACE),
        Ok(Token::SEMICOLON),
        Ok(Token::LET),
        Ok(Token::IDENT("result".to_string())),
        Ok(Token::ASSIGN),
        Ok(Token::IDENT("add".to_string())),
        Ok(Token::LPAREN),
        Ok(Token::IDENT("five".to_string())),
        Ok(Token::COMMA),
        Ok(Token::IDENT("ten".to_string())),
        Ok(Token::RPAREN),
        Ok(Token::SEMICOLON),
        Ok(Token::BANG),
        Ok(Token::MINUS),
        Ok(Token::SLASH),
        Ok(Token::ASTERISK),
        Ok(Token::INT("5".to_string())),
        Ok(Token::SEMICOLON),
        Ok(Token::INT("5".to_string())),
        Ok(Token::LT),
        Ok(Token::INT("10".to_string())),
        Ok(Token::GT),
        Ok(Token::INT("5".to_string())),
        Ok(Token::SEMICOLON),
        Ok(Token::INT("10".to_string())),
        Ok(Token::EQ),
        Ok(Token::INT("10".to_string())),
        Ok(Token::SEMICOLON),
        Ok(Token::INT("10".to_string())),
        Ok(Token::NOT_EQ),
        Ok(Token::INT("9".to_string())),
        Ok(Token::SEMICOLON),
        Ok(Token::IF),
        Ok(Token::LPAREN),
        Ok(Token::INT("5".to_string())),
        Ok(Token::LT),
        Ok(Token::INT("10".to_string())),
        Ok(Token::RPAREN),
        Ok(Token::LBRACE),
        Ok(Token::RETURN),
        Ok(Token::TRUE),
        Ok(Token::SEMICOLON),
        Ok(Token::RBRACE),
        Ok(Token::ELSE),
        Ok(Token::LBRACE),
        Ok(Token::RETURN),
        Ok(Token::FALSE),
        Ok(Token::SEMICOLON),
        Ok(Token::RBRACE),
        Err(LexerError::EOF),
    ];

    let mut lexer = Lexer::new(input.to_string());

    for (i, tt) in expected.iter().enumerate() {
        let token = lexer.next_token();

        if token != *tt {
            println!("Failed: [{i}], expected: {:?}, got: {:?}", tt, token);
            assert!(false)
        }
    }
}

fn lex_all(input: &str) -> Vec<Result<Token, LexerError>> {
    let mut lexer = Lexer::new(input.to_string());
    let mut out = Vec::new();
    loop {
        let r = lexer.next_token();
        let done = r == Err(LexerError::EOF);
        out.push(r);
        if done || out.len() > 100 {
            return out;
        }
    }
}

fn ident(s: &str) -> Result<Token, LexerError> {
    Ok(Token::IDENT(s.to_string()))
}

fn integer(s: &str) -> Result<Token, LexerError> {
    Ok(Token::INT(s.to_string()))
}

#[test]
fn whitespace_only_gives_end_of_input() {
    for input in ["", " ", "\t\n  \r\n", "\u{A0}\u{2003}"] {
        let mut lexer = Lexer::new(input.to_string());
        assert_eq!(lexer.next_token(), Err(LexerError::EOF));
    }
}

#[test]
fn single_characters_then_end_forever() {
    let cases = [
        ('=', Token::ASSIGN),
        ('+', Token::PLUS),
        ('-', Token::MINUS),
        ('!', Token::BANG),
        ('/', Token::SLASH),
        ('*', Token::ASTERISK),
        ('<', Token::LT),
        ('>', Token::GT),
        (',', Token::COMMA),
        (';', Token::SEMICOLON),
        ('(', Token::LPAREN),
        (')', Token::RPAREN),
        ('{', Token::LBRACE),
        ('}', Token::RBRACE),
    ];
    for (c, tok) in cases {
        let mut lexer = Lexer::new(c.to_string());
        assert_eq!(lexer.next_token(), Ok(tok));
        for _ in 0..3 {
            assert_eq!(lexer.next_token(), Err(LexerError::EOF));
        }
    }
}

#[test]
fn two_character_operators_win() {
    assert_eq!(lex_all("=="), vec![Ok(Token::EQ), Err(LexerError::EOF)]);
    assert_eq!(lex_all("!="), vec![Ok(Token::NOT_EQ), Err(LexerError::EOF)]);
    assert_eq!(lex_all("="), vec![Ok(Token::ASSIGN), Err(LexerError::EOF)]);
    assert_eq!(lex_all("!"), vec![Ok(Token::BANG), Err(LexerError::EOF)]);
    assert_eq!(
        lex_all("= ="),
        vec![Ok(Token::ASSIGN), Ok(Token::ASSIGN), Err(LexerError::EOF)]
    );
    assert_eq!(
        lex_all("!=="),
        vec![Ok(Token::NOT_EQ), Ok(Token::ASSIGN), Err(LexerError::EOF)]
    );
}

#[test]
fn keywords_resolve_exactly() {
    let cases = [
        ("let", Token::LET),
        ("fn", Token::FUNCTION),
        ("if", Token::IF),
        ("else", Token::ELSE),
        ("return", Token::RETURN),
        ("true", Token::TRUE),
        ("false", Token::FALSE),
    ];
    for (text, tok) in cases {
        assert_eq!(lex_all(text), vec![Ok(tok), Err(LexerError::EOF)]);
    }
    for text in ["lett", "iff", "truex", "Let", "f", "_if"] {
        assert_eq!(lex_all(text), vec![ident(text), Err(LexerError::EOF)]);
    }
}

#[test]
fn ident_from_string_resolves_keywords() {
    assert_eq!(Token::ident_from_string("return".to_string()), Token::RETURN);
    assert_eq!(Token::ident_from_string("fn".to_string()), Token::FUNCTION);
    assert_eq!(
        Token::ident_from_string("returns".to_string()),
        Token::IDENT("returns".to_string())
    );
    assert_eq!(Token::ident_from_string(String::new()), Token::IDENT(String::new()));
}

#[test]
fn numeric_runs() {
    assert_eq!(lex_all("12345"), vec![integer("12345"), Err(LexerError::EOF)]);
    assert_eq!(
        lex_all("12 34"),
        vec![integer("12"), integer("34"), Err(LexerError::EOF)]
    );
    assert_eq!(
        lex_all("-7"),
        vec![Ok(Token::MINUS), integer("7"), Err(LexerError::EOF)]
    );
}

#[test]
fn literal_spells_each_token() {
    let input = "let fn if else return true false x_y 42 = + - ! / * < > == != , ; ( ) { }";
    let mut lexer = Lexer::new(input.to_string());
    let mut spelled = Vec::new();
    while let Ok(tok) = lexer.next_token() {
        spelled.push(tok.literal());
    }
    let expected: Vec<String> = input.split(' ').map(|s| s.to_string()).collect();
    assert_eq!(spelled, expected);
}

#[test]
fn literal_of_fixed_and_carried_text() {
    assert_eq!(Token::NOT_EQ.literal(), "!=");
    assert_eq!(Token::RETURN.literal(), "return");
    assert_eq!(Token::IDENT("abc".to_string()).literal(), "abc");
    assert_eq!(Token::INT("907".to_string()).literal(), "907");
}

#[test]
fn illegal_character_is_reported_and_stays() {
    assert_eq!(lex_all("@")[0], Err(LexerError::Illegal('@')));
    let mut lexer = Lexer::new("x $".to_string());
    assert_eq!(lexer.next_token(), ident("x"));
    assert_eq!(lexer.next_token(), Err(LexerError::Illegal('$')));
    assert_eq!(lexer.next_token(), Err(LexerError::Illegal('$')));
    assert_eq!(lex_all("#")[0], Err(LexerError::Illegal('#')));
}

#[test]
fn let_statement_scenario() {
    assert_eq!(
        lex_all("let x = 5;"),
        vec![
            Ok(Token::LET),
            ident("x"),
            Ok(Token::ASSIGN),
            integer("5"),
            Ok(Token::SEMICOLON),
            Err(LexerError::EOF),
        ]
    );
}

#[test]
fn not_equal_scenario() {
    assert_eq!(
        lex_all("10 != 9;"),
        vec![
            integer("10"),
            Ok(Token::NOT_EQ),
            integer("9"),
            Ok(Token::SEMICOLON),
            Err(LexerError::EOF),
        ]
    );
}

#[test]
fn unicode_letters_digits_and_spaces() {
    assert_eq!(
        lex_all("été\u{A0}٣٤ _x9"),
        vec![ident("été"), integer("٣٤"), ident("_x"), integer("9"), Err(LexerError::EOF)]
    );
    assert_eq!(lex_all("💝")[0], Err(LexerError::Illegal('💝')));
}

#[test]
fn identifier_stops_at_operator() {
    assert_eq!(
        lex_all("add(a,b)"),
        vec![
            ident("add"),
            Ok(Token::LPAREN),
            ident("a"),
            Ok(Token::COMMA),
            ident("b"),
            Ok(Token::RPAREN),
            Err(LexerError::EOF),
        ]
    );
}
