use monkey_lang::is_digit;
use monkey_lang::is_letter;
use monkey_lang::lexer::Lexer;
use monkey_lang::repl::Repl;
use monkey_lang::repl::render_token;
use monkey_lang::repl::tokenize;
use monkey_lang::token::Token;
use monkey_lang::token::TokenType;
use monkey_lang::token::look_up_ident;

fn kinds_and_literals(input: &str) -> Vec<(TokenType, String)> {
    tokenize(String::from(input))
        .iter()
        .map(|t| (t.token_type(), String::from(t.literal())))
        .collect()
}

#[test]
fn totality_over_single_characters() {
    // every single character yields exactly one token and then end of file
    for b in 0u8..=127u8 {
        let c = b as char;
        let mut input = String::new();
        input.push(c);
        let mut lexer = Lexer::new(input);
        let first = lexer.next_token();
        if c == ' ' || c == '\t' || c == '\n' || c == '\r' {
            assert!(first.token_type() == TokenType::EOF);
        } else if c == '\0' {
            assert!(first.token_type() == TokenType::EOF);
        } else {
            assert!(first.token_type() != TokenType::EOF);
            assert!(lexer.next_token().token_type() == TokenType::EOF);
        }
    }
}

#[test]
fn single_character_operators() {
    let cases: [(&str, TokenType); 14] = [
        ("=", TokenType::ASSIGN),
        ("+", TokenType::PLUS),
        ("-", TokenType::MINUS),
        ("!", TokenType::BANG),
        ("*", TokenType::ASTERISK),
        ("/", TokenType::SLASH),
        ("<", TokenType::LT),
        (">", TokenType::GT),
        (",", TokenType::COMMA),
        (";", TokenType::SEMICOLON),
        ("(", TokenType::LPAREN),
        (")", TokenType::RPAREN),
        ("{", TokenType::LBRACE),
        ("}", TokenType::RBRACE),
    ];
    for (text, kind) in cases.iter() {
        let mut lexer = Lexer::new(String::from(*text));
        let token = lexer.next_token();
        assert!(token.token_type() == *kind);
        assert!(token.literal() == *text);
        assert!(lexer.next_token().token_type() == TokenType::EOF);
    }
}

#[test]
fn illegal_characters_degrade_to_tokens() {
    for text in ["@", "$", "#", "?", "&", "|", "^", "~"].iter() {
        let mut lexer = Lexer::new(String::from(*text));
        let token = lexer.next_token();
        assert!(token.token_type() == TokenType::ILLEGAL);
        assert!(token.literal() == *text);
        assert!(lexer.next_token().token_type() == TokenType::EOF);
    }
}

#[test]
fn two_char_disambiguation_assign_alone() {
    let toks = kinds_and_literals("=");
    assert_eq!(toks.len(), 2);
    assert!(toks[0] == (TokenType::ASSIGN, String::from("=")));
    assert!(toks[1].0 == TokenType::EOF);
}

#[test]
fn two_char_disambiguation_equal() {
    let toks = kinds_and_literals("==");
    assert_eq!(toks.len(), 2);
    assert!(toks[0] == (TokenType::EQ, String::from("==")));
    assert!(toks[1].0 == TokenType::EOF);
}

#[test]
fn two_char_disambiguation_lookahead_not_consuming() {
    let toks = kinds_and_literals("=a");
    assert_eq!(toks.len(), 3);
    assert!(toks[0] == (TokenType::ASSIGN, String::from("=")));
    assert!(toks[1] == (TokenType::IDENT, String::from("a")));
    assert!(toks[2].0 == TokenType::EOF);
}

#[test]
fn not_equal_and_bang() {
    let toks = kinds_and_literals("!=!");
    assert_eq!(toks.len(), 3);
    assert!(toks[0] == (TokenType::NOT_EQ, String::from("!=")));
    assert!(toks[1] == (TokenType::BANG, String::from("!")));
    assert!(toks[2].0 == TokenType::EOF);
}

#[test]
fn keyword_vs_identifier_maximal_munch() {
    let toks = kinds_and_literals("let");
    assert!(toks[0] == (TokenType::LET, String::from("let")));
    let toks = kinds_and_literals("letx");
    assert!(toks[0] == (TokenType::IDENT, String::from("letx")));
}

#[test]
fn keyword_table_is_complete() {
    assert!(look_up_ident("fn") == Some(TokenType::FUNCTION));
    assert!(look_up_ident("let") == Some(TokenType::LET));
    assert!(look_up_ident("true") == Some(TokenType::TRUE));
    assert!(look_up_ident("false") == Some(TokenType::FALSE));
    assert!(look_up_ident("if") == Some(TokenType::IF));
    assert!(look_up_ident("else") == Some(TokenType::ELSE));
    assert!(look_up_ident("return") == Some(TokenType::RETURN));
    assert!(look_up_ident("banana") == None);
    assert!(look_up_ident("Let") == None);
    assert!(look_up_ident("") == None);
}

#[test]
fn whitespace_insensitivity() {
    let tight = kinds_and_literals("x+y");
    let spaced = kinds_and_literals("x + y");
    let wild = kinds_and_literals("\t x\n+\r y ");
    let kinds = |v: &Vec<(TokenType, String)>| v.iter().map(|p| p.0).collect::<Vec<_>>();
    assert!(kinds(&tight) == vec![TokenType::IDENT, TokenType::PLUS, TokenType::IDENT, TokenType::EOF]);
    assert!(kinds(&tight) == kinds(&spaced));
    assert!(kinds(&tight) == kinds(&wild));
    assert!(tight[0].1 == "x" && spaced[0].1 == "x" && wild[0].1 == "x");
    assert!(tight[2].1 == "y" && spaced[2].1 == "y" && wild[2].1 == "y");
}

#[test]
fn idempotent_end_of_file() {
    let mut lexer = Lexer::new(String::from("a"));
    assert!(lexer.next_token().token_type() == TokenType::IDENT);
    for _ in 0..4 {
        let token = lexer.next_token();
        assert!(token.token_type() == TokenType::EOF);
        assert!(token.literal() == "\0");
    }
}

#[test]
fn empty_input_is_end_of_file_at_once() {
    let mut lexer = Lexer::new(String::new());
    let token = lexer.next_token();
    assert!(token.token_type() == TokenType::EOF);
    assert!(token.literal() == "\0");
}

#[test]
fn literal_round_trip_preservation() {
    let toks = kinds_and_literals("12345");
    assert!(toks[0] == (TokenType::INT, String::from("12345")));
    let toks = kinds_and_literals("_foo_BAR");
    assert!(toks[0] == (TokenType::IDENT, String::from("_foo_BAR")));
}

#[test]
fn identifiers_do_not_take_digits() {
    // a digit ends the letter run: `x1` is an identifier then an integer
    let toks = kinds_and_literals("x1");
    assert_eq!(toks.len(), 3);
    assert!(toks[0] == (TokenType::IDENT, String::from("x")));
    assert!(toks[1] == (TokenType::INT, String::from("1")));
    assert!(toks[2].0 == TokenType::EOF);
}

#[test]
fn embedded_nul_scans_as_end_of_file_token() {
    // the NUL sentinel is recognized wherever it stands; scanning a
    // buffer that contains one resumes after it, so the saturating
    // terminal state is only reached at the true end of the input
    let mut input = String::from("a");
    input.push('\0');
    input.push('b');
    let mut lexer = Lexer::new(input);
    assert!(lexer.next_token().token_type() == TokenType::IDENT);
    assert!(lexer.next_token().token_type() == TokenType::EOF);
    let token = lexer.next_token();
    assert!(token.token_type() == TokenType::IDENT);
    assert!(token.literal() == "b");
    assert!(lexer.next_token().token_type() == TokenType::EOF);
    assert!(lexer.next_token().token_type() == TokenType::EOF);
}

#[test]
fn tokenize_ends_in_exactly_one_end_of_file() {
    let toks = kinds_and_literals("let x = 5;");
    let kinds: Vec<TokenType> = toks.iter().map(|p| p.0).collect();
    assert!(
        kinds
            == vec![
                TokenType::LET,
                TokenType::IDENT,
                TokenType::ASSIGN,
                TokenType::INT,
                TokenType::SEMICOLON,
                TokenType::EOF,
            ]
    );
    assert_eq!(toks.iter().filter(|p| p.0 == TokenType::EOF).count(), 1);
}

#[test]
fn display_forms_are_fixed() {
    assert_eq!(TokenType::ILLEGAL.display(), "ILLEGAL");
    assert_eq!(TokenType::EOF.display(), "EOF");
    assert_eq!(TokenType::IDENT.display(), "IDENT");
    assert_eq!(TokenType::INT.display(), "INT");
    assert_eq!(TokenType::ASSIGN.display(), "=");
    assert_eq!(TokenType::PLUS.display(), "+");
    assert_eq!(TokenType::MINUS.display(), "-");
    assert_eq!(TokenType::BANG.display(), "!");
    assert_eq!(TokenType::ASTERISK.display(), "*");
    assert_eq!(TokenType::SLASH.display(), "/");
    assert_eq!(TokenType::LT.display(), "<");
    assert_eq!(TokenType::GT.display(), ">");
    assert_eq!(TokenType::EQ.display(), "==");
    assert_eq!(TokenType::NOT_EQ.display(), "!=");
    assert_eq!(TokenType::COMMA.display(), ",");
    assert_eq!(TokenType::SEMICOLON.display(), ";");
    assert_eq!(TokenType::LPAREN.display(), "(");
    assert_eq!(TokenType::RPAREN.display(), ")");
    assert_eq!(TokenType::LBRACE.display(), "{");
    assert_eq!(TokenType::RBRACE.display(), "}");
    assert_eq!(TokenType::FUNCTION.display(), "FUNCTION");
    assert_eq!(TokenType::LET.display(), "LET");
    assert_eq!(TokenType::TRUE.display(), "TRUE");
    assert_eq!(TokenType::FALSE.display(), "FALSE");
    assert_eq!(TokenType::IF.display(), "IF");
    assert_eq!(TokenType::ELSE.display(), "ELSE");
    assert_eq!(TokenType::RETURN.display(), "RETURN");
}

#[test]
fn token_construction_and_getters() {
    let token = Token::new(TokenType::IDENT, String::from("five"));
    assert!(token.token_type() == TokenType::IDENT);
    assert!(token.literal() == "five");
}

#[test]
fn render_token_record() {
    let token = Token::new(TokenType::IDENT, String::from("five"));
    assert_eq!(render_token(&token), "Token ( token_Type: IDENT, literal: five )");
    let token = Token::new(TokenType::ASSIGN, String::from("="));
    assert_eq!(render_token(&token), "Token ( token_Type: =, literal: = )");
}

#[test]
fn is_letter_and_is_digit_edges() {
    assert!(is_letter(&'a') && is_letter(&'z') && is_letter(&'A') && is_letter(&'Z'));
    assert!(is_letter(&'_'));
    assert!(!is_letter(&'0') && !is_letter(&'9'));
    assert!(!is_letter(&'`') && !is_letter(&'[') && !is_letter(&'@') && !is_letter(&'{'));
    assert!(is_digit(&'0') && is_digit(&'9'));
    assert!(!is_digit(&'/') && !is_digit(&':') && !is_digit(&'a'));
}

#[test]
fn repl_pairs_reader_and_writer() {
    let repl: Repl<&[u8], Vec<u8>> = Repl::new(&b"let x = 5;"[..], Vec::new());
    assert_eq!(repl.reader, b"let x = 5;");
    assert!(repl.writer.is_empty());
}
