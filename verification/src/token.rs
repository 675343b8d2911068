//! The token model: the closed set of token kinds, the keyword table,
//! and the token value a scan produces.

use vstd::prelude::*;

verus! {

/// The kind of a token. Exactly one kind per token; the kind carries
/// no payload, the literal text lives beside it in [`Token`].
#[allow(non_camel_case_types)]
#[derive(Clone, Copy, Debug, Eq, PartialEq, Structural)]
pub enum TokenType {
    /// A character no rule recognizes.
    ILLEGAL,
    /// The end of the input; the terminal token of every scan.
    EOF,
    /// An identifier: a maximal run of letters and underscores.
    IDENT,
    /// An integer literal: a maximal run of decimal digits.
    INT,
    /// `=`
    ASSIGN,
    /// `+`
    PLUS,
    /// `-`
    MINUS,
    /// `!`
    BANG,
    /// `*`
    ASTERISK,
    /// `/`
    SLASH,
    /// `<`
    LT,
    /// `>`
    GT,
    /// `==`
    EQ,
    /// `!=`
    NOT_EQ,
    /// `,`
    COMMA,
    /// `;`
    SEMICOLON,
    /// `(`
    LPAREN,
    /// `)`
    RPAREN,
    /// `{`
    LBRACE,
    /// `}`
    RBRACE,
    /// The keyword `fn`.
    FUNCTION,
    /// The keyword `let`.
    LET,
    /// The keyword `true`.
    TRUE,
    /// The keyword `false`.
    FALSE,
    /// The keyword `if`.
    IF,
    /// The keyword `else`.
    ELSE,
    /// The keyword `return`.
    RETURN,
}

/// The keyword table: the kind reserved for a spelling, or `None` when
/// the spelling is an ordinary identifier.
pub open spec fn keyword_kind(s: Seq<char>) -> Option<TokenType> {
    if s == "fn"@ {
        Some(TokenType::FUNCTION)
    } else if s == "let"@ {
        Some(TokenType::LET)
    } else if s == "true"@ {
        Some(TokenType::TRUE)
    } else if s == "false"@ {
        Some(TokenType::FALSE)
    } else if s == "if"@ {
        Some(TokenType::IF)
    } else if s == "else"@ {
        Some(TokenType::ELSE)
    } else if s == "return"@ {
        Some(TokenType::RETURN)
    } else {
        None
    }
}

/// The kind a scanned word classifies as: its keyword kind if the
/// spelling is reserved, else `IDENT`.
pub open spec fn word_kind(s: Seq<char>) -> TokenType {
    match keyword_kind(s) {
        Some(k) => k,
        None => TokenType::IDENT,
    }
}

/// The fixed display string of a kind, used for diagnostics: the symbol
/// itself for operators and delimiters, the kind's name otherwise.
pub open spec fn display_spec(k: TokenType) -> Seq<char> {
    match k {
        TokenType::ILLEGAL => "ILLEGAL"@,
        TokenType::EOF => "EOF"@,
        TokenType::IDENT => "IDENT"@,
        TokenType::INT => "INT"@,
        TokenType::ASSIGN => "="@,
        TokenType::PLUS => "+"@,
        TokenType::MINUS => "-"@,
        TokenType::BANG => "!"@,
        TokenType::ASTERISK => "*"@,
        TokenType::SLASH => "/"@,
        TokenType::LT => "<"@,
        TokenType::GT => ">"@,
        TokenType::EQ => "=="@,
        TokenType::NOT_EQ => "!="@,
        TokenType::COMMA => ","@,
        TokenType::SEMICOLON => ";"@,
        TokenType::LPAREN => "("@,
        TokenType::RPAREN => ")"@,
        TokenType::LBRACE => "{"@,
        TokenType::RBRACE => "}"@,
        TokenType::FUNCTION => "FUNCTION"@,
        TokenType::LET => "LET"@,
        TokenType::TRUE => "TRUE"@,
        TokenType::FALSE => "FALSE"@,
        TokenType::IF => "IF"@,
        TokenType::ELSE => "ELSE"@,
        TokenType::RETURN => "RETURN"@,
    }
}

impl TokenType {
    /// The display form of this kind, total over all kinds.
    pub fn display(&self) -> (r: &'static str)
        ensures
            r@ == display_spec(*self),
    {
        match self {
            TokenType::ILLEGAL => "ILLEGAL",
            TokenType::EOF => "EOF",
            TokenType::IDENT => "IDENT",
            TokenType::INT => "INT",
            TokenType::ASSIGN => "=",
            TokenType::PLUS => "+",
            TokenType::MINUS => "-",
            TokenType::BANG => "!",
            TokenType::ASTERISK => "*",
            TokenType::SLASH => "/",
            TokenType::LT => "<",
            TokenType::GT => ">",
            TokenType::EQ => "==",
            TokenType::NOT_EQ => "!=",
            TokenType::COMMA => ",",
            TokenType::SEMICOLON => ";",
            TokenType::LPAREN => "(",
            TokenType::RPAREN => ")",
            TokenType::LBRACE => "{",
            TokenType::RBRACE => "}",
            TokenType::FUNCTION => "FUNCTION",
            TokenType::LET => "LET",
            TokenType::TRUE => "TRUE",
            TokenType::FALSE => "FALSE",
            TokenType::IF => "IF",
            TokenType::ELSE => "ELSE",
            TokenType::RETURN => "RETURN",
        }
    }
}

/// Compares two string slices character by character.
fn str_eq(a: &str, b: &str) -> (r: bool)
    ensures
        r == (a@ == b@),
{
    let a_len = a.unicode_len();
    let b_len = b.unicode_len();
    if a_len != b_len {
        return false;
    }
    let mut i: usize = 0;
    while i < a_len
        invariant
            a_len == a@.len(),
            b_len == b@.len(),
            a_len == b_len,
            i <= a_len,
            forall|j: int| 0 <= j < i ==> a@[j] == b@[j],
        decreases a_len - i,
    {
        if a.get_char(i) != b.get_char(i) {
            return false;
        }
        i = i + 1;
    }
    proof {
        assert(a@ =~= b@);
    }
    true
}

/// Looks up a scanned word in the keyword table: the reserved kind if
/// the spelling is a keyword, else `None`.
pub fn look_up_ident(ident: &str) -> (r: Option<TokenType>)
    ensures
        r == keyword_kind(ident@),
{
    if str_eq(ident, "fn") {
        Some(TokenType::FUNCTION)
    } else if str_eq(ident, "let") {
        Some(TokenType::LET)
    } else if str_eq(ident, "true") {
        Some(TokenType::TRUE)
    } else if str_eq(ident, "false") {
        Some(TokenType::FALSE)
    } else if str_eq(ident, "if") {
        Some(TokenType::IF)
    } else if str_eq(ident, "else") {
        Some(TokenType::ELSE)
    } else if str_eq(ident, "return") {
        Some(TokenType::RETURN)
    } else {
        None
    }
}

/// The mathematical value of a [`Token`]: its kind and the characters
/// of its literal.
pub struct TokenView {
    /// The token's kind.
    pub kind: TokenType,
    /// The token's literal text.
    pub literal: Seq<char>,
}

/// An immutable lexical unit: a kind together with the literal text it
/// was scanned from.
#[derive(PartialEq, Eq)]
pub struct Token {
    token_type: TokenType,
    literal: String,
}

impl View for Token {
    type V = TokenView;

    closed spec fn view(&self) -> TokenView {
        TokenView { kind: self.token_type, literal: self.literal@ }
    }
}

impl Token {
    /// Builds a token from a kind and its literal text.
    pub fn new(token_type: TokenType, literal: String) -> (r: Self)
        ensures
            r@.kind == token_type,
            r@.literal == literal@,
    {
        Self { token_type, literal }
    }

    /// The token's kind.
    pub fn token_type(&self) -> (r: TokenType)
        ensures
            r == self@.kind,
    {
        self.token_type
    }

    /// The token's literal text.
    pub fn literal(&self) -> (r: &str)
        ensures
            r@ == self@.literal,
    {
        self.literal.as_str()
    }
}

} // verus!
