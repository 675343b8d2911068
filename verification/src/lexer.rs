//! The lexer engine: a single-pass, one-character-lookahead scanner
//! that turns source text into tokens, one per call.
//!
//! The scan is specified by [`next_token_spec`], a mathematical step
//! function from a cursor position to the token found there and the
//! position after it; [`Lexer::next_token`] is proved to follow it.

use vstd::prelude::*;

use crate::is_digit;
use crate::is_digit_char;
use crate::is_letter;
use crate::is_letter_char;
use crate::is_whitespace_char;
use crate::token::Token;
use crate::token::TokenType;
use crate::token::TokenView;
use crate::token::look_up_ident;
use crate::token::word_kind;

verus! {

/// The character at position `i` of `s`, or the NUL sentinel once `i`
/// is past the end. The scanner reads its input only through this.
pub open spec fn char_at(s: Seq<char>, i: int) -> char {
    if 0 <= i && i < s.len() {
        s[i]
    } else {
        '\0'
    }
}

/// One cursor step: the position moves right by one until it rests at
/// the end of the input, where it saturates.
pub open spec fn advance(s: Seq<char>, pos: int) -> int {
    if pos < s.len() {
        pos + 1
    } else {
        pos
    }
}

/// The first position at or after `pos` holding no whitespace
/// character: where classification of the next token starts.
pub open spec fn skip_ws(s: Seq<char>, pos: int) -> int
    decreases s.len() - pos,
{
    if 0 <= pos && pos < s.len() && is_whitespace_char(s[pos]) {
        skip_ws(s, pos + 1)
    } else {
        pos
    }
}

/// The end of the maximal run of letters and underscores starting at
/// `pos`: the first position at or after `pos` that holds none.
pub open spec fn letter_run_end(s: Seq<char>, pos: int) -> int
    decreases s.len() - pos,
{
    if 0 <= pos && pos < s.len() && is_letter_char(s[pos]) {
        letter_run_end(s, pos + 1)
    } else {
        pos
    }
}

/// The end of the maximal run of decimal digits starting at `pos`.
pub open spec fn digit_run_end(s: Seq<char>, pos: int) -> int
    decreases s.len() - pos,
{
    if 0 <= pos && pos < s.len() && is_digit_char(s[pos]) {
        digit_run_end(s, pos + 1)
    } else {
        pos
    }
}

/// What one call of [`Lexer::next_token`] does from a given position:
/// the token it returns and the position it leaves the cursor at.
pub struct ScanStep {
    /// The kind of the token found.
    pub kind: TokenType,
    /// The literal text of the token found.
    pub literal: Seq<char>,
    /// The cursor position after the token.
    pub next: int,
}

/// The scanning step function. From position `start`, whitespace is
/// dropped first; then, in priority order: the two-character operators
/// `==` and `!=` (one character of lookahead, consumed only on a
/// match), the single-character operators and delimiters, the NUL
/// sentinel as end of input, maximal letter runs classified through
/// the keyword table, maximal digit runs as integer literals, and any
/// other character as one `ILLEGAL` token.
pub open spec fn next_token_spec(input: Seq<char>, start: int) -> ScanStep {
    let pos: int = skip_ws(input, start);
    let c: char = char_at(input, pos);
    if c == '=' {
        if char_at(input, pos + 1) == '=' {
            ScanStep { kind: TokenType::EQ, literal: "=="@, next: pos + 2 }
        } else {
            ScanStep { kind: TokenType::ASSIGN, literal: "="@, next: pos + 1 }
        }
    } else if c == ';' {
        ScanStep { kind: TokenType::SEMICOLON, literal: ";"@, next: pos + 1 }
    } else if c == '(' {
        ScanStep { kind: TokenType::LPAREN, literal: "("@, next: pos + 1 }
    } else if c == ')' {
        ScanStep { kind: TokenType::RPAREN, literal: ")"@, next: pos + 1 }
    } else if c == ',' {
        ScanStep { kind: TokenType::COMMA, literal: ","@, next: pos + 1 }
    } else if c == '+' {
        ScanStep { kind: TokenType::PLUS, literal: "+"@, next: pos + 1 }
    } else if c == '-' {
        ScanStep { kind: TokenType::MINUS, literal: "-"@, next: pos + 1 }
    } else if c == '!' {
        if char_at(input, pos + 1) == '=' {
            ScanStep { kind: TokenType::NOT_EQ, literal: "!="@, next: pos + 2 }
        } else {
            ScanStep { kind: TokenType::BANG, literal: "!"@, next: pos + 1 }
        }
    } else if c == '/' {
        ScanStep { kind: TokenType::SLASH, literal: "/"@, next: pos + 1 }
    } else if c == '*' {
        ScanStep { kind: TokenType::ASTERISK, literal: "*"@, next: pos + 1 }
    } else if c == '<' {
        ScanStep { kind: TokenType::LT, literal: "<"@, next: pos + 1 }
    } else if c == '>' {
        ScanStep { kind: TokenType::GT, literal: ">"@, next: pos + 1 }
    } else if c == '{' {
        ScanStep { kind: TokenType::LBRACE, literal: "{"@, next: pos + 1 }
    } else if c == '}' {
        ScanStep { kind: TokenType::RBRACE, literal: "}"@, next: pos + 1 }
    } else if c == '\0' {
        ScanStep { kind: TokenType::EOF, literal: "\0"@, next: advance(input, pos) }
    } else if is_letter_char(c) {
        let run_end: int = letter_run_end(input, pos);
        let lit: Seq<char> = input.subrange(pos, run_end);
        ScanStep { kind: word_kind(lit), literal: lit, next: run_end }
    } else if is_digit_char(c) {
        let run_end: int = digit_run_end(input, pos);
        ScanStep { kind: TokenType::INT, literal: input.subrange(pos, run_end), next: run_end }
    } else {
        ScanStep { kind: TokenType::ILLEGAL, literal: seq![c], next: pos + 1 }
    }
}

/// Dropping whitespace moves the cursor neither backwards nor past
/// the end of the input.
pub proof fn lemma_skip_ws_bounds(s: Seq<char>, pos: int)
    requires
        0 <= pos <= s.len(),
    ensures
        pos <= skip_ws(s, pos) <= s.len(),
    decreases s.len() - pos,
{
    if pos < s.len() && is_whitespace_char(s[pos]) {
        lemma_skip_ws_bounds(s, pos + 1);
    }
}

/// The maximal letter run starting at `pos` lies inside the input, is
/// non-empty exactly when a letter stands at `pos`, consists of
/// letters throughout, and is maximal: no letter follows it.
pub proof fn lemma_letter_run(s: Seq<char>, pos: int)
    requires
        0 <= pos <= s.len(),
    ensures
        pos <= letter_run_end(s, pos) <= s.len(),
        is_letter_char(char_at(s, pos)) <==> pos < letter_run_end(s, pos),
        forall|i: int| pos <= i < letter_run_end(s, pos) ==> is_letter_char(s[i]),
        !is_letter_char(char_at(s, letter_run_end(s, pos))),
    decreases s.len() - pos,
{
    if pos < s.len() && is_letter_char(s[pos]) {
        lemma_letter_run(s, pos + 1);
    }
}

/// The digit analogue of [`lemma_letter_run`].
pub proof fn lemma_digit_run(s: Seq<char>, pos: int)
    requires
        0 <= pos <= s.len(),
    ensures
        pos <= digit_run_end(s, pos) <= s.len(),
        is_digit_char(char_at(s, pos)) <==> pos < digit_run_end(s, pos),
        forall|i: int| pos <= i < digit_run_end(s, pos) ==> is_digit_char(s[i]),
        !is_digit_char(char_at(s, digit_run_end(s, pos))),
    decreases s.len() - pos,
{
    if pos < s.len() && is_digit_char(s[pos]) {
        lemma_digit_run(s, pos + 1);
    }
}

/// Totality and progress of the scan: from every position of every
/// input the step function yields a token, leaves the cursor inside
/// the input, and stands still only when it returns the end-of-file
/// token at the end of the input.
pub proof fn lemma_next_token_progress(input: Seq<char>, pos: int)
    requires
        0 <= pos <= input.len(),
    ensures
        ({
            let st = next_token_spec(input, pos);
            &&& pos <= st.next <= input.len()
            &&& (st.kind != TokenType::EOF ==> pos < st.next)
        }),
{
    lemma_skip_ws_bounds(input, pos);
    lemma_letter_run(input, skip_ws(input, pos));
    lemma_digit_run(input, skip_ws(input, pos));
}

/// The whole token stream of `input` scanned from `pos`: one step
/// after another, up to and including the first end-of-file token.
pub open spec fn tokens_spec(input: Seq<char>, pos: int) -> Seq<TokenView>
    decreases input.len() - pos,
        when 0 <= pos <= input.len()
        via tokens_spec_decreases
{
    let step = next_token_spec(input, pos);
    let tok = TokenView { kind: step.kind, literal: step.literal };
    if step.kind == TokenType::EOF {
        seq![tok]
    } else {
        seq![tok] + tokens_spec(input, step.next)
    }
}

#[via_fn]
proof fn tokens_spec_decreases(input: Seq<char>, pos: int) {
    lemma_next_token_progress(input, pos);
}

/// A token stream is never empty and terminates in the end-of-file
/// token, which appears in it exactly once, at the end.
pub proof fn lemma_single_eof(input: Seq<char>, pos: int)
    requires
        0 <= pos <= input.len(),
    ensures
        ({
            let toks = tokens_spec(input, pos);
            &&& toks.len() >= 1
            &&& toks.last().kind == TokenType::EOF
            &&& forall|i: int| 0 <= i < toks.len() - 1 ==> toks[i].kind != TokenType::EOF
        }),
    decreases input.len() - pos,
{
    let st = next_token_spec(input, pos);
    lemma_next_token_progress(input, pos);
    if st.kind != TokenType::EOF {
        lemma_single_eof(input, st.next);
    }
}

/// Whitespace insensitivity: a leading whitespace character changes
/// neither the next token nor the token stream; only the literal
/// characters of the tokens themselves ever reach them.
pub proof fn lemma_whitespace_dropped(input: Seq<char>, pos: int)
    requires
        0 <= pos < input.len(),
        is_whitespace_char(input[pos]),
    ensures
        next_token_spec(input, pos) == next_token_spec(input, pos + 1),
        tokens_spec(input, pos) == tokens_spec(input, pos + 1),
{
    assert(skip_ws(input, pos) == skip_ws(input, pos + 1));
}

/// The terminal state: whenever only whitespace is left, the scan
/// returns the end-of-file token and leaves the cursor at the end.
pub proof fn lemma_eof_at_end(input: Seq<char>, pos: int)
    requires
        0 <= pos <= input.len(),
        skip_ws(input, pos) == input.len(),
    ensures
        next_token_spec(input, pos) == (ScanStep {
            kind: TokenType::EOF,
            literal: "\0"@,
            next: input.len() as int,
        }),
{
}

/// Idempotent end of file: on input free of the NUL sentinel, an
/// end-of-file token is returned only from the terminal state at the
/// end of the input, which the scan then never leaves — every call
/// after the first end-of-file token returns it again, unchanged.
pub proof fn lemma_eof_idempotent(input: Seq<char>, pos: int)
    requires
        0 <= pos <= input.len(),
        forall|i: int| 0 <= i < input.len() ==> input[i] != '\0',
        next_token_spec(input, pos).kind == TokenType::EOF,
    ensures
        next_token_spec(input, pos).next == input.len(),
        next_token_spec(input, input.len() as int) == next_token_spec(input, pos),
        next_token_spec(input, input.len() as int).next == input.len(),
{
    lemma_skip_ws_bounds(input, pos);
    let p: int = skip_ws(input, pos);
    lemma_letter_run(input, p);
    lemma_digit_run(input, p);
    assert(char_at(input, p) == '\0');
    assert(p == input.len());
    assert(skip_ws(input, input.len() as int) == input.len());
    lemma_eof_at_end(input, pos);
    lemma_eof_at_end(input, input.len() as int);
}

/// Maximal munch for words: a token that starts on a letter takes the
/// whole run of letters and underscores — never a prefix of it, and
/// no letter follows it — and its kind comes from the keyword table
/// applied to that whole run.
pub proof fn lemma_maximal_munch(input: Seq<char>, pos: int)
    requires
        0 <= pos <= input.len(),
        is_letter_char(char_at(input, pos)),
    ensures
        ({
            let st = next_token_spec(input, pos);
            &&& pos < st.next <= input.len()
            &&& st.literal == input.subrange(pos, st.next)
            &&& forall|i: int| pos <= i < st.next ==> is_letter_char(input[i])
            &&& !is_letter_char(char_at(input, st.next))
            &&& st.kind == word_kind(st.literal)
        }),
{
    assert(skip_ws(input, pos) == pos);
    lemma_letter_run(input, pos);
}

/// Literal preservation: an identifier or integer token carries
/// exactly the source substring it was scanned from, not a rewriting
/// of it.
pub proof fn lemma_literal_from_source(input: Seq<char>, pos: int)
    requires
        0 <= pos <= input.len(),
    ensures
        ({
            let st = next_token_spec(input, pos);
            (st.kind == TokenType::IDENT || st.kind == TokenType::INT) ==> st.literal
                == input.subrange(skip_ws(input, pos), st.next)
        }),
{
    lemma_skip_ws_bounds(input, pos);
}

/// The mathematical value of a [`Lexer`]: the characters of its input
/// and the cursor position of the next scan.
pub struct LexerView {
    /// The whole input, as scanned character by character.
    pub input: Seq<char>,
    /// The position classification of the next token starts from.
    pub position: int,
}

/// The scanner: an input buffer and a cursor over it. One token is
/// produced per [`Lexer::next_token`] call; the scan never fails.
pub struct Lexer {
    input: String,
    position: usize,
    ch: char,
}

impl View for Lexer {
    type V = LexerView;

    closed spec fn view(&self) -> LexerView {
        LexerView { input: self.input@, position: self.position as int }
    }
}

impl Lexer {
    /// The cursor invariant: the position never passes the end of the
    /// input, and the cached current character is the character there
    /// (the NUL sentinel once the end is reached).
    pub closed spec fn wf(&self) -> bool {
        &&& self.position <= self.input@.len()
        &&& self.ch == char_at(self.input@, self.position as int)
    }

    /// Builds a scanner over `input` with the cursor on its first
    /// character.
    pub fn new(input: String) -> (r: Self)
        ensures
            r.wf(),
            r@.input == input@,
            r@.position == 0,
    {
        let n = input.as_str().unicode_len();
        let ch = if n > 0 {
            input.as_str().get_char(0)
        } else {
            '\0'
        };
        Self { input, position: 0, ch }
    }

    /// Moves the cursor one character right, saturating at the end of
    /// the input, and refreshes the cached current character.
    fn read_char(&mut self)
        requires
            old(self).wf(),
        ensures
            final(self).wf(),
            final(self)@.input == old(self)@.input,
            final(self)@.position == advance(old(self)@.input, old(self)@.position),
    {
        let n = self.input.as_str().unicode_len();
        if self.position < n {
            self.position = self.position + 1;
            self.ch = if self.position < n {
                self.input.as_str().get_char(self.position)
            } else {
                '\0'
            };
        }
    }

    /// Reads the character one past the cursor without moving it; the
    /// NUL sentinel when none is left.
    fn peek_char(&self) -> (c: char)
        requires
            self.wf(),
        ensures
            c == char_at(self@.input, self@.position + 1),
    {
        let n = self.input.as_str().unicode_len();
        if self.position < n && self.position + 1 < n {
            self.input.as_str().get_char(self.position + 1)
        } else {
            '\0'
        }
    }

    /// Drops whitespace greedily; whitespace is never part of a token.
    fn skip_whitespace(&mut self)
        requires
            old(self).wf(),
        ensures
            final(self).wf(),
            final(self)@.input == old(self)@.input,
            final(self)@.position == skip_ws(old(self)@.input, old(self)@.position),
    {
        while self.ch == ' ' || self.ch == '\t' || self.ch == '\n' || self.ch == '\r'
            invariant
                self.wf(),
                self@.input == old(self)@.input,
                skip_ws(self@.input, self@.position) == skip_ws(
                    old(self)@.input,
                    old(self)@.position,
                ),
            decreases self@.input.len() - self@.position,
        {
            self.read_char();
        }
    }

    /// Consumes the maximal run of letters and underscores under the
    /// cursor and returns it as literal text.
    fn read_identifier(&mut self) -> (r: String)
        requires
            old(self).wf(),
        ensures
            final(self).wf(),
            final(self)@.input == old(self)@.input,
            final(self)@.position == letter_run_end(old(self)@.input, old(self)@.position),
            r@ == final(self)@.input.subrange(old(self)@.position, final(self)@.position),
    {
        let start = self.position;
        while is_letter(&self.ch)
            invariant
                self.wf(),
                self@.input == old(self)@.input,
                start <= self@.position,
                letter_run_end(self@.input, self@.position) == letter_run_end(
                    old(self)@.input,
                    old(self)@.position,
                ),
            decreases self@.input.len() - self@.position,
        {
            self.read_char();
        }
        let s = self.input.as_str().substring_char(start, self.position);
        String::from_str(s)
    }

    /// Consumes the maximal run of decimal digits under the cursor and
    /// returns it as literal text.
    fn read_number(&mut self) -> (r: String)
        requires
            old(self).wf(),
        ensures
            final(self).wf(),
            final(self)@.input == old(self)@.input,
            final(self)@.position == digit_run_end(old(self)@.input, old(self)@.position),
            r@ == final(self)@.input.subrange(old(self)@.position, final(self)@.position),
    {
        let start = self.position;
        while is_digit(&self.ch)
            invariant
                self.wf(),
                self@.input == old(self)@.input,
                start <= self@.position,
                digit_run_end(self@.input, self@.position) == digit_run_end(
                    old(self)@.input,
                    old(self)@.position,
                ),
            decreases self@.input.len() - self@.position,
        {
            self.read_char();
        }
        let s = self.input.as_str().substring_char(start, self.position);
        String::from_str(s)
    }

    /// Produces the next token and leaves the cursor after it, exactly
    /// as [`next_token_spec`] says. Total over any input: unrecognized
    /// characters come back as `ILLEGAL` tokens, never as a failure.
    pub fn next_token(&mut self) -> (t: Token)
        requires
            old(self).wf(),
        ensures
            final(self).wf(),
            final(self)@.input == old(self)@.input,
            ({
                let step = next_token_spec(old(self)@.input, old(self)@.position);
                &&& t@.kind == step.kind
                &&& t@.literal == step.literal
                &&& final(self)@.position == step.next
            }),
    {
        self.skip_whitespace();
        let c = self.ch;
        if c == '=' {
            if self.peek_char() == '=' {
                self.read_char();
                self.read_char();
                Token::new(TokenType::EQ, String::from_str("=="))
            } else {
                self.read_char();
                Token::new(TokenType::ASSIGN, String::from_str("="))
            }
        } else if c == ';' {
            self.read_char();
            Token::new(TokenType::SEMICOLON, String::from_str(";"))
        } else if c == '(' {
            self.read_char();
            Token::new(TokenType::LPAREN, String::from_str("("))
        } else if c == ')' {
            self.read_char();
            Token::new(TokenType::RPAREN, String::from_str(")"))
        } else if c == ',' {
            self.read_char();
            Token::new(TokenType::COMMA, String::from_str(","))
        } else if c == '+' {
            self.read_char();
            Token::new(TokenType::PLUS, String::from_str("+"))
        } else if c == '-' {
            self.read_char();
            Token::new(TokenType::MINUS, String::from_str("-"))
        } else if c == '!' {
            if self.peek_char() == '=' {
                self.read_char();
                self.read_char();
                Token::new(TokenType::NOT_EQ, String::from_str("!="))
            } else {
                self.read_char();
                Token::new(TokenType::BANG, String::from_str("!"))
            }
        } else if c == '/' {
            self.read_char();
            Token::new(TokenType::SLASH, String::from_str("/"))
        } else if c == '*' {
            self.read_char();
            Token::new(TokenType::ASTERISK, String::from_str("*"))
        } else if c == '<' {
            self.read_char();
            Token::new(TokenType::LT, String::from_str("<"))
        } else if c == '>' {
            self.read_char();
            Token::new(TokenType::GT, String::from_str(">"))
        } else if c == '{' {
            self.read_char();
            Token::new(TokenType::LBRACE, String::from_str("{"))
        } else if c == '}' {
            self.read_char();
            Token::new(TokenType::RBRACE, String::from_str("}"))
        } else if c == '\0' {
            self.read_char();
            Token::new(TokenType::EOF, String::from_str("\0"))
        } else if is_letter(&c) {
            let lit = self.read_identifier();
            let kind = match look_up_ident(lit.as_str()) {
                Some(k) => k,
                None => TokenType::IDENT,
            };
            Token::new(kind, lit)
        } else if is_digit(&c) {
            let lit = self.read_number();
            Token::new(TokenType::INT, lit)
        } else {
            let start = self.position;
            self.read_char();
            let s = self.input.as_str().substring_char(start, self.position);
            let lit = String::from_str(s);
            proof {
                assert(lit@ =~= seq![c]);
            }
            Token::new(TokenType::ILLEGAL, lit)
        }
    }
}

} // verus!

