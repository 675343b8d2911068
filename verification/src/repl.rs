//! The computing half of the interactive driver: draining a whole
//! input into its token stream, and the printed form of one token.
//!
//! Reading lines and writing them out is left to the caller; this
//! module hands it plain values and exact contracts.

use vstd::prelude::*;

use crate::lexer::Lexer;
use crate::lexer::lemma_next_token_progress;
use crate::lexer::next_token_spec;
use crate::lexer::tokens_spec;
use crate::token::Token;
use crate::token::TokenType;
use crate::token::TokenView;
use crate::token::display_spec;

verus! {

/// A read-tokenize-print loop over a line source and an output sink,
/// held as plain values; the loop itself performs input and output
/// and therefore runs outside this library.
pub struct Repl<R, W> {
    /// The line source the loop reads from.
    pub reader: R,
    /// The sink the loop writes token records to.
    pub writer: W,
}

impl<R, W> Repl<R, W> {
    /// Pairs a line source with an output sink.
    pub fn new(reader: R, writer: W) -> (r: Self)
        ensures
            r.reader == reader,
            r.writer == writer,
    {
        Self { reader, writer }
    }
}

/// Scans the whole of `input` into its token stream: every token in
/// source order, ending in the single terminal end-of-file token.
pub fn tokenize(input: String) -> (r: Vec<Token>)
    ensures
        r@.map_values(|t: Token| t@) == tokens_spec(input@, 0),
{
    let ghost gin = input@;
    let mut lexer = Lexer::new(input);
    let mut r: Vec<Token> = Vec::new();
    proof {
        assert(r@.map_values(|t: Token| t@) + tokens_spec(gin, 0) =~= tokens_spec(gin, 0));
    }
    loop
        invariant_except_break
            lexer.wf(),
            lexer@.input == gin,
            0 <= lexer@.position <= gin.len(),
            tokens_spec(gin, 0) == r@.map_values(|t: Token| t@) + tokens_spec(
                gin,
                lexer@.position,
            ),
        ensures
            r@.map_values(|t: Token| t@) == tokens_spec(gin, 0),
        decreases gin.len() - lexer@.position,
    {
        let ghost pos0 = lexer@.position;
        let ghost r0 = r@;
        proof {
            lemma_next_token_progress(gin, pos0);
        }
        let t = lexer.next_token();
        let is_eof = t.token_type() == TokenType::EOF;
        r.push(t);
        proof {
            let step = next_token_spec(gin, pos0);
            assert(t@ == (TokenView { kind: step.kind, literal: step.literal }));
            assert(r@.map_values(|x: Token| x@) =~= r0.map_values(|x: Token| x@) + seq![t@]);
            if is_eof {
                assert(tokens_spec(gin, pos0) == seq![t@]);
                assert(r@.map_values(|x: Token| x@) =~= tokens_spec(gin, 0));
            } else {
                assert(tokens_spec(gin, pos0) == seq![t@] + tokens_spec(gin, step.next));
                assert(tokens_spec(gin, 0) =~= r@.map_values(|x: Token| x@) + tokens_spec(
                    gin,
                    step.next,
                ));
            }
        }
        if is_eof {
            break;
        }
    }
    r
}

/// The printed record of one token, as the interactive driver shows
/// it: the kind's display form and the literal text.
pub open spec fn token_record(t: TokenView) -> Seq<char> {
    "Token ( token_Type: "@ + display_spec(t.kind) + ", literal: "@ + t.literal + " )"@
}

/// Formats one token as its printed record.
pub fn render_token(token: &Token) -> (r: String)
    ensures
        r@ == token_record(token@),
{
    let mut s = String::from_str("Token ( token_Type: ");
    s.append(token.token_type().display());
    s.append(", literal: ");
    s.append(token.literal());
    s.append(" )");
    proof {
        assert(s@ =~= token_record(token@));
    }
    s
}

} // verus!
