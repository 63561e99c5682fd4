//! The matchers that look at one token.
//!
//! Each takes the token slice and a start index. It either accepts the token
//! at that index and returns it with the next index, or reports a mismatch
//! at the start index. None of them looks past that one token.

use crate::error::{ParseError, ParseErrorView, ParseResult};
use crate::text::{expected_found, expected_found_message, expected_punct, expected_punct_message};
use crate::token::{stream_view, Group, Ident, Literal, Punct, Token, TokenView};
use vstd::prelude::*;

verus! {

/// What a single-token matcher looks for.
pub enum Matcher {
    /// The punctuation character given.
    Punct(char),
    /// Any identifier.
    Ident,
    /// The identifier with exactly the text given.
    IdentMatch(Seq<char>),
    /// Any literal.
    Literal,
    /// Any delimited group.
    Group,
}

impl Matcher {
    /// Whether the matcher accepts `token`.
    pub open spec fn accepts(self, token: TokenView) -> bool {
        match self {
            Matcher::Punct(ch) => token matches TokenView::Punct(p) && p.ch == ch,
            Matcher::Ident => token is Ident,
            Matcher::IdentMatch(name) => token matches TokenView::Ident(i) && i.name == name,
            Matcher::Literal => token is Literal,
            Matcher::Group => token is Group,
        }
    }

    /// Whether `input` has a token at `start` and the matcher accepts it.
    pub open spec fn accepts_at(self, input: Seq<TokenView>, start: usize) -> bool {
        start < input.len() && self.accepts(input[start as int])
    }

    /// The message of the matcher's failure on `input` at `start`.
    pub open spec fn message(self, input: Seq<TokenView>, start: usize) -> Seq<char> {
        match self {
            Matcher::Punct(ch) => expected_punct(ch),
            Matcher::Ident => "expected identifier"@,
            Matcher::IdentMatch(name) => if start < input.len()
                && input[start as int] is Ident {
                expected_found(name, input[start as int]->Ident_0.name)
            } else {
                "expected identifier"@
            },
            Matcher::Literal => "expected literal"@,
            Matcher::Group => "expected group"@,
        }
    }

    /// The error of the matcher's failure on `input` at `start`: a mismatch
    /// at the start index.
    pub open spec fn failure(self, input: Seq<TokenView>, start: usize) -> ParseErrorView {
        ParseErrorView::Mismatch { message: self.message(input, start), position: start }
    }
}

/// Succeeds without consuming a token and returns a clone of `value`.
pub fn unit<I, A: Clone>(value: A, input: &[I], start: usize) -> (r: ParseResult<A>)
    ensures
        r matches Ok((v, next)) && cloned(value, v) && next == start,
{
    Ok((value.clone(), start))
}

/// Accepts the punctuation character `ch` at `start` and returns that token.
pub fn punct(ch: char, input: &[Token], start: usize) -> (r: ParseResult<Punct>)
    ensures
        r is Ok <==> Matcher::Punct(ch).accepts_at(stream_view(input@), start),
        r matches Ok((p, next)) ==> stream_view(input@)[start as int] == TokenView::Punct(p)
            && next == start + 1,
        r matches Err(e) ==> e@ == Matcher::Punct(ch).failure(stream_view(input@), start),
{
    if start < input.len() {
        if let Token::Punct(p) = &input[start] {
            if p.ch == ch {
                return Ok((*p, start + 1));
            }
        }
    }
    Err(ParseError::Mismatch { message: expected_punct_message(ch), position: start })
}

/// Accepts an identifier at `start` and returns that token.
pub fn ident(input: &[Token], start: usize) -> (r: ParseResult<Ident>)
    ensures
        r is Ok <==> Matcher::Ident.accepts_at(stream_view(input@), start),
        r matches Ok((i, next)) ==> stream_view(input@)[start as int] == TokenView::Ident(i@)
            && next == start + 1,
        r matches Err(e) ==> e@ == Matcher::Ident.failure(stream_view(input@), start),
{
    if start < input.len() {
        if let Token::Ident(i) = &input[start] {
            return Ok((i.clone(), start + 1));
        }
    }
    Err(
        ParseError::Mismatch {
            message: String::from_str("expected identifier"),
            position: start,
        },
    )
}

/// Accepts the identifier whose text is exactly `name` at `start`.
pub fn ident_match(name: String, input: &[Token], start: usize) -> (r: ParseResult<()>)
    ensures
        r is Ok <==> Matcher::IdentMatch(name@).accepts_at(stream_view(input@), start),
        r matches Ok((_, next)) ==> next == start + 1,
        r matches Err(e) ==> e@ == Matcher::IdentMatch(name@).failure(
            stream_view(input@),
            start,
        ),
{
    if start < input.len() {
        if let Token::Ident(i) = &input[start] {
            if i.name == name {
                return Ok(((), start + 1));
            } else {
                return Err(
                    ParseError::Mismatch {
                        message: expected_found_message(name.as_str(), i.name.as_str()),
                        position: start,
                    },
                );
            }
        }
    }
    Err(
        ParseError::Mismatch {
            message: String::from_str("expected identifier"),
            position: start,
        },
    )
}

/// Accepts a literal at `start` and returns that token.
pub fn literal(input: &[Token], start: usize) -> (r: ParseResult<Literal>)
    ensures
        r is Ok <==> Matcher::Literal.accepts_at(stream_view(input@), start),
        r matches Ok((l, next)) ==> stream_view(input@)[start as int] == TokenView::Literal(l@)
            && next == start + 1,
        r matches Err(e) ==> e@ == Matcher::Literal.failure(stream_view(input@), start),
{
    if start < input.len() {
        if let Token::Literal(l) = &input[start] {
            return Ok((l.clone(), start + 1));
        }
    }
    Err(ParseError::Mismatch { message: String::from_str("expected literal"), position: start })
}

/// Accepts a delimited group at `start` and returns that token, with its
/// delimiter and the tokens inside it.
pub fn group(input: &[Token], start: usize) -> (r: ParseResult<Group>)
    ensures
        r is Ok <==> Matcher::Group.accepts_at(stream_view(input@), start),
        r matches Ok((g, next)) ==> stream_view(input@)[start as int] == TokenView::Group(g@)
            && next == start + 1,
        r matches Err(e) ==> e@ == Matcher::Group.failure(stream_view(input@), start),
{
    if start < input.len() {
        if let Token::Group(g) = &input[start] {
            return Ok((g.clone(), start + 1));
        }
    }
    Err(ParseError::Mismatch { message: String::from_str("expected group"), position: start })
}

} // verus!
