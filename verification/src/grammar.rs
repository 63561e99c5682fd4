//! The grammar rules that are built from the single-token matchers.
//!
//! Each rule is a function from a token slice and a start index to a parse
//! result. A rule that repeats takes as many repetitions as match and stops
//! at the first position where none matches.

use crate::error::{ParseError, ParseErrorView, ParseResult};
use crate::primitive::{ident, punct, Matcher};
use crate::span::{covering, Span};
use crate::token::{
    stream_spans, stream_view, to_stream, Delimiter, Group, GroupView, Ident, IdentView, Token,
    TokenView,
};
use vstd::prelude::*;

verus! {

/// Whether a token may stand in a type signature: an identifier or one of
/// the punctuation characters `:`, `<`, `>`, `&` and `'`.
pub open spec fn is_type_token(token: TokenView) -> bool {
    ||| Matcher::Ident.accepts(token)
    ||| Matcher::Punct(':').accepts(token)
    ||| Matcher::Punct('<').accepts(token)
    ||| Matcher::Punct('>').accepts(token)
    ||| Matcher::Punct('&').accepts(token)
    ||| Matcher::Punct('\'').accepts(token)
}

/// Whether the tokens of `input` from `start` up to `end` are the longest
/// run of type tokens that begins at `start`.
pub open spec fn is_type_run(input: Seq<TokenView>, start: int, end: int) -> bool {
    &&& 0 <= start <= end <= input.len()
    &&& forall|i: int| start <= i < end ==> is_type_token(#[trigger] input[i])
    &&& end < input.len() ==> !is_type_token(input[end])
}

/// The message of a repetition that wants one match at least and finds none.
pub open spec fn no_repetition() -> Seq<char> {
    "expect repeat at least 1 times, found 0 times"@
}

/// How many tokens the path separator and identifier at `pos` take: two for
/// `.` and an identifier, three for `:`, `:` and an identifier, and none
/// where neither stands.
pub open spec fn path_segment(input: Seq<TokenView>, pos: int) -> int {
    if 0 <= pos && pos + 1 < input.len() && input[pos].is_punct('.') && input[pos + 1] is Ident {
        2
    } else if 0 <= pos && pos + 2 < input.len() && input[pos].is_punct(':') && input[pos
        + 1].is_punct(':') && input[pos + 2] is Ident {
        3
    } else {
        0
    }
}

/// Where the path segments that begin at `pos` end: each segment is taken as
/// long as one stands there.
pub open spec fn path_end(input: Seq<TokenView>, pos: int) -> int
    decreases input.len() - pos,
{
    if path_segment(input, pos) > 0 {
        path_end(input, pos + path_segment(input, pos))
    } else {
        pos
    }
}

/// Whether `-` and an identifier stand at `pos`.
pub open spec fn hyphen_segment(input: Seq<TokenView>, pos: int) -> bool {
    0 <= pos && pos + 1 < input.len() && input[pos].is_punct('-') && input[pos + 1] is Ident
}

/// Where the hyphenated segments that begin at `pos` end: each `-` with its
/// identifier is taken as long as one stands there.
pub open spec fn hyphenated_end(input: Seq<TokenView>, pos: int) -> int
    decreases input.len() - pos,
{
    if hyphen_segment(input, pos) {
        hyphenated_end(input, pos + 2)
    } else {
        pos
    }
}

/// What one token adds to a merged name: an identifier its text, any
/// punctuation an underscore.
pub open spec fn name_piece(token: TokenView) -> Seq<char> {
    match token {
        TokenView::Ident(i) => i.name,
        TokenView::Punct(_) => seq!['_'],
        _ => Seq::empty(),
    }
}

/// The name that a run of identifiers and punctuation merges into, from the
/// left.
pub open spec fn merged_name(tokens: Seq<TokenView>) -> Seq<char>
    decreases tokens.len(),
{
    if tokens.len() == 0 {
        Seq::empty()
    } else {
        merged_name(tokens.drop_last()) + name_piece(tokens.last())
    }
}

/// The views of a part of a slice are that part of the views of the slice.
pub proof fn lemma_stream_view_subrange(tokens: Seq<Token>, from: int, to: int)
    requires
        0 <= from <= to <= tokens.len(),
    ensures
        stream_view(tokens.subrange(from, to)) == stream_view(tokens).subrange(from, to),
{
    assert(stream_view(tokens.subrange(from, to)) =~= stream_view(tokens).subrange(from, to));
}

/// Tells whether a token may stand in a type signature.
pub fn type_token(token: &Token) -> (yes: bool)
    ensures
        yes == is_type_token(token@),
{
    match token {
        Token::Ident(_) => true,
        Token::Punct(p) => p.ch == ':' || p.ch == '<' || p.ch == '>' || p.ch == '&' || p.ch
            == '\'',
        _ => false,
    }
}

/// Folds the spans of a run of tokens from the left: nothing for no token,
/// the first span for one, and each later span joined in.
pub fn fold_spans(tokens: &[Token]) -> (span: Option<Span>)
    ensures
        tokens@.len() == 0 ==> span is None,
        tokens@.len() > 0 ==> span == Some(covering(stream_spans(stream_view(tokens@)))),
{
    let mut span: Option<Span> = None;
    let mut k: usize = 0;
    while k < tokens.len()
        invariant
            k <= tokens.len(),
            k == 0 ==> span is None,
            k > 0 ==> span == Some(
                covering(stream_spans(stream_view(tokens@)).subrange(0, k as int)),
            ),
        decreases tokens.len() - k,
    {
        let ghost spans = stream_spans(stream_view(tokens@));
        let next = tokens[k].span();
        proof {
            assert(spans.subrange(0, k + 1).drop_last() =~= spans.subrange(0, k as int));
            assert(spans.subrange(0, k + 1).last() == next);
        }
        span = match span {
            None => Some(next),
            Some(so_far) => Some(so_far.join(next)),
        };
        k += 1;
    }
    proof {
        let spans = stream_spans(stream_view(tokens@));
        assert(spans.subrange(0, k as int) =~= spans);
    }
    span
}

/// Merges a run of identifiers and punctuation into one name: the text of
/// each identifier, and an underscore for each punctuation token.
pub fn merge_names(tokens: &[Token]) -> (name: String)
    requires
        forall|i: int|
            0 <= i < tokens@.len() ==> (#[trigger] tokens@[i]) is Ident || tokens@[i] is Punct,
    ensures
        name@ == merged_name(stream_view(tokens@)),
{
    let mut name = String::new();
    let mut k: usize = 0;
    while k < tokens.len()
        invariant
            k <= tokens.len(),
            name@ == merged_name(stream_view(tokens@).subrange(0, k as int)),
            forall|i: int|
                0 <= i < tokens@.len() ==> (#[trigger] tokens@[i]) is Ident || tokens@[i] is Punct,
        decreases tokens.len() - k,
    {
        let ghost views = stream_view(tokens@);
        proof {
            assert(views.subrange(0, k + 1).drop_last() =~= views.subrange(0, k as int));
            assert(views.subrange(0, k + 1).last() == tokens@[k as int]@);
        }
        match &tokens[k] {
            Token::Ident(i) => name.append(i.name.as_str()),
            Token::Punct(_) => name.push('_'),
            _ => unreached(),
        }
        k += 1;
    }
    proof {
        let views = stream_view(tokens@);
        assert(views.subrange(0, k as int) =~= views);
    }
    name
}

/// Matches the longest run of type tokens at `start`, one at least, and
/// returns the run as a token stream of its own.
///
/// Where no type token stands at `start` the rule fails with the mismatch of
/// a repetition that found nothing, positioned at `start`.
pub fn type_spec(input: &[Token], start: usize) -> (r: ParseResult<Vec<Token>>)
    ensures
        r is Ok <==> start < input@.len() && is_type_token(stream_view(input@)[start as int]),
        r matches Ok((stream, next)) ==> start < next && is_type_run(
            stream_view(input@),
            start as int,
            next as int,
        ) && stream_view(stream@) == stream_view(input@).subrange(start as int, next as int),
        r matches Err(e) ==> e@ == (ParseErrorView::Mismatch {
            message: no_repetition(),
            position: start,
        }),
{
    let mut pos = start;
    while pos < input.len() && type_token(&input[pos])
        invariant
            start <= pos,
            pos == start || pos <= input@.len(),
            forall|i: int| start <= i < pos ==> is_type_token(#[trigger] stream_view(input@)[i]),
        decreases input@.len() - pos,
    {
        pos += 1;
    }
    if pos == start {
        Err(
            ParseError::Mismatch {
                message: String::from_str("expect repeat at least 1 times, found 0 times"),
                position: start,
            },
        )
    } else {
        proof {
            lemma_stream_view_subrange(input@, start as int, pos as int);
        }
        Ok((to_stream(&input[start..pos]), pos))
    }
}

/// Matches an identifier and then every path segment that follows it: `.`
/// and an identifier, or `:`, `:` and an identifier, in any mixture.
///
/// A lone identifier is returned as it is. A longer path is returned as one
/// brace-delimited group that holds all the matched tokens in order and
/// whose span covers them.
pub fn dotted_ident(input: &[Token], start: usize) -> (r: ParseResult<Token>)
    ensures
        r is Ok <==> Matcher::Ident.accepts_at(stream_view(input@), start),
        r matches Ok((token, next)) ==> {
            let matched = stream_view(input@).subrange(start as int, next as int);
            &&& start < next <= input@.len()
            &&& next == path_end(stream_view(input@), start + 1)
            &&& next == start + 1 ==> token@ == stream_view(input@)[start as int]
            &&& next != start + 1 ==> token@ == TokenView::Group(
                GroupView {
                    delimiter: Delimiter::Brace,
                    stream: matched,
                    span: covering(stream_spans(matched)),
                },
            )
        },
        r matches Err(e) ==> e@ == Matcher::Ident.failure(stream_view(input@), start),
{
    let (head, after_head) = match ident(input, start) {
        Ok(found) => found,
        Err(e) => {
            return Err(e);
        },
    };
    let mut pos = after_head;
    loop
        invariant
            start < pos <= input@.len(),
            path_end(stream_view(input@), pos as int) == path_end(
                stream_view(input@),
                start + 1,
            ),
        ensures
            start < pos <= input@.len(),
            pos == path_end(stream_view(input@), start + 1),
        decreases input@.len() - pos,
    {
        if punct('.', input, pos).is_ok() && ident(input, pos + 1).is_ok() {
            pos += 2;
        } else if punct(':', input, pos).is_ok() && punct(':', input, pos + 1).is_ok() && ident(
            input,
            pos + 2,
        ).is_ok() {
            pos += 3;
        } else {
            break ;
        }
    }
    if pos == after_head {
        Ok((Token::Ident(head), pos))
    } else {
        let matched = &input[start..pos];
        proof {
            lemma_stream_view_subrange(input@, start as int, pos as int);
        }
        let span = fold_spans(matched).unwrap();
        Ok((Token::Group(Group { delimiter: Delimiter::Brace, stream: to_stream(matched), span }), pos))
    }
}

/// Matches an identifier and then every `-` with an identifier that follows
/// it, and merges the run into one identifier: its name is the names joined
/// with `_` in place of each `-`, and its span is the spans of the run
/// joined from the left.
pub fn html_ident(input: &[Token], start: usize) -> (r: ParseResult<Ident>)
    ensures
        r is Ok <==> Matcher::Ident.accepts_at(stream_view(input@), start),
        r matches Ok((merged, next)) ==> {
            let matched = stream_view(input@).subrange(start as int, next as int);
            &&& start < next <= input@.len()
            &&& next == hyphenated_end(stream_view(input@), start + 1)
            &&& merged@ == (IdentView {
                name: merged_name(matched),
                span: covering(stream_spans(matched)),
            })
        },
        r matches Err(e) ==> e@ == Matcher::Ident.failure(stream_view(input@), start),
{
    let mut pos = match ident(input, start) {
        Ok((_, after_head)) => after_head,
        Err(e) => {
            return Err(e);
        },
    };
    loop
        invariant
            start < pos <= input@.len(),
            hyphenated_end(stream_view(input@), pos as int) == hyphenated_end(
                stream_view(input@),
                start + 1,
            ),
            forall|i: int|
                start <= i < pos ==> (#[trigger] input@[i]) is Ident || input@[i] is Punct,
        ensures
            start < pos <= input@.len(),
            pos == hyphenated_end(stream_view(input@), start + 1),
            forall|i: int|
                start <= i < pos ==> (#[trigger] input@[i]) is Ident || input@[i] is Punct,
        decreases input@.len() - pos,
    {
        if punct('-', input, pos).is_ok() && ident(input, pos + 1).is_ok() {
            pos += 2;
        } else {
            break ;
        }
    }
    let matched = &input[start..pos];
    proof {
        lemma_stream_view_subrange(input@, start as int, pos as int);
    }
    let span = fold_spans(matched).unwrap();
    Ok((Ident { name: merge_names(matched), span }, pos))
}

} // verus!
