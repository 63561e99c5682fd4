//! Laws that relate the parsers to their inputs and to each other.
//!
//! A law speaks of every result that a parser's contract admits, so it holds
//! of whatever a call returns.

use crate::diagnostic::{parse_error, AnnotationView, Diagnostic, DiagnosticView, Level};
use crate::error::{ParseError, ParseErrorView, ParseResult};
use crate::grammar::{
    dotted_ident, html_ident, hyphen_segment, hyphenated_end, is_type_run, is_type_token,
    path_end, path_segment, type_spec,
};
use crate::primitive::{group, ident, ident_match, literal, punct, unit, Matcher};
use crate::text::{lemma_expected_found_names_both, occurs_in};
use crate::token::{stream_view, Group, Ident, Literal, Punct, Token, TokenView};
use vstd::prelude::*;

verus! {

/// Whether two parse results are the same: both succeed with the same value
/// and the same next index, or both fail with the same error.
pub open spec fn agree<T: View>(
    first: ParseResult<T>,
    second: ParseResult<T>,
) -> bool {
    match (first, second) {
        (Ok((a, m)), Ok((b, n))) => a@ == b@ && m == n,
        (Err(e), Err(f)) => e@ == f@,
        _ => false,
    }
}

/// A run of type tokens that begins at `start` has one end only.
pub proof fn lemma_type_run_unique(input: Seq<TokenView>, start: int, first: int, second: int)
    requires
        is_type_run(input, start, first),
        is_type_run(input, start, second),
    ensures
        first == second,
{
    if first < second {
        assert(is_type_token(input[first]));
    }
    if second < first {
        assert(is_type_token(input[second]));
    }
}

/// The path segments that begin inside the input end inside the input, at or
/// after the position where they begin.
pub proof fn lemma_path_end_bounds(input: Seq<TokenView>, pos: int)
    requires
        0 <= pos <= input.len(),
    ensures
        pos <= path_end(input, pos) <= input.len(),
    decreases input.len() - pos,
{
    if path_segment(input, pos) > 0 {
        lemma_path_end_bounds(input, pos + path_segment(input, pos));
    }
}

/// The hyphenated segments that begin inside the input end inside the
/// input, a whole number of segments after the position where they begin.
pub proof fn lemma_hyphenated_end_bounds(input: Seq<TokenView>, pos: int)
    requires
        0 <= pos <= input.len(),
    ensures
        pos <= hyphenated_end(input, pos) <= input.len(),
        (hyphenated_end(input, pos) - pos) % 2 == 0,
    decreases input.len() - pos,
{
    if hyphen_segment(input, pos) {
        lemma_hyphenated_end_bounds(input, pos + 2);
    }
}

/// Where the path segments end, no further segment stands: the repetition
/// takes every segment that matches.
pub proof fn lemma_path_end_is_last(input: Seq<TokenView>, pos: int)
    requires
        0 <= pos <= input.len(),
    ensures
        path_segment(input, path_end(input, pos)) == 0,
    decreases input.len() - pos,
{
    if path_segment(input, pos) > 0 {
        lemma_path_end_is_last(input, pos + path_segment(input, pos));
    }
}

/// Where the hyphenated segments end, no further segment stands: the
/// repetition takes every segment that matches.
pub proof fn lemma_hyphenated_end_is_last(input: Seq<TokenView>, pos: int)
    requires
        0 <= pos <= input.len(),
    ensures
        !hyphen_segment(input, hyphenated_end(input, pos)),
    decreases input.len() - pos,
{
    if hyphen_segment(input, pos) {
        lemma_hyphenated_end_is_last(input, pos + 2);
    }
}

/// A single-token matcher that does not accept the token at the start index
/// fails with a mismatch whose position is the start index. This holds for
/// an empty slice and for a start index past the end as well.
pub proof fn lemma_rejection_is_mismatch_at_start(
    input: &[Token],
    start: usize,
    ch: char,
    name: String,
    from_punct: ParseResult<Punct>,
    from_ident: ParseResult<Ident>,
    from_ident_match: ParseResult<()>,
    from_literal: ParseResult<Literal>,
    from_group: ParseResult<Group>,
)
    requires
        call_ensures(punct, (ch, input, start), from_punct),
        call_ensures(ident, (input, start), from_ident),
        call_ensures(ident_match, (name, input, start), from_ident_match),
        call_ensures(literal, (input, start), from_literal),
        call_ensures(group, (input, start), from_group),
    ensures
        !Matcher::Punct(ch).accepts_at(stream_view(input@), start) ==> (from_punct matches Err(e)
            && e@.is_mismatch_at(start)),
        !Matcher::Ident.accepts_at(stream_view(input@), start) ==> (from_ident matches Err(e)
            && e@.is_mismatch_at(start)),
        !Matcher::IdentMatch(name@).accepts_at(stream_view(input@), start) ==> (
        from_ident_match matches Err(e) && e@.is_mismatch_at(start)),
        !Matcher::Literal.accepts_at(stream_view(input@), start) ==> (from_literal matches Err(e)
            && e@.is_mismatch_at(start)),
        !Matcher::Group.accepts_at(stream_view(input@), start) ==> (from_group matches Err(e)
            && e@.is_mismatch_at(start)),
{
}

/// `ident_match` succeeds exactly on an identifier whose text is `name`. On
/// an identifier with any other text it fails at the start index with a
/// message in which both `name` and the text that was found occur.
pub proof fn lemma_ident_match_names_both(
    name: String,
    input: &[Token],
    start: usize,
    r: ParseResult<()>,
)
    requires
        call_ensures(ident_match, (name, input, start), r),
    ensures
        r is Ok <==> start < input@.len() && input@[start as int]@ is Ident
            && input@[start as int]@->Ident_0.name == name@,
        start < input@.len() && input@[start as int]@ is Ident
            && input@[start as int]@->Ident_0.name != name@ ==> (r matches Err(e)
            && e@.is_mismatch_at(start) && occurs_in(name@, e@->Mismatch_message) && occurs_in(
            input@[start as int]@->Ident_0.name,
            e@->Mismatch_message,
        )),
{
    if start < input@.len() && input@[start as int]@ is Ident {
        lemma_expected_found_names_both(name@, input@[start as int]@->Ident_0.name);
    }
}

/// What `type_spec` returns holds the consumed tokens and nothing else: as
/// many tokens as were consumed, each the same as the input token at its
/// place, in the same order.
pub proof fn lemma_type_spec_round_trip(
    input: &[Token],
    start: usize,
    r: ParseResult<Vec<Token>>,
)
    requires
        call_ensures(type_spec, (input, start), r),
    ensures
        r matches Ok((stream, next)) ==> start < next <= input@.len() && stream@.len() == next
            - start && forall|k: int|
            0 <= k < stream@.len() ==> (#[trigger] stream@[k])@ == input@[start + k]@,
{
    if let Ok((stream, next)) = r {
        let consumed = stream_view(input@).subrange(start as int, next as int);
        assert(stream_view(stream@).len() == consumed.len());
        assert forall|k: int| 0 <= k < stream@.len() implies (#[trigger] stream@[k])@
            == input@[start + k]@ by {
            assert(stream_view(stream@)[k] == consumed[k]);
        }
    }
}

/// The group that `dotted_ident` makes of a path holds the consumed tokens
/// and nothing else, in the same order.
pub proof fn lemma_dotted_ident_round_trip(
    input: &[Token],
    start: usize,
    r: ParseResult<Token>,
)
    requires
        call_ensures(dotted_ident, (input, start), r),
    ensures
        r matches Ok((token, next)) ==> (token@ matches TokenView::Group(g) ==> g.stream.len()
            == next - start && forall|k: int|
            0 <= k < g.stream.len() ==> (#[trigger] g.stream[k]) == input@[start + k]@),
{
}

/// A parser that succeeds has moved forward and stays inside the input; only
/// `unit` succeeds without moving.
pub proof fn lemma_success_advances<I, A: Clone>(
    input: &[Token],
    start: usize,
    ch: char,
    name: String,
    value: A,
    any_input: &[I],
    from_unit: ParseResult<A>,
    from_punct: ParseResult<Punct>,
    from_ident: ParseResult<Ident>,
    from_ident_match: ParseResult<()>,
    from_literal: ParseResult<Literal>,
    from_group: ParseResult<Group>,
    from_type_spec: ParseResult<Vec<Token>>,
    from_dotted_ident: ParseResult<Token>,
    from_html_ident: ParseResult<Ident>,
)
    requires
        call_ensures(unit::<I, A>, (value, any_input, start), from_unit),
        call_ensures(punct, (ch, input, start), from_punct),
        call_ensures(ident, (input, start), from_ident),
        call_ensures(ident_match, (name, input, start), from_ident_match),
        call_ensures(literal, (input, start), from_literal),
        call_ensures(group, (input, start), from_group),
        call_ensures(type_spec, (input, start), from_type_spec),
        call_ensures(dotted_ident, (input, start), from_dotted_ident),
        call_ensures(html_ident, (input, start), from_html_ident),
    ensures
        from_unit matches Ok((_, next)) && next == start,
        from_punct matches Ok((_, next)) ==> next == start + 1 <= input@.len(),
        from_ident matches Ok((_, next)) ==> next == start + 1 <= input@.len(),
        from_ident_match matches Ok((_, next)) ==> next == start + 1 <= input@.len(),
        from_literal matches Ok((_, next)) ==> next == start + 1 <= input@.len(),
        from_group matches Ok((_, next)) ==> next == start + 1 <= input@.len(),
        from_type_spec matches Ok((_, next)) ==> start < next <= input@.len(),
        from_dotted_ident matches Ok((_, next)) ==> start < next <= input@.len(),
        from_html_ident matches Ok((_, next)) ==> start < next <= input@.len(),
{
}

/// A parser that fails at a start index inside the input reports only
/// positions inside the input, so its error can be turned into a diagnostic
/// by `parse_error`.
pub proof fn lemma_failure_is_within(
    input: &[Token],
    start: usize,
    ch: char,
    name: String,
    from_punct: ParseResult<Punct>,
    from_ident: ParseResult<Ident>,
    from_ident_match: ParseResult<()>,
    from_literal: ParseResult<Literal>,
    from_group: ParseResult<Group>,
    from_type_spec: ParseResult<Vec<Token>>,
    from_dotted_ident: ParseResult<Token>,
    from_html_ident: ParseResult<Ident>,
)
    requires
        start < input@.len(),
        call_ensures(punct, (ch, input, start), from_punct),
        call_ensures(ident, (input, start), from_ident),
        call_ensures(ident_match, (name, input, start), from_ident_match),
        call_ensures(literal, (input, start), from_literal),
        call_ensures(group, (input, start), from_group),
        call_ensures(type_spec, (input, start), from_type_spec),
        call_ensures(dotted_ident, (input, start), from_dotted_ident),
        call_ensures(html_ident, (input, start), from_html_ident),
    ensures
        from_punct matches Err(e) ==> e@.within(input@.len()),
        from_ident matches Err(e) ==> e@.within(input@.len()),
        from_ident_match matches Err(e) ==> e@.within(input@.len()),
        from_literal matches Err(e) ==> e@.within(input@.len()),
        from_group matches Err(e) ==> e@.within(input@.len()),
        from_type_spec matches Err(e) ==> e@.within(input@.len()),
        from_dotted_ident matches Err(e) ==> e@.within(input@.len()),
        from_html_ident matches Err(e) ==> e@.within(input@.len()),
{
}

/// Running a single-token matcher again on the same tokens from the same
/// index gives the same result.
pub proof fn lemma_matchers_repeatable(
    input: &[Token],
    start: usize,
    ch: char,
    name: String,
    punct_results: (ParseResult<Punct>, ParseResult<Punct>),
    ident_results: (ParseResult<Ident>, ParseResult<Ident>),
    ident_match_results: (ParseResult<()>, ParseResult<()>),
    literal_results: (ParseResult<Literal>, ParseResult<Literal>),
    group_results: (ParseResult<Group>, ParseResult<Group>),
)
    requires
        call_ensures(punct, (ch, input, start), punct_results.0),
        call_ensures(punct, (ch, input, start), punct_results.1),
        call_ensures(ident, (input, start), ident_results.0),
        call_ensures(ident, (input, start), ident_results.1),
        call_ensures(ident_match, (name, input, start), ident_match_results.0),
        call_ensures(ident_match, (name, input, start), ident_match_results.1),
        call_ensures(literal, (input, start), literal_results.0),
        call_ensures(literal, (input, start), literal_results.1),
        call_ensures(group, (input, start), group_results.0),
        call_ensures(group, (input, start), group_results.1),
    ensures
        agree(punct_results.0, punct_results.1),
        agree(ident_results.0, ident_results.1),
        agree(ident_match_results.0, ident_match_results.1),
        agree(literal_results.0, literal_results.1),
        agree(group_results.0, group_results.1),
{
}

/// Running a grammar rule again on the same tokens from the same index gives
/// the same result: the same value and next index, or the same error.
pub proof fn lemma_rules_repeatable(
    input: &[Token],
    start: usize,
    type_spec_results: (
        ParseResult<Vec<Token>>,
        ParseResult<Vec<Token>>,
    ),
    dotted_ident_results: (ParseResult<Token>, ParseResult<Token>),
    html_ident_results: (ParseResult<Ident>, ParseResult<Ident>),
)
    requires
        call_ensures(type_spec, (input, start), type_spec_results.0),
        call_ensures(type_spec, (input, start), type_spec_results.1),
        call_ensures(dotted_ident, (input, start), dotted_ident_results.0),
        call_ensures(dotted_ident, (input, start), dotted_ident_results.1),
        call_ensures(html_ident, (input, start), html_ident_results.0),
        call_ensures(html_ident, (input, start), html_ident_results.1),
    ensures
        match type_spec_results {
            (Ok((a, m)), Ok((b, n))) => stream_view(a@) == stream_view(b@) && m == n,
            (Err(e), Err(f)) => e@ == f@,
            _ => false,
        },
        agree(dotted_ident_results.0, dotted_ident_results.1),
        agree(html_ident_results.0, html_ident_results.1),
{
    if let (Ok((a, m)), Ok((b, n))) = type_spec_results {
        lemma_type_run_unique(stream_view(input@), start as int, m as int, n as int);
    }
}

/// An error that wraps a mismatch becomes a diagnostic at the token of the
/// wrapping error, with the message of the wrapping error and exactly one
/// annotation: the message of the mismatch at the token of the mismatch.
pub proof fn lemma_expect_of_mismatch(
    input: &[Token],
    error: &ParseError,
    outer: Seq<char>,
    p: usize,
    inner: Seq<char>,
    q: usize,
    diagnostic: Diagnostic,
)
    requires
        p < input@.len(),
        q < input@.len(),
        error@ == (ParseErrorView::Expect {
            message: outer,
            position: p,
            inner: Box::new(ParseErrorView::Mismatch { message: inner, position: q }),
        }),
        call_ensures(parse_error, (input, error), diagnostic),
    ensures
        diagnostic@ == (DiagnosticView {
            level: Level::Error,
            message: outer,
            spans: seq![input@[p as int]@.span()],
            children: seq![
                AnnotationView {
                    level: Level::Error,
                    message: inner,
                    spans: seq![input@[q as int]@.span()],
                },
            ],
        }),
{
}

} // verus!
