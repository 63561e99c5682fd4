//! Diagnostics, and how a parse error becomes one.

use crate::error::{ParseError, ParseErrorView};
use crate::span::Span;
use crate::token::{stream_view, Token, TokenView};
use vstd::prelude::*;

verus! {

/// How severe a diagnostic is.
#[derive(Clone, Copy, Debug, PartialEq, Eq, Structural)]
pub enum Level {
    Error,
    Warning,
    Note,
    Help,
}

/// A secondary message attached to a diagnostic, with the spans it points at.
#[derive(Debug, PartialEq, Eq)]
pub struct Annotation {
    pub level: Level,
    pub message: String,
    pub spans: Vec<Span>,
}

/// A message for the user, with the spans it points at and, in order, the
/// annotations attached to it.
#[derive(Debug, PartialEq, Eq)]
pub struct Diagnostic {
    pub level: Level,
    pub message: String,
    pub spans: Vec<Span>,
    pub children: Vec<Annotation>,
}

/// What an [`Annotation`] stands for in contracts.
pub struct AnnotationView {
    pub level: Level,
    pub message: Seq<char>,
    pub spans: Seq<Span>,
}

/// What a [`Diagnostic`] stands for in contracts.
pub struct DiagnosticView {
    pub level: Level,
    pub message: Seq<char>,
    pub spans: Seq<Span>,
    pub children: Seq<AnnotationView>,
}

impl View for Annotation {
    type V = AnnotationView;

    open spec fn view(&self) -> AnnotationView {
        AnnotationView { level: self.level, message: self.message@, spans: self.spans@ }
    }
}

impl View for Diagnostic {
    type V = DiagnosticView;

    open spec fn view(&self) -> DiagnosticView {
        DiagnosticView {
            level: self.level,
            message: self.message@,
            spans: self.spans@,
            children: Seq::new(self.children@.len(), |i: int| self.children@[i]@),
        }
    }
}

impl Diagnostic {
    /// A diagnostic that points at no span and has no annotation.
    pub fn new(level: Level, message: String) -> (diagnostic: Diagnostic)
        ensures
            diagnostic@ == (DiagnosticView {
                level,
                message: message@,
                spans: Seq::empty(),
                children: Seq::empty(),
            }),
    {
        let diagnostic = Diagnostic { level, message, spans: Vec::new(), children: Vec::new() };
        assert(diagnostic@.children =~= Seq::empty());
        diagnostic
    }

    /// A diagnostic that points at `span` and has no annotation.
    pub fn spanned(span: Span, level: Level, message: String) -> (diagnostic: Diagnostic)
        ensures
            diagnostic@ == (DiagnosticView {
                level,
                message: message@,
                spans: seq![span],
                children: Seq::empty(),
            }),
    {
        let mut spans: Vec<Span> = Vec::new();
        spans.push(span);
        let diagnostic = Diagnostic { level, message, spans, children: Vec::new() };
        assert(diagnostic@.children =~= Seq::empty());
        assert(diagnostic@.spans =~= seq![span]);
        diagnostic
    }

    /// The same diagnostic with one more annotation at the end: an error
    /// that points at `spans` and says `message`.
    pub fn span_error(self, spans: Vec<Span>, message: String) -> (diagnostic: Diagnostic)
        ensures
            diagnostic@ == (DiagnosticView {
                children: self@.children.push(
                    AnnotationView { level: Level::Error, message: message@, spans: spans@ },
                ),
                ..self@
            }),
    {
        let mut diagnostic = self;
        let ghost before = diagnostic@;
        diagnostic.children.push(Annotation { level: Level::Error, message, spans });
        assert(diagnostic@.children =~= before.children.push(
            AnnotationView { level: Level::Error, message: message@, spans: spans@ },
        ));
        diagnostic
    }
}

/// The message that the diagnostic of `error` carries: the error's own,
/// and a fixed one for input that ended too early.
pub open spec fn message_of(error: ParseErrorView) -> Seq<char> {
    match error {
        ParseErrorView::Incomplete => "unexpected end of input."@,
        ParseErrorView::Mismatch { message, .. } => message,
        ParseErrorView::Conversion { message, .. } => message,
        ParseErrorView::Expect { message, .. } => message,
        ParseErrorView::Custom { message, .. } => message,
    }
}

/// The spans that the diagnostic of `error` points at: the span of the
/// token at the error's position, and none for input that ended too early.
pub open spec fn anchor_of(tokens: Seq<TokenView>, error: ParseErrorView) -> Seq<Span> {
    match error {
        ParseErrorView::Incomplete => Seq::empty(),
        ParseErrorView::Mismatch { position, .. } => seq![tokens[position as int].span()],
        ParseErrorView::Conversion { position, .. } => seq![tokens[position as int].span()],
        ParseErrorView::Expect { position, .. } => seq![tokens[position as int].span()],
        ParseErrorView::Custom { position, .. } => seq![tokens[position as int].span()],
    }
}

/// The diagnostic that `error` becomes over `tokens`: an error with
/// the message and anchor of `error`, annotated with the message and anchor
/// of the cause that `error` wraps, where it wraps one.
pub open spec fn diagnostic_of(tokens: Seq<TokenView>, error: ParseErrorView) -> DiagnosticView {
    DiagnosticView {
        level: Level::Error,
        message: message_of(error),
        spans: anchor_of(tokens, error),
        children: match error.inner() {
            Some(cause) => seq![
                AnnotationView {
                    level: Level::Error,
                    message: message_of(cause),
                    spans: anchor_of(tokens, cause),
                },
            ],
            None => Seq::empty(),
        },
    }
}

/// Turns a parse error over `input` into a diagnostic.
///
/// Every position in the error and in its causes must be an index into
/// `input`; [`ParseError::within`] tells whether that holds.
pub fn parse_error(input: &[Token], error: &ParseError) -> (diagnostic: Diagnostic)
    requires
        error@.within(input@.len()),
    ensures
        diagnostic@ == diagnostic_of(stream_view(input@), error@),
    decreases error,
{
    match error {
        ParseError::Incomplete => Diagnostic::new(
            Level::Error,
            String::from_str("unexpected end of input."),
        ),
        ParseError::Mismatch { message, position } => Diagnostic::spanned(
            input[*position].span(),
            Level::Error,
            message.clone(),
        ),
        ParseError::Conversion { message, position } => Diagnostic::spanned(
            input[*position].span(),
            Level::Error,
            message.clone(),
        ),
        ParseError::Expect { message, position, inner } => {
            let diagnostic = Diagnostic::spanned(
                input[*position].span(),
                Level::Error,
                message.clone(),
            );
            let child = parse_error(input, inner);
            diagnostic.span_error(child.spans, child.message)
        },
        ParseError::Custom { message, position, inner } => {
            let diagnostic = Diagnostic::spanned(
                input[*position].span(),
                Level::Error,
                message.clone(),
            );
            match inner {
                Some(inner) => {
                    let child = parse_error(input, inner);
                    diagnostic.span_error(child.spans, child.message)
                },
                None => diagnostic,
            }
        },
    }
}

} // verus!
