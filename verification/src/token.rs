//! The token model: identifiers, punctuation, literals and delimited groups,
//! each with the span of source it came from.

use crate::span::Span;
use vstd::prelude::*;

verus! {

/// The kind of bracket that encloses a group.
#[derive(Clone, Copy, Debug, PartialEq, Eq, Structural)]
pub enum Delimiter {
    /// `( ... )`
    Parenthesis,
    /// `{ ... }`
    Brace,
    /// `[ ... ]`
    Bracket,
    /// A group without visible brackets.
    Invisible,
}

/// An identifier.
#[derive(Debug, PartialEq, Eq)]
pub struct Ident {
    pub name: String,
    pub span: Span,
}

/// A single punctuation character.
#[derive(Clone, Copy, Debug, PartialEq, Eq, Structural)]
pub struct Punct {
    pub ch: char,
    pub span: Span,
}

/// A literal, kept as its source text.
#[derive(Debug, PartialEq, Eq)]
pub struct Literal {
    pub text: String,
    pub span: Span,
}

/// A delimited sequence of tokens.
#[derive(Debug, PartialEq, Eq)]
pub struct Group {
    pub delimiter: Delimiter,
    pub stream: Vec<Token>,
    pub span: Span,
}

/// One lexical token.
#[derive(Debug, PartialEq, Eq)]
pub enum Token {
    Ident(Ident),
    Punct(Punct),
    Literal(Literal),
    Group(Group),
}

/// What an [`Ident`] stands for in contracts.
pub struct IdentView {
    pub name: Seq<char>,
    pub span: Span,
}

/// What a [`Literal`] stands for in contracts.
pub struct LiteralView {
    pub text: Seq<char>,
    pub span: Span,
}

/// What a [`Group`] stands for in contracts.
pub struct GroupView {
    pub delimiter: Delimiter,
    pub stream: Seq<TokenView>,
    pub span: Span,
}

/// What a [`Token`] stands for in contracts.
pub enum TokenView {
    Ident(IdentView),
    Punct(Punct),
    Literal(LiteralView),
    Group(GroupView),
}

impl TokenView {
    /// The span of the token.
    pub open spec fn span(self) -> Span {
        match self {
            TokenView::Ident(i) => i.span,
            TokenView::Punct(p) => p.span,
            TokenView::Literal(l) => l.span,
            TokenView::Group(g) => g.span,
        }
    }

    /// Whether the token is the punctuation character `c`.
    pub open spec fn is_punct(self, c: char) -> bool {
        self matches TokenView::Punct(p) && p.ch == c
    }
}

/// The views of a sequence of tokens, one for one.
pub open spec fn stream_view(tokens: Seq<Token>) -> Seq<TokenView>
    decreases tokens,
{
    Seq::new(
        tokens.len(),
        |i: int|
            if 0 <= i < tokens.len() {
                tokens[i].view()
            } else {
                arbitrary()
            },
    )
}

/// The spans of a sequence of tokens, one for one.
pub open spec fn stream_spans(tokens: Seq<TokenView>) -> Seq<Span> {
    Seq::new(tokens.len(), |i: int| tokens[i].span())
}

impl View for Punct {
    type V = Punct;

    open spec fn view(&self) -> Punct {
        *self
    }
}

impl View for Ident {
    type V = IdentView;

    open spec fn view(&self) -> IdentView {
        IdentView { name: self.name@, span: self.span }
    }
}

impl View for Literal {
    type V = LiteralView;

    open spec fn view(&self) -> LiteralView {
        LiteralView { text: self.text@, span: self.span }
    }
}

impl View for Group {
    type V = GroupView;

    open spec fn view(&self) -> GroupView
        decreases self,
    {
        GroupView {
            delimiter: self.delimiter,
            stream: stream_view(self.stream@),
            span: self.span,
        }
    }
}

impl View for Token {
    type V = TokenView;

    open spec fn view(&self) -> TokenView
        decreases self,
    {
        match self {
            Token::Ident(i) => TokenView::Ident(i@),
            Token::Punct(p) => TokenView::Punct(*p),
            Token::Literal(l) => TokenView::Literal(l@),
            Token::Group(g) => TokenView::Group(g@),
        }
    }
}

impl Clone for Ident {
    fn clone(&self) -> (copy: Self)
        ensures
            copy@ == self@,
    {
        Ident { name: self.name.clone(), span: self.span }
    }
}

impl Clone for Literal {
    fn clone(&self) -> (copy: Self)
        ensures
            copy@ == self@,
    {
        Literal { text: self.text.clone(), span: self.span }
    }
}

impl Clone for Group {
    fn clone(&self) -> (copy: Self)
        ensures
            copy@ == self@,
        decreases self,
    {
        Group {
            delimiter: self.delimiter,
            stream: to_stream(self.stream.as_slice()),
            span: self.span,
        }
    }
}

impl Clone for Token {
    fn clone(&self) -> (copy: Self)
        ensures
            copy@ == self@,
        decreases self,
    {
        match self {
            Token::Ident(i) => Token::Ident(i.clone()),
            Token::Punct(p) => Token::Punct(*p),
            Token::Literal(l) => Token::Literal(l.clone()),
            Token::Group(g) => Token::Group(g.clone()),
        }
    }
}

impl Token {
    /// The span of the token.
    pub fn span(&self) -> (span: Span)
        ensures
            span == self@.span(),
    {
        match self {
            Token::Ident(i) => i.span,
            Token::Punct(p) => p.span,
            Token::Literal(l) => l.span,
            Token::Group(g) => g.span,
        }
    }
}

/// Collects a run of tokens into a token stream of its own: the same tokens
/// in the same order.
pub fn to_stream(tokens: &[Token]) -> (stream: Vec<Token>)
    ensures
        stream_view(stream@) == stream_view(tokens@),
    decreases tokens@,
{
    let mut stream: Vec<Token> = Vec::new();
    let mut k: usize = 0;
    while k < tokens.len()
        invariant
            k <= tokens.len(),
            stream.len() == k,
            forall|j: int| 0 <= j < k ==> stream@[j]@ == tokens@[j]@,
        decreases tokens.len() - k,
    {
        stream.push(tokens[k].clone());
        k += 1;
    }
    assert(stream_view(stream@) =~= stream_view(tokens@));
    stream
}

} // verus!
