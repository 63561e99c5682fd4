//! A small grammar toolkit over lexical tokens.
//!
//! A parser here is a function from a token slice and a start index to either
//! a value together with the index after the consumed tokens, or a
//! [`ParseError`] that records the index at which matching failed. The crate
//! offers the single-token matchers ([`punct`], [`ident`], [`ident_match`],
//! [`literal`], [`group`], and the zero-width [`unit`]), three grammar rules
//! built on them ([`type_spec`], [`dotted_ident`], [`html_ident`]) and the
//! turning of a parse error into a span-anchored [`Diagnostic`]
//! ([`parse_error`]).
//!
//! Every function carries a contract over the views of its arguments, and the
//! laws that relate the functions are stated as proof functions.

pub mod diagnostic;
pub mod error;
pub mod grammar;
pub mod laws;
pub mod primitive;
pub mod span;
pub mod text;
pub mod token;

pub use diagnostic::{parse_error, Annotation, Diagnostic, Level};
pub use error::{ParseError, ParseResult};
pub use grammar::{dotted_ident, fold_spans, html_ident, merge_names, type_spec};
pub use primitive::{group, ident, ident_match, literal, punct, unit};
pub use span::Span;
pub use token::{to_stream, Delimiter, Group, Ident, Literal, Punct, Token};
