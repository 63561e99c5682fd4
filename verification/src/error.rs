//! Parse errors: what failed, at which token index, and why.

use vstd::prelude::*;

verus! {

/// Why a parser failed. A `position` is an index into the token slice that
/// was parsed; `inner` is the cause that a higher-level rule wraps.
#[derive(Debug, PartialEq, Eq)]
#[allow(inconsistent_fields)]
pub enum ParseError {
    /// The input ended too early.
    Incomplete,
    /// The token at `position` is not what the parser expects.
    Mismatch { message: String, position: usize },
    /// The matched tokens could not be converted to a value.
    Conversion { message: String, position: usize },
    /// A rule that had to match failed because of `inner`.
    Expect { message: String, position: usize, inner: Box<ParseError> },
    /// A named rule failed, possibly because of `inner`.
    Custom { message: String, position: usize, inner: Option<Box<ParseError>> },
}

/// What a parser returns: the value with the index of the first token after
/// the ones it consumed, or the reason why it failed.
pub type ParseResult<T> = Result<(T, usize), ParseError>;

/// What a [`ParseError`] stands for in contracts.
#[allow(inconsistent_fields)]
pub enum ParseErrorView {
    Incomplete,
    Mismatch { message: Seq<char>, position: usize },
    Conversion { message: Seq<char>, position: usize },
    Expect { message: Seq<char>, position: usize, inner: Box<ParseErrorView> },
    Custom { message: Seq<char>, position: usize, inner: Option<Box<ParseErrorView>> },
}

impl ParseErrorView {
    /// Whether the error is a mismatch at `position`.
    pub open spec fn is_mismatch_at(self, position: usize) -> bool {
        self is Mismatch && self->Mismatch_position == position
    }

    /// The cause that this error wraps, if it wraps one.
    pub open spec fn inner(self) -> Option<ParseErrorView> {
        match self {
            ParseErrorView::Expect { inner, .. } => Some(*inner),
            ParseErrorView::Custom { inner: Some(inner), .. } => Some(*inner),
            _ => None,
        }
    }

    /// Whether every position in the error and in its chain of causes is an
    /// index into a slice of `len` tokens.
    pub open spec fn within(self, len: nat) -> bool
        decreases self,
    {
        match self {
            ParseErrorView::Incomplete => true,
            ParseErrorView::Mismatch { position, .. } => position < len,
            ParseErrorView::Conversion { position, .. } => position < len,
            ParseErrorView::Expect { position, inner, .. } => position < len && inner.within(len),
            ParseErrorView::Custom { position, inner: Some(inner), .. } => position < len
                && inner.within(len),
            ParseErrorView::Custom { position, inner: None, .. } => position < len,
        }
    }
}

impl View for ParseError {
    type V = ParseErrorView;

    open spec fn view(&self) -> ParseErrorView
        decreases self,
    {
        match self {
            ParseError::Incomplete => ParseErrorView::Incomplete,
            ParseError::Mismatch { message, position } => ParseErrorView::Mismatch {
                message: message@,
                position: *position,
            },
            ParseError::Conversion { message, position } => ParseErrorView::Conversion {
                message: message@,
                position: *position,
            },
            ParseError::Expect { message, position, inner } => ParseErrorView::Expect {
                message: message@,
                position: *position,
                inner: Box::new((**inner).view()),
            },
            ParseError::Custom { message, position, inner: Some(inner) } => ParseErrorView::Custom {
                message: message@,
                position: *position,
                inner: Some(Box::new((**inner).view())),
            },
            ParseError::Custom { message, position, inner: None } => ParseErrorView::Custom {
                message: message@,
                position: *position,
                inner: None,
            },
        }
    }
}

impl Clone for ParseError {
    fn clone(&self) -> (copy: Self)
        ensures
            copy@ == self@,
        decreases self,
    {
        match self {
            ParseError::Incomplete => ParseError::Incomplete,
            ParseError::Mismatch { message, position } => ParseError::Mismatch {
                message: message.clone(),
                position: *position,
            },
            ParseError::Conversion { message, position } => ParseError::Conversion {
                message: message.clone(),
                position: *position,
            },
            ParseError::Expect { message, position, inner } => ParseError::Expect {
                message: message.clone(),
                position: *position,
                inner: Box::new((&**inner).clone()),
            },
            ParseError::Custom { message, position, inner: Some(inner) } => ParseError::Custom {
                message: message.clone(),
                position: *position,
                inner: Some(Box::new((&**inner).clone())),
            },
            ParseError::Custom { message, position, inner: None } => ParseError::Custom {
                message: message.clone(),
                position: *position,
                inner: None,
            },
        }
    }
}

impl ParseError {
    /// Tells whether every position in the error and in its chain of causes
    /// is an index into a slice of `len` tokens.
    pub fn within(&self, len: usize) -> (ok: bool)
        ensures
            ok == self@.within(len as nat),
        decreases self,
    {
        match self {
            ParseError::Incomplete => true,
            ParseError::Mismatch { position, .. } => *position < len,
            ParseError::Conversion { position, .. } => *position < len,
            ParseError::Expect { position, inner, .. } => *position < len && inner.within(len),
            ParseError::Custom { position, inner: Some(inner), .. } => *position < len
                && inner.within(len),
            ParseError::Custom { position, inner: None, .. } => *position < len,
        }
    }
}

} // verus!
