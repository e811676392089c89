//! The closed set of error categories, and the sentence shown for each.

use crate::escape_error::EscapeError;
use crate::tokenize_error::TokenizeError;
use vstd::prelude::*;
use vstd::std_specs::convert::FromSpec;
use vstd::string::StringExecFns;

verus! {

/// A grammar error as the parser reports it: the message, and nothing else.
#[derive(Debug, PartialEq, Eq, Hash)]
pub struct ParseError(pub String);

impl View for ParseError {
    type V = Seq<char>;

    open spec fn view(&self) -> Seq<char> {
        self.0@
    }
}

impl Clone for ParseError {
    fn clone(&self) -> (copy: ParseError)
        ensures
            copy == *self,
    {
        ParseError(self.0.clone())
    }
}

/// What kind of defect an error reports.
#[derive(Debug, PartialEq, Eq, Hash)]
pub enum SyntaxErrorKind {
    /// The text does not follow the grammar.
    ParseError(ParseError),
    /// A character or string literal could not be decoded.
    EscapeError(EscapeError),
    /// A piece of the text could not be cut into a token.
    TokenizeError(TokenizeError),
    /// Inner attributes on a block that cannot take any.
    InvalidBlockAttr,
    /// Inner attributes inside a match body, away from its opening brace.
    InvalidMatchInnerAttr,
    /// A tuple or struct index that is not a plain decimal integer.
    InvalidTupleIndexFormat,
    /// A visibility qualifier where none is allowed.
    VisibilityNotAllowed,
    /// An inclusive range without its end expression.
    InclusiveRangeMissingEnd,
}

impl Clone for SyntaxErrorKind {
    fn clone(&self) -> (copy: SyntaxErrorKind)
        ensures
            copy == *self,
    {
        match self {
            SyntaxErrorKind::ParseError(error) => SyntaxErrorKind::ParseError(error.clone()),
            SyntaxErrorKind::EscapeError(error) => SyntaxErrorKind::EscapeError(*error),
            SyntaxErrorKind::TokenizeError(error) => SyntaxErrorKind::TokenizeError(*error),
            SyntaxErrorKind::InvalidBlockAttr => SyntaxErrorKind::InvalidBlockAttr,
            SyntaxErrorKind::InvalidMatchInnerAttr => SyntaxErrorKind::InvalidMatchInnerAttr,
            SyntaxErrorKind::InvalidTupleIndexFormat => SyntaxErrorKind::InvalidTupleIndexFormat,
            SyntaxErrorKind::VisibilityNotAllowed => SyntaxErrorKind::VisibilityNotAllowed,
            SyntaxErrorKind::InclusiveRangeMissingEnd => SyntaxErrorKind::InclusiveRangeMissingEnd,
        }
    }
}

impl vstd::std_specs::convert::FromSpecImpl<EscapeError> for SyntaxErrorKind {
    open spec fn obeys_from_spec() -> bool {
        true
    }

    open spec fn from_spec(error: EscapeError) -> SyntaxErrorKind {
        SyntaxErrorKind::EscapeError(error)
    }
}

impl From<EscapeError> for SyntaxErrorKind {
    fn from(error: EscapeError) -> (kind: SyntaxErrorKind)
        ensures
            kind == SyntaxErrorKind::EscapeError(error),
    {
        SyntaxErrorKind::EscapeError(error)
    }
}

impl SyntaxErrorKind {
    /// The sentence shown for this kind. A grammar error is shown as the
    /// message it carries; a literal or lexical error as its own category
    /// is; every other kind has a sentence of its own.
    pub open spec fn message(self) -> Seq<char> {
        match self {
            SyntaxErrorKind::ParseError(error) => error@,
            SyntaxErrorKind::EscapeError(error) => error.message(),
            SyntaxErrorKind::TokenizeError(error) => error.message(),
            SyntaxErrorKind::InvalidBlockAttr =>
                "A block in this position cannot accept inner attributes"@,
            SyntaxErrorKind::InvalidMatchInnerAttr =>
                "Inner attributes are only allowed directly after the opening brace of the match expression"@,
            SyntaxErrorKind::InvalidTupleIndexFormat =>
                "Tuple (struct) field access is only allowed through decimal integers with no underscores or suffix"@,
            SyntaxErrorKind::VisibilityNotAllowed => "unnecessary visibility qualifier"@,
            SyntaxErrorKind::InclusiveRangeMissingEnd =>
                "An inclusive range must have an end expression"@,
        }
    }

    /// Every kind is shown as a sentence that is not empty, but for a
    /// grammar error that carries an empty message.
    pub proof fn lemma_message_nonempty(self)
        requires
            self matches SyntaxErrorKind::ParseError(error) ==> error@.len() > 0,
        ensures
            self.message().len() > 0,
    {
        match self {
            SyntaxErrorKind::EscapeError(error) => error.lemma_message_nonempty(),
            SyntaxErrorKind::TokenizeError(error) => error.lemma_message_nonempty(),
            _ => {},
        }
        reveal_strlit("A block in this position cannot accept inner attributes");
        reveal_strlit(
            "Inner attributes are only allowed directly after the opening brace of the match expression",
        );
        reveal_strlit(
            "Tuple (struct) field access is only allowed through decimal integers with no underscores or suffix",
        );
        reveal_strlit("unnecessary visibility qualifier");
        reveal_strlit("An inclusive range must have an end expression");
    }

    /// A literal error wrapped into a kind is found in it again, unchanged.
    pub proof fn lemma_escape_error_round_trip(error: EscapeError)
        ensures
            SyntaxErrorKind::from_spec(error) matches SyntaxErrorKind::EscapeError(found)
                && found == error,
    {
    }

    /// Writes the sentence shown for this kind. It depends on the kind
    /// alone, and only a grammar error can make it empty.
    pub fn to_string(&self) -> (s: String)
        ensures
            s@ == self.message(),
            !(self is ParseError) ==> s@.len() > 0,
    {
        proof {
            if !(self is ParseError) {
                self.lemma_message_nonempty();
            }
        }
        match self {
            SyntaxErrorKind::InvalidBlockAttr => {
                String::from_str("A block in this position cannot accept inner attributes")
            },
            SyntaxErrorKind::InvalidMatchInnerAttr => {
                String::from_str(
                    "Inner attributes are only allowed directly after the opening brace of the match expression",
                )
            },
            SyntaxErrorKind::InvalidTupleIndexFormat => {
                String::from_str(
                    "Tuple (struct) field access is only allowed through decimal integers with no underscores or suffix",
                )
            },
            SyntaxErrorKind::ParseError(error) => error.0.clone(),
            SyntaxErrorKind::EscapeError(error) => error.to_string(),
            SyntaxErrorKind::TokenizeError(error) => error.to_string(),
            SyntaxErrorKind::VisibilityNotAllowed => {
                String::from_str("unnecessary visibility qualifier")
            },
            SyntaxErrorKind::InclusiveRangeMissingEnd => {
                String::from_str("An inclusive range must have an end expression")
            },
        }
    }
}

} // verus!
