//! The lexical categories: why a piece of text could not be cut into a token.

use vstd::prelude::*;
use vstd::string::StringExecFns;

verus! {

/// A malformed token, classified by its exact lexical cause.
#[derive(Debug, Clone, Copy, PartialEq, Eq, Hash, Structural)]
pub enum TokenizeError {
    /// An integer base prefix such as `0x` with no digit behind it.
    EmptyInt,
    /// A float exponent marker with no digit behind it.
    EmptyExponent,
    /// A block comment that is never closed.
    UnterminatedBlockComment,
    /// A character literal without its closing quote.
    UnterminatedChar,
    /// A byte literal without its closing quote.
    UnterminatedByte,
    /// A string literal without its closing quote.
    UnterminatedString,
    /// A byte string literal without its closing quote.
    UnterminatedByteString,
    /// A raw string literal without its closing quote and hashes.
    UnterminatedRawString,
    /// A raw byte string literal without its closing quote and hashes.
    UnterminatedRawByteString,
    /// A raw string literal whose hashes are not followed by a quote.
    UnstartedRawString,
    /// A raw byte string literal whose hashes are not followed by a quote.
    UnstartedRawByteString,
    /// A lifetime whose name begins with a digit.
    LifetimeStartsWithNumber,
}

impl TokenizeError {
    /// The sentence shown for this category.
    pub open spec fn message(self) -> Seq<char> {
        match self {
            TokenizeError::EmptyInt => "Missing digits after the integer base prefix"@,
            TokenizeError::EmptyExponent => "Missing digits after the exponent symbol"@,
            TokenizeError::UnterminatedBlockComment =>
                "Missing trailing `*/` symbols to terminate the block comment"@,
            TokenizeError::UnterminatedChar =>
                "Missing trailing `'` symbol to terminate the character literal"@,
            TokenizeError::UnterminatedByte =>
                "Missing trailing `'` symbol to terminate the byte literal"@,
            TokenizeError::UnterminatedString =>
                "Missing trailing `\"` symbol to terminate the string literal"@,
            TokenizeError::UnterminatedByteString =>
                "Missing trailing `\"` symbol to terminate the byte string literal"@,
            TokenizeError::UnterminatedRawString =>
                "Missing trailing `\"` with `#` symbols to terminate the raw string literal"@,
            TokenizeError::UnterminatedRawByteString =>
                "Missing trailing `\"` with `#` symbols to terminate the raw byte string literal"@,
            TokenizeError::UnstartedRawString =>
                "Missing `\"` symbol after `#` symbols to begin the raw string literal"@,
            TokenizeError::UnstartedRawByteString =>
                "Missing `\"` symbol after `#` symbols to begin the raw byte string literal"@,
            TokenizeError::LifetimeStartsWithNumber => "Lifetime name cannot start with a number"@,
        }
    }

    /// No category is shown as an empty sentence.
    pub proof fn lemma_message_nonempty(self)
        ensures
            self.message().len() > 0,
    {
        reveal_strlit("Missing digits after the integer base prefix");
        reveal_strlit("Missing digits after the exponent symbol");
        reveal_strlit("Missing trailing `*/` symbols to terminate the block comment");
        reveal_strlit("Missing trailing `'` symbol to terminate the character literal");
        reveal_strlit("Missing trailing `'` symbol to terminate the byte literal");
        reveal_strlit("Missing trailing `\"` symbol to terminate the string literal");
        reveal_strlit("Missing trailing `\"` symbol to terminate the byte string literal");
        reveal_strlit("Missing trailing `\"` with `#` symbols to terminate the raw string literal");
        reveal_strlit(
            "Missing trailing `\"` with `#` symbols to terminate the raw byte string literal",
        );
        reveal_strlit("Missing `\"` symbol after `#` symbols to begin the raw string literal");
        reveal_strlit("Missing `\"` symbol after `#` symbols to begin the raw byte string literal");
        reveal_strlit("Lifetime name cannot start with a number");
    }

    /// The sentence for this category, without allocating.
    pub fn as_str(&self) -> (s: &'static str)
        ensures
            s@ == self.message(),
            s@.len() > 0,
    {
        proof {
            self.lemma_message_nonempty();
        }
        match self {
            TokenizeError::EmptyInt => "Missing digits after the integer base prefix",
            TokenizeError::EmptyExponent => "Missing digits after the exponent symbol",
            TokenizeError::UnterminatedBlockComment => {
                "Missing trailing `*/` symbols to terminate the block comment"
            },
            TokenizeError::UnterminatedChar => {
                "Missing trailing `'` symbol to terminate the character literal"
            },
            TokenizeError::UnterminatedByte => {
                "Missing trailing `'` symbol to terminate the byte literal"
            },
            TokenizeError::UnterminatedString => {
                "Missing trailing `\"` symbol to terminate the string literal"
            },
            TokenizeError::UnterminatedByteString => {
                "Missing trailing `\"` symbol to terminate the byte string literal"
            },
            TokenizeError::UnterminatedRawString => {
                "Missing trailing `\"` with `#` symbols to terminate the raw string literal"
            },
            TokenizeError::UnterminatedRawByteString => {
                "Missing trailing `\"` with `#` symbols to terminate the raw byte string literal"
            },
            TokenizeError::UnstartedRawString => {
                "Missing `\"` symbol after `#` symbols to begin the raw string literal"
            },
            TokenizeError::UnstartedRawByteString => {
                "Missing `\"` symbol after `#` symbols to begin the raw byte string literal"
            },
            TokenizeError::LifetimeStartsWithNumber => "Lifetime name cannot start with a number",
        }
    }

    /// The sentence for this category as an owned string.
    pub fn to_string(&self) -> (s: String)
        ensures
            s@ == self.message(),
            s@.len() > 0,
    {
        String::from_str(self.as_str())
    }
}

} // verus!
