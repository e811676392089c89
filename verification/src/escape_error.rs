//! The literal-escape categories: why a character or string literal could not
//! be decoded.

use vstd::prelude::*;
use vstd::string::StringExecFns;

verus! {

/// A malformed character, byte or string literal, classified by what went
/// wrong while decoding it.
#[derive(Debug, Clone, Copy, PartialEq, Eq, Hash, Structural)]
pub enum EscapeError {
    /// A literal with nothing between its quotes.
    ZeroChars,
    /// More than one character where exactly one is allowed.
    MoreThanOneChar,
    /// A backslash with nothing behind it.
    LoneSlash,
    /// A backslash followed by a letter that names no escape.
    InvalidEscape,
    /// An unescaped carriage return.
    BareCarriageReturn,
    /// A character that has to be escaped and was not.
    EscapeOnlyChar,
    /// A hex escape with fewer than two digits.
    TooShortHexEscape,
    /// A hex escape holding something other than a hex digit.
    InvalidCharInHexEscape,
    /// A hex escape whose value lies outside ASCII.
    OutOfRangeHexEscape,
    /// A unicode escape without its opening brace.
    NoBraceInUnicodeEscape,
    /// A unicode escape holding something other than a hex digit.
    InvalidCharInUnicodeEscape,
    /// A unicode escape with no digit between its braces.
    EmptyUnicodeEscape,
    /// A unicode escape without its closing brace.
    UnclosedUnicodeEscape,
    /// A unicode escape whose digits begin with an underscore.
    LeadingUnderscoreUnicodeEscape,
    /// A unicode escape with more than six digits.
    OverlongUnicodeEscape,
    /// A unicode escape that names a surrogate code point.
    LoneSurrogateUnicodeEscape,
    /// A unicode escape whose value lies above `0x10FFFF`.
    OutOfRangeUnicodeEscape,
    /// A unicode escape inside a byte or byte string literal.
    UnicodeEscapeInByte,
    /// A character outside ASCII inside a byte or byte string literal.
    NonAsciiCharInByte,
}

impl EscapeError {
    /// The sentence shown for this category. Several unicode-escape
    /// categories share the sentence of `InvalidEscape`.
    pub open spec fn message(self) -> Seq<char> {
        match self {
            EscapeError::ZeroChars => "Empty literal"@,
            EscapeError::MoreThanOneChar => "Literal should be one character long"@,
            EscapeError::LoneSlash => "Character must be escaped: '\\'"@,
            EscapeError::InvalidEscape => "Invalid escape sequence"@,
            EscapeError::BareCarriageReturn => "Character must be escaped: '\r'"@,
            EscapeError::EscapeOnlyChar => "Character must be escaped"@,
            EscapeError::TooShortHexEscape => "Escape sequence should have two digits"@,
            EscapeError::InvalidCharInHexEscape =>
                "Escape sequence should be a hexadecimal number"@,
            EscapeError::OutOfRangeHexEscape => "Escape sequence should be ASCII"@,
            EscapeError::NoBraceInUnicodeEscape => "Invalid escape sequence"@,
            EscapeError::InvalidCharInUnicodeEscape => "Invalid escape sequence"@,
            EscapeError::EmptyUnicodeEscape => "Invalid escape sequence"@,
            EscapeError::UnclosedUnicodeEscape => "Missing '}'"@,
            EscapeError::LeadingUnderscoreUnicodeEscape => "Invalid escape sequence"@,
            EscapeError::OverlongUnicodeEscape =>
                "Unicode escape sequence should have at most 6 digits"@,
            EscapeError::LoneSurrogateUnicodeEscape =>
                "Unicode escape code should not be a surrogate"@,
            EscapeError::OutOfRangeUnicodeEscape =>
                "Unicode escape code should be at most 0x10FFFF"@,
            EscapeError::UnicodeEscapeInByte => "Unicode escapes are not allowed in bytes"@,
            EscapeError::NonAsciiCharInByte => "Non ASCII characters are not allowed in bytes"@,
        }
    }

    /// No category is shown as an empty sentence.
    pub proof fn lemma_message_nonempty(self)
        ensures
            self.message().len() > 0,
    {
        reveal_strlit("Empty literal");
        reveal_strlit("Literal should be one character long");
        reveal_strlit("Character must be escaped: '\\'");
        reveal_strlit("Invalid escape sequence");
        reveal_strlit("Character must be escaped: '\r'");
        reveal_strlit("Character must be escaped");
        reveal_strlit("Escape sequence should have two digits");
        reveal_strlit("Escape sequence should be a hexadecimal number");
        reveal_strlit("Escape sequence should be ASCII");
        reveal_strlit("Missing '}'");
        reveal_strlit("Unicode escape sequence should have at most 6 digits");
        reveal_strlit("Unicode escape code should not be a surrogate");
        reveal_strlit("Unicode escape code should be at most 0x10FFFF");
        reveal_strlit("Unicode escapes are not allowed in bytes");
        reveal_strlit("Non ASCII characters are not allowed in bytes");
    }

    /// The sentence for this category, without allocating.
    pub fn as_str(&self) -> (s: &'static str)
        ensures
            s@ == self.message(),
            s@.len() > 0,
    {
        proof {
            self.lemma_message_nonempty();
        }
        match self {
            EscapeError::ZeroChars => "Empty literal",
            EscapeError::MoreThanOneChar => "Literal should be one character long",
            EscapeError::LoneSlash => "Character must be escaped: '\\'",
            EscapeError::InvalidEscape => "Invalid escape sequence",
            EscapeError::BareCarriageReturn => "Character must be escaped: '\r'",
            EscapeError::EscapeOnlyChar => "Character must be escaped",
            EscapeError::TooShortHexEscape => "Escape sequence should have two digits",
            EscapeError::InvalidCharInHexEscape => "Escape sequence should be a hexadecimal number",
            EscapeError::OutOfRangeHexEscape => "Escape sequence should be ASCII",
            EscapeError::NoBraceInUnicodeEscape => "Invalid escape sequence",
            EscapeError::InvalidCharInUnicodeEscape => "Invalid escape sequence",
            EscapeError::EmptyUnicodeEscape => "Invalid escape sequence",
            EscapeError::UnclosedUnicodeEscape => "Missing '}'",
            EscapeError::LeadingUnderscoreUnicodeEscape => "Invalid escape sequence",
            EscapeError::OverlongUnicodeEscape => {
                "Unicode escape sequence should have at most 6 digits"
            },
            EscapeError::LoneSurrogateUnicodeEscape => {
                "Unicode escape code should not be a surrogate"
            },
            EscapeError::OutOfRangeUnicodeEscape => {
                "Unicode escape code should be at most 0x10FFFF"
            },
            EscapeError::UnicodeEscapeInByte => "Unicode escapes are not allowed in bytes",
            EscapeError::NonAsciiCharInByte => "Non ASCII characters are not allowed in bytes",
        }
    }

    /// The sentence for this category as an owned string.
    pub fn to_string(&self) -> (s: String)
        ensures
            s@ == self.message(),
            s@.len() > 0,
    {
        String::from_str(self.as_str())
    }
}

} // verus!
