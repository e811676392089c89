//! Positioned syntax errors: where in the analysed text a defect sits, which
//! category it falls under, and the fixed sentence shown for it.

mod convert;
pub mod decimal;
pub mod escape_error;
mod formatter;
pub mod kind;
pub mod location;
pub mod syntax_error;
pub mod text;
pub mod tokenize_error;

pub use escape_error::EscapeError;
pub use kind::{ParseError, SyntaxErrorKind};
pub use location::{Anchor, Location};
pub use syntax_error::SyntaxError;
pub use text::{TextRange, TextUnit};
pub use tokenize_error::TokenizeError;
