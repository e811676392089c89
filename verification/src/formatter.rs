//! The formatter of the standard library, as far as the debug
//! representations need it.

use vstd::prelude::*;

verus! {

/// `core::fmt::Formatter`, which nothing here looks into.
#[verifier::external_type_specification]
#[verifier::external_body]
pub struct ExFormatter<'a>(core::fmt::Formatter<'a>);

/// `core::fmt::Error`, which nothing here looks into.
#[verifier::external_type_specification]
#[verifier::external_body]
pub struct ExFmtError(core::fmt::Error);

/// Calls `core::fmt::Formatter::write_str`, which hands `text` to the
/// formatter. Nothing is claimed of the formatter afterwards, nor of
/// whether it took the text.
#[verifier::external_body]
pub(crate) fn write_text(f: &mut core::fmt::Formatter<'_>, text: &str) -> (taken: Result<
    (),
    core::fmt::Error,
>) {
    f.write_str(text)
}

} // verus!
