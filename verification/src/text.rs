//! Positions in the analysed text: a single offset, and a half-open range
//! between two offsets.

use crate::decimal::{decimal, decimal_string};
use crate::formatter::write_text;
use vstd::prelude::*;
use vstd::string::StringExecFns;

verus! {

/// An offset into the text, counted in units of its encoding. Offsets are
/// ordered as their values are.
#[derive(Clone, Copy, PartialEq, Eq, PartialOrd, Ord, Hash, Structural)]
pub struct TextUnit(pub u32);

impl View for TextUnit {
    type V = int;

    open spec fn view(&self) -> int {
        self.0 as int
    }
}

impl vstd::std_specs::convert::FromSpecImpl<u32> for TextUnit {
    open spec fn obeys_from_spec() -> bool {
        true
    }

    open spec fn from_spec(raw: u32) -> TextUnit {
        TextUnit(raw)
    }
}

impl From<u32> for TextUnit {
    fn from(raw: u32) -> (unit: TextUnit)
        ensures
            unit@ == raw,
    {
        TextUnit(raw)
    }
}

impl vstd::std_specs::ops::AddSpecImpl<TextUnit> for TextUnit {
    open spec fn obeys_add_spec() -> bool {
        true
    }

    open spec fn add_req(self, rhs: TextUnit) -> bool {
        self@ + rhs@ <= u32::MAX
    }

    open spec fn add_spec(self, rhs: TextUnit) -> TextUnit {
        TextUnit((self@ + rhs@) as u32)
    }
}

impl core::ops::Add<TextUnit> for TextUnit {
    type Output = TextUnit;

    /// The offset `rhs` units further on. The sum has to fit the offset type.
    fn add(self, rhs: TextUnit) -> (sum: TextUnit)
        ensures
            sum@ == self@ + rhs@,
    {
        TextUnit(self.0 + rhs.0)
    }
}

impl vstd::std_specs::ops::SubSpecImpl<TextUnit> for TextUnit {
    open spec fn obeys_sub_spec() -> bool {
        true
    }

    open spec fn sub_req(self, rhs: TextUnit) -> bool {
        rhs@ <= self@
    }

    open spec fn sub_spec(self, rhs: TextUnit) -> TextUnit {
        TextUnit((self@ - rhs@) as u32)
    }
}

impl core::ops::Sub<TextUnit> for TextUnit {
    type Output = TextUnit;

    /// The offset `rhs` units further back. `rhs` may not exceed `self`.
    fn sub(self, rhs: TextUnit) -> (difference: TextUnit)
        ensures
            difference@ == self@ - rhs@,
    {
        TextUnit(self.0 - rhs.0)
    }
}

impl TextUnit {
    /// How the offset is written: its value in decimal notation.
    pub open spec fn text(self) -> Seq<char> {
        decimal(self@ as nat)
    }

    /// Writes the offset as its value in decimal notation.
    pub fn to_string(&self) -> (s: String)
        ensures
            s@ == self.text(),
    {
        decimal_string(self.0)
    }
}

impl core::fmt::Debug for TextUnit {
    /// An offset is shown as it is written, with nothing around it.
    fn fmt(&self, f: &mut core::fmt::Formatter<'_>) -> Result<(), core::fmt::Error> {
        let text = self.to_string();
        write_text(f, text.as_str())
    }
}

/// The half-open range `[start, end)` of the text. The start never lies
/// behind the end.
#[derive(Clone, Copy, PartialEq, Eq, Hash, Structural)]
pub struct TextRange {
    start: TextUnit,
    end: TextUnit,
}

impl TextRange {
    /// The start does not lie behind the end. Every range that executable
    /// code holds is well formed.
    #[verifier::type_invariant]
    pub open spec fn wf(self) -> bool {
        self.start()@ <= self.end()@
    }

    /// The inclusive start of the range.
    pub closed spec fn spec_start(&self) -> TextUnit {
        self.start
    }

    /// The exclusive end of the range.
    pub closed spec fn spec_end(&self) -> TextUnit {
        self.end
    }

    /// The range with the given endpoints.
    pub closed spec fn spec_from_to(from: TextUnit, to: TextUnit) -> TextRange {
        TextRange { start: from, end: to }
    }

    /// A range is its two endpoints and nothing else.
    pub proof fn lemma_endpoints(self)
        ensures
            self == TextRange::spec_from_to(self.start(), self.end()),
    {
    }

    /// `spec_from_to` gives the range that starts at `from` and ends at `to`.
    pub proof fn lemma_from_to(from: TextUnit, to: TextUnit)
        ensures
            TextRange::spec_from_to(from, to).start() == from,
            TextRange::spec_from_to(from, to).end() == to,
    {
    }

    /// The range `[from, to)`.
    #[verifier::when_used_as_spec(spec_from_to)]
    pub fn from_to(from: TextUnit, to: TextUnit) -> (range: TextRange)
        requires
            from@ <= to@,
        ensures
            range == TextRange::spec_from_to(from, to),
            range.start() == from,
            range.end() == to,
    {
        TextRange { start: from, end: to }
    }

    /// The inclusive start of the range.
    #[verifier::when_used_as_spec(spec_start)]
    pub fn start(&self) -> (start: TextUnit)
        ensures
            start == self.spec_start(),
    {
        self.start
    }

    /// The exclusive end of the range.
    #[verifier::when_used_as_spec(spec_end)]
    pub fn end(&self) -> (end: TextUnit)
        ensures
            end == self.spec_end(),
    {
        self.end
    }

    /// How the range is written: `[start; end)`, both in decimal notation.
    pub open spec fn text(self) -> Seq<char> {
        "["@ + self.start().text() + "; "@ + self.end().text() + ")"@
    }

    /// Writes the range as `[start; end)`.
    pub fn to_string(&self) -> (s: String)
        ensures
            s@ == self.text(),
    {
        let mut s = String::from_str("[");
        let start = self.start.to_string();
        s.append(start.as_str());
        s.append("; ");
        let end = self.end.to_string();
        s.append(end.as_str());
        s.append(")");
        s
    }
}

impl core::fmt::Debug for TextRange {
    /// A range is shown as it is written, with nothing around it.
    fn fmt(&self, f: &mut core::fmt::Formatter<'_>) -> Result<(), core::fmt::Error> {
        let text = self.to_string();
        write_text(f, text.as_str())
    }
}

impl vstd::std_specs::ops::AddSpecImpl<TextUnit> for TextRange {
    open spec fn obeys_add_spec() -> bool {
        true
    }

    open spec fn add_req(self, rhs: TextUnit) -> bool {
        self.end()@ + rhs@ <= u32::MAX
    }

    open spec fn add_spec(self, rhs: TextUnit) -> TextRange {
        TextRange::from_to(
            TextUnit((self.start()@ + rhs@) as u32),
            TextUnit((self.end()@ + rhs@) as u32),
        )
    }
}

impl core::ops::Add<TextUnit> for TextRange {
    type Output = TextRange;

    /// The range of the same length that lies `rhs` units further on. Its
    /// end has to fit the offset type.
    fn add(self, rhs: TextUnit) -> (moved: TextRange)
        ensures
            moved.start()@ == self.start()@ + rhs@,
            moved.end()@ == self.end()@ + rhs@,
    {
        proof {
            use_type_invariant(&self);
        }
        TextRange::from_to(self.start + rhs, self.end + rhs)
    }
}

impl vstd::std_specs::ops::SubSpecImpl<TextUnit> for TextRange {
    open spec fn obeys_sub_spec() -> bool {
        true
    }

    open spec fn sub_req(self, rhs: TextUnit) -> bool {
        rhs@ <= self.start()@
    }

    open spec fn sub_spec(self, rhs: TextUnit) -> TextRange {
        TextRange::from_to(
            TextUnit((self.start()@ - rhs@) as u32),
            TextUnit((self.end()@ - rhs@) as u32),
        )
    }
}

impl core::ops::Sub<TextUnit> for TextRange {
    type Output = TextRange;

    /// The range of the same length that lies `rhs` units further back.
    /// `rhs` may not exceed its start.
    fn sub(self, rhs: TextUnit) -> (moved: TextRange)
        ensures
            moved.start()@ == self.start()@ - rhs@,
            moved.end()@ == self.end()@ - rhs@,
    {
        proof {
            use_type_invariant(&self);
        }
        TextRange::from_to(self.start - rhs, self.end - rhs)
    }
}

} // verus!
