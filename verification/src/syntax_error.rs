//! An error category together with the place in the text it refers to.

use crate::kind::SyntaxErrorKind;
use crate::location::Location;
use crate::text::TextUnit;
use vstd::prelude::*;
use vstd::std_specs::convert::IntoSpec;
use vstd::string::StringExecFns;

verus! {

/// A defect found in the text: what kind it is, and where it sits. The
/// value never changes once built; moving it gives a new value.
#[derive(Debug, PartialEq, Eq, Hash)]
pub struct SyntaxError {
    kind: SyntaxErrorKind,
    location: Location,
}

impl Clone for SyntaxError {
    fn clone(&self) -> (copy: SyntaxError)
        ensures
            copy == *self,
    {
        SyntaxError { kind: self.kind.clone(), location: self.location.clone() }
    }
}

impl SyntaxError {
    /// The kind of the error.
    pub closed spec fn spec_kind(&self) -> SyntaxErrorKind {
        self.kind
    }

    /// The place of the error.
    pub closed spec fn spec_location(&self) -> Location {
        self.location
    }

    /// The place of the error is well formed. Every error that executable
    /// code holds is well formed.
    pub open spec fn wf(self) -> bool {
        self.location().wf()
    }

    /// An error is its kind and its place and nothing else: two errors that
    /// agree on both are the same error.
    pub proof fn lemma_ext(self, other: SyntaxError)
        requires
            self.kind() == other.kind(),
            self.location() == other.location(),
        ensures
            self == other,
    {
    }

    /// An error of the given kind at `loc`, which is an offset, a range or
    /// a location. Its place is what `loc` converts into: the offset or the
    /// range as given, and a location itself.
    pub fn new<L: Into<Location>>(kind: SyntaxErrorKind, loc: L) -> (error: SyntaxError)
        ensures
            error.kind() == kind,
            L::obeys_into_spec() ==> error.location() == loc.into_spec(),
            call_ensures(<L as Into<Location>>::into, (loc,), error.location()),
    {
        SyntaxError { kind, location: loc.into() }
    }

    /// A copy of the kind of the error.
    #[verifier::when_used_as_spec(spec_kind)]
    pub fn kind(&self) -> (kind: SyntaxErrorKind)
        ensures
            kind == self.spec_kind(),
    {
        self.kind.clone()
    }

    /// A copy of the place of the error.
    #[verifier::when_used_as_spec(spec_location)]
    pub fn location(&self) -> (location: Location)
        ensures
            location == self.spec_location(),
    {
        self.location.clone()
    }

    /// A single point that stands for the place of the error: the offset
    /// itself, or the start of the range.
    pub fn offset(&self) -> (point: TextUnit)
        ensures
            point == self.location().offset(),
    {
        self.location.offset()
    }

    /// The same error with its place moved by `plus - minus`.
    pub closed spec fn spec_add_offset(self, plus: TextUnit, minus: TextUnit) -> SyntaxError {
        SyntaxError { kind: self.kind, location: self.location.add_offset(plus, minus) }
    }

    /// Moves the error into the coordinates of an enclosing text: `plus` is
    /// added to every endpoint of its place, then `minus` is taken away.
    /// The kind stays as it is. Neither step may leave the offset type;
    /// `Location::can_add_offset` tells whether that holds.
    #[verifier::when_used_as_spec(spec_add_offset)]
    pub fn add_offset(self, plus: TextUnit, minus: TextUnit) -> (moved: SyntaxError)
        requires
            self.location()@.can_shift(plus@, minus@),
        ensures
            moved == self.spec_add_offset(plus, minus),
            moved.kind() == self.kind(),
            moved.location() == self.location().add_offset(plus, minus),
            moved.location()@ == self.location()@.shift(plus@, minus@),
    {
        let mut moved = self;
        moved.location = moved.location.add_offset(plus, minus);
        moved
    }

    /// Moving twice is moving once by the sums: `(a, b)` and then `(c, d)`
    /// give what `(a + c, b + d)` gives, where `b + d` does not exceed the
    /// start of the place and its end with `a + c` added fits the offset
    /// type. All three moves are then allowed.
    pub proof fn lemma_add_offset_composes(
        self,
        a: TextUnit,
        b: TextUnit,
        c: TextUnit,
        d: TextUnit,
    )
        requires
            self.wf(),
            b@ + d@ <= self.location()@.start(),
            self.location()@.end() + a@ + c@ <= u32::MAX,
        ensures
            self.location()@.can_shift(a@, b@),
            self.add_offset(a, b).location()@.can_shift(c@, d@),
            self.location()@.can_shift(a@ + c@, b@ + d@),
            self.add_offset(a, b).add_offset(c, d) == self.add_offset(
                TextUnit((a@ + c@) as u32),
                TextUnit((b@ + d@) as u32),
            ),
    {
        self.location.lemma_add_offset_composes(a, b, c, d);
    }

    /// Writes the sentence shown for the error: that of its kind. Only a
    /// grammar error can make it empty.
    pub fn to_string(&self) -> (s: String)
        ensures
            s@ == self.kind().message(),
            !(self.kind() is ParseError) ==> s@.len() > 0,
    {
        self.kind.to_string()
    }

    /// The line that `debug_dump` writes for the error.
    pub open spec fn dump_line(self) -> Seq<char> {
        "error "@ + self.location().text() + ": "@ + self.kind().message() + "\n"@
    }

    /// Appends one line to `acc`: the word `error`, the place, a colon, and
    /// the sentence shown for the kind.
    pub fn debug_dump(&self, acc: &mut String)
        ensures
            final(acc)@ == old(acc)@ + self.dump_line(),
    {
        let place = self.location.debug_string();
        let sentence = self.kind.to_string();
        acc.append("error ");
        acc.append(place.as_str());
        acc.append(": ");
        acc.append(sentence.as_str());
        acc.append("\n");
        assert(final(acc)@ =~= old(acc)@ + self.dump_line());
    }
}

} // verus!
