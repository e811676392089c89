//! Where an error is anchored: at a single offset or over a range.

use crate::text::{TextRange, TextUnit};
use vstd::prelude::*;

verus! {

/// What a location denotes, over the mathematical integers: a point, or the
/// two endpoints of a span.
pub enum Anchor {
    Point(int),
    Span(int, int),
}

impl Anchor {
    /// The first position: the point itself, or the start of the span.
    pub open spec fn start(self) -> int {
        match self {
            Anchor::Point(point) => point,
            Anchor::Span(start, _) => start,
        }
    }

    /// The last endpoint: the point itself, or the end of the span.
    pub open spec fn end(self) -> int {
        match self {
            Anchor::Point(point) => point,
            Anchor::Span(_, end) => end,
        }
    }

    /// Every endpoint is a value of the offset type, and a span does not
    /// end before it starts.
    pub open spec fn in_bounds(self) -> bool {
        0 <= self.start() <= self.end() <= u32::MAX
    }

    /// The same shape with every endpoint moved by `plus - minus`.
    pub open spec fn shift(self, plus: int, minus: int) -> Anchor {
        match self {
            Anchor::Point(point) => Anchor::Point(point + plus - minus),
            Anchor::Span(start, end) => Anchor::Span(start + plus - minus, end + plus - minus),
        }
    }

    /// Adding `plus` to every endpoint and then taking `minus` away never
    /// leaves the offset type.
    pub open spec fn can_shift(self, plus: int, minus: int) -> bool {
        &&& self.end() + plus <= u32::MAX
        &&& minus <= self.start() + plus
    }
}

/// The place of an error in the text.
#[derive(PartialEq, Eq, Hash, Structural)]
pub enum Location {
    /// A single offset.
    Offset(TextUnit),
    /// A range of the text.
    Range(TextRange),
}

impl View for Location {
    type V = Anchor;

    open spec fn view(&self) -> Anchor {
        match *self {
            Location::Offset(offset) => Anchor::Point(offset@),
            Location::Range(range) => Anchor::Span(range.start()@, range.end()@),
        }
    }
}

impl Clone for Location {
    fn clone(&self) -> (copy: Location)
        ensures
            copy == *self,
    {
        match self {
            Location::Offset(offset) => Location::Offset(*offset),
            Location::Range(range) => Location::Range(*range),
        }
    }
}

impl core::fmt::Debug for Location {
    /// A location is shown as the offset or the range it holds is, with
    /// nothing added.
    fn fmt(&self, f: &mut core::fmt::Formatter<'_>) -> Result<(), core::fmt::Error> {
        match self {
            Location::Offset(it) => core::fmt::Debug::fmt(it, f),
            Location::Range(it) => core::fmt::Debug::fmt(it, f),
        }
    }
}

impl vstd::std_specs::convert::FromSpecImpl<TextUnit> for Location {
    open spec fn obeys_from_spec() -> bool {
        true
    }

    open spec fn from_spec(offset: TextUnit) -> Location {
        Location::Offset(offset)
    }
}

impl From<TextUnit> for Location {
    fn from(offset: TextUnit) -> (location: Location)
        ensures
            location == Location::Offset(offset),
    {
        Location::Offset(offset)
    }
}

impl vstd::std_specs::convert::FromSpecImpl<TextRange> for Location {
    open spec fn obeys_from_spec() -> bool {
        true
    }

    open spec fn from_spec(range: TextRange) -> Location {
        Location::Range(range)
    }
}

impl From<TextRange> for Location {
    fn from(range: TextRange) -> (location: Location)
        ensures
            location == Location::Range(range),
    {
        Location::Range(range)
    }
}

impl Location {
    /// A range location holds a well-formed range. Every location that
    /// executable code holds is well formed.
    pub open spec fn wf(self) -> bool {
        self matches Location::Range(range) ==> range.wf()
    }

    /// The location that denotes `anchor`.
    pub open spec fn of(anchor: Anchor) -> Location {
        match anchor {
            Anchor::Point(point) => Location::Offset(TextUnit(point as u32)),
            Anchor::Span(start, end) => Location::Range(
                TextRange::from_to(TextUnit(start as u32), TextUnit(end as u32)),
            ),
        }
    }

    /// A location is the one that denotes its own anchor, so two locations
    /// with the same anchor are the same location.
    pub proof fn lemma_of_view(self)
        ensures
            Location::of(self@) == self,
    {
        if let Location::Range(range) = self {
            range.lemma_endpoints();
        }
    }

    /// Within the offset type, an anchor is what its location denotes.
    pub proof fn lemma_view_of(anchor: Anchor)
        requires
            0 <= anchor.start() <= u32::MAX,
            0 <= anchor.end() <= u32::MAX,
        ensures
            Location::of(anchor)@ == anchor,
            anchor.in_bounds() ==> Location::of(anchor).wf(),
    {
        if let Anchor::Span(start, end) = anchor {
            TextRange::lemma_from_to(TextUnit(start as u32), TextUnit(end as u32));
        }
    }

    /// The representative point of the location.
    pub open spec fn spec_offset(&self) -> TextUnit {
        match *self {
            Location::Offset(offset) => offset,
            Location::Range(range) => range.start(),
        }
    }

    /// A single point that stands for the location: the offset itself, or
    /// the start of the range.
    #[verifier::when_used_as_spec(spec_offset)]
    pub fn offset(&self) -> (point: TextUnit)
        ensures
            point == self.spec_offset(),
            self matches Location::Offset(offset) ==> point == offset,
            self matches Location::Range(range) ==> point == range.start(),
            point@ == self@.start(),
    {
        match self {
            Location::Offset(offset) => *offset,
            Location::Range(range) => range.start(),
        }
    }

    /// The location that denotes this one's anchor moved by `plus - minus`.
    pub open spec fn spec_add_offset(self, plus: TextUnit, minus: TextUnit) -> Location {
        Location::of(self@.shift(plus@, minus@))
    }

    /// Whether `add_offset` may be called with these two adjustments.
    pub fn can_add_offset(&self, plus: TextUnit, minus: TextUnit) -> (ok: bool)
        ensures
            ok == self@.can_shift(plus@, minus@),
    {
        match self {
            Location::Offset(offset) => {
                plus.0 <= u32::MAX - offset.0 && minus.0 <= offset.0 + plus.0
            },
            Location::Range(range) => {
                proof {
                    use_type_invariant(range);
                }
                plus.0 <= u32::MAX - range.end().0 && minus.0 <= range.start().0 + plus.0
            },
        }
    }

    /// Moves the location: `plus` is added to every endpoint, then `minus`
    /// is taken away. A point stays a point and a range keeps its length.
    /// Neither step may leave the offset type; `can_add_offset` tells
    /// whether that holds.
    #[verifier::when_used_as_spec(spec_add_offset)]
    pub fn add_offset(self, plus: TextUnit, minus: TextUnit) -> (moved: Location)
        requires
            self@.can_shift(plus@, minus@),
        ensures
            moved == self.spec_add_offset(plus, minus),
            moved@ == self@.shift(plus@, minus@),
            self matches Location::Offset(offset) ==> moved == Location::Offset(
                TextUnit((offset@ + plus@ - minus@) as u32),
            ),
    {
        let moved = match self {
            Location::Range(range) => {
                proof {
                    use_type_invariant(&range);
                }
                Location::Range(range + plus - minus)
            },
            Location::Offset(offset) => Location::Offset(offset + plus - minus),
        };
        proof {
            moved.lemma_of_view();
        }
        moved
    }

    /// What `add_offset` gives denotes the moved anchor, and is well formed.
    pub proof fn lemma_add_offset_view(self, plus: TextUnit, minus: TextUnit)
        requires
            self.wf(),
            self@.can_shift(plus@, minus@),
        ensures
            self.add_offset(plus, minus)@ == self@.shift(plus@, minus@),
            self.add_offset(plus, minus).wf(),
    {
        Location::lemma_view_of(self@.shift(plus@, minus@));
    }

    /// Moving a point by `plus` and `minus`, where `minus` does not exceed
    /// the point and the sum fits the offset type, gives the point
    /// `offset + plus - minus`.
    pub proof fn lemma_add_offset_of_point(offset: TextUnit, plus: TextUnit, minus: TextUnit)
        requires
            minus@ <= offset@,
            offset@ + plus@ <= u32::MAX,
        ensures
            Location::Offset(offset)@.can_shift(plus@, minus@),
            Location::Offset(offset).add_offset(plus, minus) == Location::Offset(
                TextUnit((offset@ + plus@ - minus@) as u32),
            ),
    {
    }

    /// Moving twice is moving once by the sums: `(a, b)` and then `(c, d)`
    /// give what `(a + c, b + d)` gives, where `b + d` does not exceed the
    /// start and the end with `a + c` added fits the offset type. All
    /// three moves are then allowed.
    pub proof fn lemma_add_offset_composes(
        self,
        a: TextUnit,
        b: TextUnit,
        c: TextUnit,
        d: TextUnit,
    )
        requires
            self.wf(),
            b@ + d@ <= self@.start(),
            self@.end() + a@ + c@ <= u32::MAX,
        ensures
            self@.can_shift(a@, b@),
            self.add_offset(a, b)@.can_shift(c@, d@),
            self@.can_shift(a@ + c@, b@ + d@),
            self.add_offset(a, b).add_offset(c, d) == self.add_offset(
                TextUnit((a@ + c@) as u32),
                TextUnit((b@ + d@) as u32),
            ),
    {
        self.lemma_add_offset_view(a, b);
    }

    /// How the location is written: as the offset or the range it holds is,
    /// with nothing added.
    pub open spec fn text(self) -> Seq<char> {
        match self {
            Location::Offset(offset) => offset.text(),
            Location::Range(range) => range.text(),
        }
    }

    /// Writes the location as the offset or the range it holds is written.
    pub fn debug_string(&self) -> (s: String)
        ensures
            s@ == self.text(),
    {
        match self {
            Location::Offset(offset) => offset.to_string(),
            Location::Range(range) => range.to_string(),
        }
    }
}

} // verus!
