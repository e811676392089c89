use syntax_error::{
    EscapeError, Location, ParseError, SyntaxError, SyntaxErrorKind, TextRange, TextUnit,
    TokenizeError,
};

fn unit(raw: u32) -> TextUnit {
    TextUnit::from(raw)
}

fn span(from: u32, to: u32) -> TextRange {
    TextRange::from_to(unit(from), unit(to))
}

#[test]
fn tokenize_error_at_an_offset() {
    let error = SyntaxError::new(SyntaxErrorKind::TokenizeError(TokenizeError::EmptyInt), unit(5));
    assert_eq!(error.to_string(), "Missing digits after the integer base prefix");
    assert_eq!(error.offset(), unit(5));
    assert_eq!(error.location(), Location::Offset(unit(5)));
    assert_eq!(error.kind(), SyntaxErrorKind::TokenizeError(TokenizeError::EmptyInt));
}

#[test]
fn escape_error_over_a_range() {
    let error = SyntaxError::new(EscapeError::UnclosedUnicodeEscape.into(), span(2, 4));
    assert_eq!(error.to_string(), "Missing '}'");
    assert_eq!(error.offset(), unit(2));
    let moved = error.add_offset(unit(10), unit(0));
    assert_eq!(moved.location(), Location::Range(span(12, 14)));
    assert_eq!(moved.kind(), SyntaxErrorKind::EscapeError(EscapeError::UnclosedUnicodeEscape));
    assert_eq!(moved.to_string(), "Missing '}'");
    assert_eq!(moved.offset(), unit(12));
}

#[test]
fn new_takes_a_location_as_it_is() {
    let at = Location::Range(span(1, 3));
    let error = SyntaxError::new(SyntaxErrorKind::VisibilityNotAllowed, at.clone());
    assert_eq!(error.location(), at);
}

#[test]
fn add_offset_keeps_the_kind_and_moves_a_point() {
    let kind = SyntaxErrorKind::ParseError(ParseError("expected R_PAREN".to_string()));
    let error = SyntaxError::new(kind.clone(), unit(7));
    let moved = error.add_offset(unit(100), unit(7));
    assert_eq!(moved.kind(), kind);
    assert_eq!(moved.location(), Location::Offset(unit(100)));
}

#[test]
fn add_offset_twice_is_once_by_the_sums() {
    let error = SyntaxError::new(SyntaxErrorKind::InvalidBlockAttr, span(20, 30));
    let twice = error.clone().add_offset(unit(4), unit(7)).add_offset(unit(9), unit(13));
    let once = error.add_offset(unit(13), unit(20));
    assert_eq!(twice, once);
    assert_eq!(once.location(), Location::Range(span(13, 23)));
}

#[test]
fn debug_dump_writes_one_line() {
    let mut out = String::new();
    let first = SyntaxError::new(
        SyntaxErrorKind::ParseError(ParseError("expected COMMA".to_string())),
        unit(21),
    );
    first.debug_dump(&mut out);
    assert_eq!(out, "error 21: expected COMMA\n");
    let second = SyntaxError::new(EscapeError::ZeroChars.into(), span(12, 14));
    second.debug_dump(&mut out);
    assert_eq!(out, "error 21: expected COMMA\nerror [12; 14): Empty literal\n");
}

#[test]
fn debug_dump_keeps_what_was_there() {
    let mut out = String::from("before\n");
    let error = SyntaxError::new(SyntaxErrorKind::InclusiveRangeMissingEnd, unit(0));
    error.debug_dump(&mut out);
    assert_eq!(out, "before\nerror 0: An inclusive range must have an end expression\n");
}

#[test]
fn errors_compare_by_kind_and_location() {
    let a = SyntaxError::new(SyntaxErrorKind::InvalidBlockAttr, unit(1));
    let b = SyntaxError::new(SyntaxErrorKind::InvalidBlockAttr, unit(1));
    let c = SyntaxError::new(SyntaxErrorKind::InvalidBlockAttr, unit(2));
    let d = SyntaxError::new(SyntaxErrorKind::VisibilityNotAllowed, unit(1));
    assert_eq!(a, b);
    assert_ne!(a, c);
    assert_ne!(a, d);
    assert_eq!(a.clone(), a);
}

#[test]
fn error_debug_shows_the_location_bare() {
    let error = SyntaxError::new(SyntaxErrorKind::InvalidBlockAttr, span(2, 4));
    assert_eq!(
        format!("{:?}", error),
        "SyntaxError { kind: InvalidBlockAttr, location: [2; 4) }"
    );
}

#[test]
fn new_stores_offset_range_and_location_alike() {
    let from_offset = SyntaxError::new(SyntaxErrorKind::InvalidBlockAttr, unit(0));
    assert_eq!(from_offset.location(), Location::Offset(unit(0)));
    let from_range = SyntaxError::new(SyntaxErrorKind::InvalidBlockAttr, span(3, 3));
    assert_eq!(from_range.location(), Location::Range(span(3, 3)));
    let from_location =
        SyntaxError::new(SyntaxErrorKind::InvalidBlockAttr, Location::Range(span(3, 3)));
    assert_eq!(from_location, from_range);
    let from_point = SyntaxError::new(SyntaxErrorKind::InvalidBlockAttr, Location::Offset(unit(0)));
    assert_eq!(from_point, from_offset);
}

#[test]
fn errors_sort_by_their_offset() {
    let mut errors = vec![
        SyntaxError::new(SyntaxErrorKind::InvalidBlockAttr, span(20, 25)),
        SyntaxError::new(SyntaxErrorKind::VisibilityNotAllowed, unit(3)),
        SyntaxError::new(SyntaxErrorKind::InclusiveRangeMissingEnd, span(7, 30)),
    ];
    errors.sort_by_key(|error| error.offset());
    let offsets: Vec<TextUnit> = errors.iter().map(|error| error.offset()).collect();
    assert_eq!(offsets, vec![unit(3), unit(7), unit(20)]);
}
