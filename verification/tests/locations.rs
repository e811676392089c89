use syntax_error::{Location, TextRange, TextUnit};

fn unit(raw: u32) -> TextUnit {
    TextUnit::from(raw)
}

fn span(from: u32, to: u32) -> TextRange {
    TextRange::from_to(unit(from), unit(to))
}

#[test]
fn location_from_offset_and_range() {
    assert_eq!(Location::from(unit(5)), Location::Offset(unit(5)));
    assert_eq!(Location::from(span(2, 4)), Location::Range(span(2, 4)));
    let through_into: Location = unit(9).into();
    assert_eq!(through_into, Location::Offset(unit(9)));
}

#[test]
fn offset_of_a_point_is_the_point() {
    assert_eq!(Location::Offset(unit(5)).offset(), unit(5));
    assert_eq!(Location::Offset(unit(0)).offset(), unit(0));
}

#[test]
fn offset_of_a_range_is_its_start() {
    assert_eq!(Location::Range(span(2, 4)).offset(), span(2, 4).start());
    assert_eq!(Location::Range(span(2, 4)).offset(), unit(2));
    assert_eq!(Location::Range(span(7, 7)).offset(), unit(7));
}

#[test]
fn point_moves_by_plus_minus() {
    let moved = Location::Offset(unit(5)).add_offset(unit(3), unit(2));
    assert_eq!(moved, Location::Offset(unit(6)));
    let back = Location::Offset(unit(5)).add_offset(unit(0), unit(5));
    assert_eq!(back, Location::Offset(unit(0)));
    let same = Location::Offset(unit(5)).add_offset(unit(0), unit(0));
    assert_eq!(same, Location::Offset(unit(5)));
}

#[test]
fn range_moves_both_endpoints() {
    let moved = Location::Range(span(2, 4)).add_offset(unit(10), unit(0));
    assert_eq!(moved, Location::Range(span(12, 14)));
    let back = Location::Range(span(12, 14)).add_offset(unit(1), unit(11));
    assert_eq!(back, Location::Range(span(2, 4)));
}

#[test]
fn minus_may_exceed_the_point_when_plus_makes_up_for_it() {
    let moved = Location::Offset(unit(5)).add_offset(unit(10), unit(7));
    assert_eq!(moved, Location::Offset(unit(8)));
}

#[test]
fn moving_twice_is_moving_once_by_the_sums() {
    let start = Location::Range(span(20, 30));
    let twice = start.clone().add_offset(unit(4), unit(7)).add_offset(unit(9), unit(13));
    let once = start.add_offset(unit(4 + 9), unit(7 + 13));
    assert_eq!(twice, once);
    assert_eq!(once, Location::Range(span(13, 23)));

    let point = Location::Offset(unit(20));
    let twice = point.clone().add_offset(unit(1), unit(2)).add_offset(unit(3), unit(4));
    assert_eq!(twice, point.add_offset(unit(4), unit(6)));
}

#[test]
fn can_add_offset_tells_when_a_move_fits() {
    let point = Location::Offset(unit(5));
    assert!(point.can_add_offset(unit(3), unit(2)));
    assert!(point.can_add_offset(unit(0), unit(5)));
    assert!(!point.can_add_offset(unit(0), unit(6)));
    assert!(point.can_add_offset(unit(1), unit(6)));
    assert!(point.can_add_offset(unit(u32::MAX - 5), unit(0)));
    assert!(!point.can_add_offset(unit(u32::MAX - 4), unit(0)));

    let range = Location::Range(span(2, 4));
    assert!(range.can_add_offset(unit(0), unit(2)));
    assert!(!range.can_add_offset(unit(0), unit(3)));
    assert!(range.can_add_offset(unit(u32::MAX - 4), unit(0)));
    assert!(!range.can_add_offset(unit(u32::MAX - 3), unit(0)));
}

#[test]
fn location_is_shown_as_what_it_holds() {
    assert_eq!(Location::Offset(unit(21)).debug_string(), "21");
    assert_eq!(Location::Range(span(21, 22)).debug_string(), "[21; 22)");
    assert_eq!(format!("{:?}", Location::Offset(unit(21))), "21");
    assert_eq!(format!("{:?}", Location::Range(span(21, 22))), "[21; 22)");
}

#[test]
fn location_clone_and_equality() {
    let a = Location::Range(span(1, 2));
    assert_eq!(a.clone(), a);
    assert_ne!(Location::Offset(unit(1)), Location::Range(span(1, 1)));
    assert_ne!(Location::Offset(unit(1)), Location::Offset(unit(2)));
}
