use tokenview::rectangles::{area, area_with_dimensions, area_with_struct, Rectangle};

#[test]
fn area_of_separate_sides() {
    assert_eq!(area(30, 50), 1500);
}

#[test]
fn area_of_dimension_pair() {
    assert_eq!(area_with_dimensions((30, 50)), 1500);
}

#[test]
fn area_of_borrowed_rectangle() {
    let rect = Rectangle { width: 30, height: 50 };
    assert_eq!(area_with_struct(&rect), 1500);
}

#[test]
fn area_method_matches_free_function() {
    let rect = Rectangle { width: 30, height: 50 };
    assert_eq!(rect.area(), 1500);
    assert_eq!(rect.area(), area(rect.width, rect.height));
}

#[test]
fn square_has_equal_sides() {
    let sq = Rectangle::square(3);
    assert_eq!(sq.width, 3);
    assert_eq!(sq.height, 3);
    assert_eq!(sq.area(), 9);
}

#[test]
fn width_reports_nonzero_width() {
    assert!(Rectangle { width: 30, height: 50 }.width());
    assert!(!Rectangle { width: 0, height: 50 }.width());
}

#[test]
fn can_hold_needs_strictly_larger_sides() {
    let rect1 = Rectangle { width: 30, height: 50 };
    let rect2 = Rectangle { width: 10, height: 40 };
    let rect3 = Rectangle { width: 60, height: 45 };
    assert!(rect1.can_hold(&rect2));
    assert!(!rect1.can_hold(&rect3));
    assert!(!rect1.can_hold(&rect1));
}
