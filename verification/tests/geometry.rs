use miniui::geometry::{Circle, Line, Point, Rect};

#[test]
fn point_new_add_subtract() {
    let a = Point::new(3, -4);
    let b = Point::new(10, 20);
    let sum = a.add(b);
    assert_eq!(sum, Point { x: 13, y: 16 });
    let diff = b.subtract(a);
    assert_eq!(diff, Point { x: 7, y: 24 });
}

#[test]
fn distance_exact_pythagorean() {
    let a = Point::new(0, 0);
    let b = Point::new(3, 4);
    assert_eq!(a.distance(b), 5);
}

#[test]
fn distance_rounds_down() {
    let a = Point::new(0, 0);
    let b = Point::new(1, 1);
    // sqrt(2) rounds down to 1
    assert_eq!(a.distance(b), 1);
    let c = Point::new(2, 3);
    // sqrt(13) rounds down to 3
    assert_eq!(a.distance(c), 3);
}

#[test]
fn distance_is_symmetric() {
    let pairs = [
        (Point::new(0, 0), Point::new(3, 4)),
        (Point::new(-7, 11), Point::new(5, -2)),
        (Point::new(i32::MAX, i32::MIN), Point::new(i32::MIN, i32::MAX)),
        (Point::new(1, 1), Point::new(1, 1)),
    ];
    for (a, b) in pairs {
        assert_eq!(a.distance(b), b.distance(a));
    }
}

#[test]
fn contains_is_inclusive_on_all_four_edges() {
    let r = Rect::new(10, 20, 30, 40);
    // corners
    assert!(r.contains(Point::new(10, 20)));
    assert!(r.contains(Point::new(40, 20)));
    assert!(r.contains(Point::new(10, 60)));
    assert!(r.contains(Point::new(40, 60)));
    // edge midpoints
    assert!(r.contains(Point::new(25, 20)));
    assert!(r.contains(Point::new(25, 60)));
    assert!(r.contains(Point::new(10, 40)));
    assert!(r.contains(Point::new(40, 40)));
    // just outside
    assert!(!r.contains(Point::new(9, 40)));
    assert!(!r.contains(Point::new(41, 40)));
    assert!(!r.contains(Point::new(25, 19)));
    assert!(!r.contains(Point::new(25, 61)));
}

#[test]
fn intersects_is_strict_for_touching_rects() {
    let a = Rect::new(0, 0, 10, 10);
    // share only the right edge of `a`
    let right = Rect::new(10, 0, 10, 10);
    assert!(!a.intersects(&right));
    assert!(!right.intersects(&a));
    // share only the bottom edge of `a`
    let below = Rect::new(0, 10, 10, 10);
    assert!(!a.intersects(&below));
    assert!(!below.intersects(&a));
    // touch only at a corner
    let corner = Rect::new(10, 10, 5, 5);
    assert!(!a.intersects(&corner));
    // actual overlap
    let overlapping = Rect::new(9, 9, 5, 5);
    assert!(a.intersects(&overlapping));
    assert!(overlapping.intersects(&a));
}

#[test]
fn center_of_rect() {
    let r = Rect::new(10, 20, 30, 40);
    assert_eq!(r.center(), Point { x: 25, y: 40 });
    let odd = Rect::new(0, 0, 5, 5);
    assert_eq!(odd.center(), Point { x: 2, y: 2 });
}

#[test]
fn line_length_matches_distance() {
    let l = Line::new(Point::new(1, 2), Point::new(4, 6));
    assert_eq!(l.length(), 5);
    assert_eq!(l.start, Point { x: 1, y: 2 });
    assert_eq!(l.end, Point { x: 4, y: 6 });
}

#[test]
fn circle_holds_center_and_radius() {
    let c = Circle::new(Point::new(3, 4), 7);
    assert_eq!(c.center, Point { x: 3, y: 4 });
    assert_eq!(c.radius, 7);
}
