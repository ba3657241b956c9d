use action_log::point::Point;
use action_log::point::PointUtf16;
use action_log::position::TypedOffset;
use action_log::position::TypedPoint;
use action_log::position::TypedPointUtf16;
use action_log::position::TypedRow;
use std::cmp::Ordering;

struct Display;
struct Excerpt;

#[test]
fn typed_offset_holds_its_number() {
    let offset = TypedOffset::<Display>::new(42);
    assert_eq!(offset.value, 42);
    assert_eq!(offset.value(), 42);
    assert_eq!(TypedOffset::<Excerpt>::default().value, 0);
    let copy = offset;
    assert_eq!(copy.clone().value, offset.value);
}

#[test]
fn typed_offsets_compare_by_number() {
    let small = TypedOffset::<Display>::new(3);
    let large = TypedOffset::<Display>::new(8);
    assert!(small == TypedOffset::new(3));
    assert!(small != large);
    assert!(small < large);
    assert!(large > small);
    assert!(small <= small);
    assert_eq!(small.partial_cmp(&large), Some(Ordering::Less));
    assert_eq!(large.partial_cmp(&small), Some(Ordering::Greater));
    assert_eq!(small.partial_cmp(&small), Some(Ordering::Equal));
}

#[test]
fn typed_offsets_add_and_subtract() {
    let a = TypedOffset::<Display>::new(10);
    let b = TypedOffset::<Display>::new(4);
    assert_eq!((a + b).value, 14);
    assert_eq!((a - b).value, 6);
    let mut c = a;
    c += b;
    assert_eq!(c.value, 14);
    c -= a;
    assert_eq!(c.value, 4);
    assert_eq!((TypedOffset::<Display>::new(usize::MAX - 1) + TypedOffset::new(1)).value, usize::MAX);
    assert_eq!((a - a).value, 0);
}

#[test]
fn typed_row_holds_its_number() {
    let row = TypedRow::<Display>::new(7);
    assert_eq!(row.value, 7);
    assert_eq!(row.value(), 7);
    assert_eq!(TypedRow::<Display>::default().value, 0);
    assert!(row == row.clone());
    assert!(TypedRow::<Display>::new(6) < row);
    assert_eq!(row.partial_cmp(&TypedRow::new(9)), Some(Ordering::Less));
    let mut shrinking = row;
    shrinking -= TypedRow::new(2);
    assert_eq!(shrinking.value, 5);
}

#[test]
fn typed_point_holds_row_and_column() {
    let point = TypedPoint::<Display>::new(3, 9);
    assert_eq!(point.row(), 3);
    assert_eq!(point.column(), 9);
    assert_eq!(point.value, Point::new(3, 9));
    assert_eq!(point.value(), Point::new(3, 9));
    assert!(point == TypedPoint::wrap(Point { row: 3, column: 9 }));
    assert!(TypedPoint::<Display>::default() == TypedPoint::new(0, 0));
    assert!(point.clone() == point);
}

#[test]
fn typed_points_compare_by_row_then_column() {
    let point = TypedPoint::<Display>::new(3, 9);
    assert!(TypedPoint::new(2, 100) < point);
    assert!(TypedPoint::new(3, 8) < point);
    assert!(TypedPoint::new(3, 10) > point);
    assert!(TypedPoint::new(4, 0) > point);
    assert_eq!(point.partial_cmp(&TypedPoint::new(3, 9)), Some(Ordering::Equal));
    let utf16 = TypedPointUtf16::<Display>::new(1, 2);
    assert_eq!(utf16.value, PointUtf16::new(1, 2));
    assert_eq!(utf16.value(), PointUtf16 { row: 1, column: 2 });
    assert!(utf16 == TypedPointUtf16::wrap(PointUtf16 { row: 1, column: 2 }));
    assert!(TypedPointUtf16::<Display>::default() < utf16);
    assert!(TypedPointUtf16::new(1, 3) > utf16);
    assert!(TypedPointUtf16::new(0, 3) < utf16);
    assert!(utf16.clone() == utf16);
}
