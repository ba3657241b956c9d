//! Positions in text by row and column.

use vstd::prelude::*;

verus! {

/// A position counted in rows and, within the row, in bytes.
#[derive(Clone, Copy, Debug, PartialEq, Eq, Structural, Hash)]
pub struct Point {
    pub row: u32,
    pub column: u32,
}

impl Point {
    pub fn new(row: u32, column: u32) -> (point: Self)
        ensures
            point == (Point { row, column }),
    {
        Point { row, column }
    }
}

/// A position counted in rows and, within the row, in UTF-16 code units.
#[derive(Clone, Copy, Debug, PartialEq, Eq, Structural, Hash)]
pub struct PointUtf16 {
    pub row: u32,
    pub column: u32,
}

impl PointUtf16 {
    pub fn new(row: u32, column: u32) -> (point: Self)
        ensures
            point == (PointUtf16 { row, column }),
    {
        PointUtf16 { row, column }
    }
}

} // verus!
