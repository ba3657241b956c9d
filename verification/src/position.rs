//! Offsets, points and rows that carry, as a type parameter, the coordinate
//! space they are counted in, so that values of different spaces do not mix.

use crate::point::Point;
use crate::point::PointUtf16;
use std::cmp::Ordering;
use std::marker::PhantomData;
use vstd::prelude::*;
use vstd::std_specs::cmp::PartialEqSpecImpl;
use vstd::std_specs::cmp::PartialOrdSpecImpl;
use vstd::std_specs::ops::AddSpecImpl;
use vstd::std_specs::ops::SubSpecImpl;

verus! {

/// An offset into the text of the space `T`.
pub struct TypedOffset<T> {
    pub value: usize,
    _marker: PhantomData<T>,
}

/// A point in the text of the space `T`.
pub struct TypedPoint<T> {
    pub value: Point,
    _marker: PhantomData<T>,
}

/// A point, with columns in UTF-16 code units, in the text of the space `T`.
pub struct TypedPointUtf16<T> {
    pub value: PointUtf16,
    _marker: PhantomData<T>,
}

/// A row of the text of the space `T`.
pub struct TypedRow<T> {
    pub value: u32,
    _marker: PhantomData<T>,
}

impl<T> View for TypedOffset<T> {
    type V = usize;

    closed spec fn view(&self) -> usize {
        self.value
    }
}

impl<T> View for TypedPoint<T> {
    type V = Point;

    closed spec fn view(&self) -> Point {
        self.value
    }
}

impl<T> View for TypedPointUtf16<T> {
    type V = PointUtf16;

    closed spec fn view(&self) -> PointUtf16 {
        self.value
    }
}

impl<T> View for TypedRow<T> {
    type V = u32;

    closed spec fn view(&self) -> u32 {
        self.value
    }
}

impl<T> TypedOffset<T> {
    pub fn new(offset: usize) -> (typed: Self)
        ensures
            typed@ == offset,
    {
        Self { value: offset, _marker: PhantomData }
    }

    /// The offset as a plain number.
    pub fn value(&self) -> (offset: usize)
        ensures
            offset == self@,
    {
        self.value
    }
}

impl<T> TypedPoint<T> {
    pub fn new(row: u32, column: u32) -> (typed: Self)
        ensures
            typed@ == (Point { row, column }),
    {
        Self { value: Point::new(row, column), _marker: PhantomData }
    }

    pub fn wrap(point: Point) -> (typed: Self)
        ensures
            typed@ == point,
    {
        Self { value: point, _marker: PhantomData }
    }

    pub fn row(&self) -> (row: u32)
        ensures
            row == self@.row,
    {
        self.value.row
    }

    pub fn column(&self) -> (column: u32)
        ensures
            column == self@.column,
    {
        self.value.column
    }

    /// The point as a plain point.
    pub fn value(&self) -> (point: Point)
        ensures
            point == self@,
    {
        self.value
    }
}

impl<T> TypedPointUtf16<T> {
    pub fn new(row: u32, column: u32) -> (typed: Self)
        ensures
            typed@ == (PointUtf16 { row, column }),
    {
        TypedPointUtf16 { value: PointUtf16::new(row, column), _marker: PhantomData }
    }

    pub fn wrap(point: PointUtf16) -> (typed: Self)
        ensures
            typed@ == point,
    {
        Self { value: point, _marker: PhantomData }
    }

    /// The point as a plain point.
    pub fn value(&self) -> (point: PointUtf16)
        ensures
            point == self@,
    {
        self.value
    }
}

impl<T> TypedRow<T> {
    pub fn new(row: u32) -> (typed: Self)
        ensures
            typed@ == row,
    {
        Self { value: row, _marker: PhantomData }
    }

    /// The row as a plain number.
    pub fn value(&self) -> (row: u32)
        ensures
            row == self@,
    {
        self.value
    }
}

impl<T> Copy for TypedOffset<T> {

}

impl<T> Copy for TypedPoint<T> {

}

impl<T> Copy for TypedPointUtf16<T> {

}

impl<T> Copy for TypedRow<T> {

}

impl<T> Clone for TypedOffset<T> {
    fn clone(&self) -> (copy: Self)
        ensures
            copy@ == self@,
    {
        Self { value: self.value, _marker: PhantomData }
    }
}

impl<T> Clone for TypedPoint<T> {
    fn clone(&self) -> (copy: Self)
        ensures
            copy@ == self@,
    {
        Self { value: self.value, _marker: PhantomData }
    }
}

impl<T> Clone for TypedPointUtf16<T> {
    fn clone(&self) -> (copy: Self)
        ensures
            copy@ == self@,
    {
        Self { value: self.value, _marker: PhantomData }
    }
}

impl<T> Clone for TypedRow<T> {
    fn clone(&self) -> (copy: Self)
        ensures
            copy@ == self@,
    {
        Self { value: self.value, _marker: PhantomData }
    }
}

impl<T> Default for TypedOffset<T> {
    fn default() -> (typed: Self)
        ensures
            typed@ == 0,
    {
        Self::new(0)
    }
}

impl<T> Default for TypedPoint<T> {
    fn default() -> (typed: Self)
        ensures
            typed@ == (Point { row: 0, column: 0 }),
    {
        Self::new(0, 0)
    }
}

impl<T> Default for TypedPointUtf16<T> {
    fn default() -> (typed: Self)
        ensures
            typed@ == (PointUtf16 { row: 0, column: 0 }),
    {
        Self::new(0, 0)
    }
}

impl<T> Default for TypedRow<T> {
    fn default() -> (typed: Self)
        ensures
            typed@ == 0,
    {
        Self::new(0)
    }
}

impl<T> PartialEq for TypedOffset<T> {
    fn eq(&self, other: &Self) -> (equal: bool) {
        self.value == other.value
    }
}

impl<T> PartialEqSpecImpl for TypedOffset<T> {
    open spec fn obeys_eq_spec() -> bool {
        true
    }

    open spec fn eq_spec(&self, other: &Self) -> bool {
        self@ == other@
    }
}

impl<T> Eq for TypedOffset<T> {

}

impl<T> PartialEq for TypedRow<T> {
    fn eq(&self, other: &Self) -> (equal: bool) {
        self.value == other.value
    }
}

impl<T> PartialEqSpecImpl for TypedRow<T> {
    open spec fn obeys_eq_spec() -> bool {
        true
    }

    open spec fn eq_spec(&self, other: &Self) -> bool {
        self@ == other@
    }
}

impl<T> Eq for TypedRow<T> {

}

impl<T> PartialEq for TypedPoint<T> {
    fn eq(&self, other: &Self) -> (equal: bool) {
        self.value == other.value
    }
}

impl<T> PartialEqSpecImpl for TypedPoint<T> {
    open spec fn obeys_eq_spec() -> bool {
        true
    }

    open spec fn eq_spec(&self, other: &Self) -> bool {
        self@ == other@
    }
}

impl<T> Eq for TypedPoint<T> {

}

impl<T> PartialEq for TypedPointUtf16<T> {
    fn eq(&self, other: &Self) -> (equal: bool) {
        self.value == other.value
    }
}

impl<T> PartialEqSpecImpl for TypedPointUtf16<T> {
    open spec fn obeys_eq_spec() -> bool {
        true
    }

    open spec fn eq_spec(&self, other: &Self) -> bool {
        self@ == other@
    }
}

impl<T> Eq for TypedPointUtf16<T> {

}

impl<T> PartialOrd for TypedOffset<T> {
    fn partial_cmp(&self, other: &Self) -> (order: Option<Ordering>) {
        if self.value < other.value {
            Some(Ordering::Less)
        } else if self.value > other.value {
            Some(Ordering::Greater)
        } else {
            Some(Ordering::Equal)
        }
    }
}

impl<T> PartialOrdSpecImpl for TypedOffset<T> {
    open spec fn obeys_partial_cmp_spec() -> bool {
        true
    }

    open spec fn partial_cmp_spec(&self, other: &Self) -> Option<Ordering> {
        if self@ < other@ {
            Some(Ordering::Less)
        } else if self@ > other@ {
            Some(Ordering::Greater)
        } else {
            Some(Ordering::Equal)
        }
    }
}

impl<T> PartialOrd for TypedRow<T> {
    fn partial_cmp(&self, other: &Self) -> (order: Option<Ordering>) {
        if self.value < other.value {
            Some(Ordering::Less)
        } else if self.value > other.value {
            Some(Ordering::Greater)
        } else {
            Some(Ordering::Equal)
        }
    }
}

impl<T> PartialOrdSpecImpl for TypedRow<T> {
    open spec fn obeys_partial_cmp_spec() -> bool {
        true
    }

    open spec fn partial_cmp_spec(&self, other: &Self) -> Option<Ordering> {
        if self@ < other@ {
            Some(Ordering::Less)
        } else if self@ > other@ {
            Some(Ordering::Greater)
        } else {
            Some(Ordering::Equal)
        }
    }
}

impl<T> PartialOrd for TypedPoint<T> {
    fn partial_cmp(&self, other: &Self) -> (order: Option<Ordering>) {
        if self.value.row < other.value.row {
            Some(Ordering::Less)
        } else if self.value.row > other.value.row {
            Some(Ordering::Greater)
        } else if self.value.column < other.value.column {
            Some(Ordering::Less)
        } else if self.value.column > other.value.column {
            Some(Ordering::Greater)
        } else {
            Some(Ordering::Equal)
        }
    }
}

impl<T> PartialOrdSpecImpl for TypedPoint<T> {
    open spec fn obeys_partial_cmp_spec() -> bool {
        true
    }

    open spec fn partial_cmp_spec(&self, other: &Self) -> Option<Ordering> {
        if self@.row < other@.row {
            Some(Ordering::Less)
        } else if self@.row > other@.row {
            Some(Ordering::Greater)
        } else if self@.column < other@.column {
            Some(Ordering::Less)
        } else if self@.column > other@.column {
            Some(Ordering::Greater)
        } else {
            Some(Ordering::Equal)
        }
    }
}

impl<T> PartialOrd for TypedPointUtf16<T> {
    fn partial_cmp(&self, other: &Self) -> (order: Option<Ordering>) {
        if self.value.row < other.value.row {
            Some(Ordering::Less)
        } else if self.value.row > other.value.row {
            Some(Ordering::Greater)
        } else if self.value.column < other.value.column {
            Some(Ordering::Less)
        } else if self.value.column > other.value.column {
            Some(Ordering::Greater)
        } else {
            Some(Ordering::Equal)
        }
    }
}

impl<T> PartialOrdSpecImpl for TypedPointUtf16<T> {
    open spec fn obeys_partial_cmp_spec() -> bool {
        true
    }

    open spec fn partial_cmp_spec(&self, other: &Self) -> Option<Ordering> {
        if self@.row < other@.row {
            Some(Ordering::Less)
        } else if self@.row > other@.row {
            Some(Ordering::Greater)
        } else if self@.column < other@.column {
            Some(Ordering::Less)
        } else if self@.column > other@.column {
            Some(Ordering::Greater)
        } else {
            Some(Ordering::Equal)
        }
    }
}

impl<T> std::ops::AddAssign<TypedOffset<T>> for TypedOffset<T> {
    fn add_assign(&mut self, other: Self)
        requires
            old(self)@ + other@ <= usize::MAX,
        ensures
            final(self)@ == old(self)@ + other@,
    {
        self.value += other.value;
    }
}

impl<T> std::ops::SubAssign<TypedOffset<T>> for TypedOffset<T> {
    fn sub_assign(&mut self, other: Self)
        requires
            other@ <= old(self)@,
        ensures
            final(self)@ == old(self)@ - other@,
    {
        self.value -= other.value;
    }
}

impl<T> std::ops::SubAssign<TypedRow<T>> for TypedRow<T> {
    fn sub_assign(&mut self, other: Self)
        requires
            other@ <= old(self)@,
        ensures
            final(self)@ == old(self)@ - other@,
    {
        self.value -= other.value;
    }
}

impl<T> std::ops::Add<TypedOffset<T>> for TypedOffset<T> {
    type Output = Self;

    fn add(self, other: Self) -> (sum: Self) {
        TypedOffset::new(self.value + other.value)
    }
}

impl<T> AddSpecImpl<TypedOffset<T>> for TypedOffset<T> {
    open spec fn obeys_add_spec() -> bool {
        true
    }

    open spec fn add_req(self, other: TypedOffset<T>) -> bool {
        self@ + other@ <= usize::MAX
    }

    open spec fn add_spec(self, other: TypedOffset<T>) -> TypedOffset<T> {
        TypedOffset::<T>::spec_new((self@ + other@) as usize)
    }
}

impl<T> std::ops::Sub<TypedOffset<T>> for TypedOffset<T> {
    type Output = Self;

    fn sub(self, other: Self) -> (difference: Self) {
        TypedOffset::new(self.value - other.value)
    }
}

impl<T> SubSpecImpl<TypedOffset<T>> for TypedOffset<T> {
    open spec fn obeys_sub_spec() -> bool {
        true
    }

    open spec fn sub_req(self, other: TypedOffset<T>) -> bool {
        other@ <= self@
    }

    open spec fn sub_spec(self, other: TypedOffset<T>) -> TypedOffset<T> {
        TypedOffset::<T>::spec_new((self@ - other@) as usize)
    }
}

impl<T> TypedOffset<T> {
    /// The offset `offset` of the space `T`.
    pub closed spec fn spec_new(offset: usize) -> Self {
        TypedOffset { value: offset, _marker: PhantomData }
    }

    /// An offset is the number it was made from, and nothing besides.
    pub broadcast proof fn lemma_spec_new(offset: usize)
        ensures
            (#[trigger] Self::spec_new(offset))@ == offset,
    {
    }
}

} // verus!
