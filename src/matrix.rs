use vstd::prelude::*;
use crate::canvas::{row_major, AccessError};

verus! {

/// A square block of 2, 3 or 4 rows held in a fixed store of 16 cells. The
/// entry at `(row, col)` lives at offset `row * size + col`; the cells past
/// the first `size * size` hold the filler given at construction.
#[derive(Debug, Clone, Copy, PartialEq)]
pub struct Matrix<T> {
    data: [T; 16],
    size: i32,
}

impl<T> View for Matrix<T> {
    type V = Seq<T>;

    /// All 16 cells of the store.
    closed spec fn view(&self) -> Seq<T> {
        self.data@
    }
}

impl<T: Copy> Matrix<T> {
    /// Number of rows, which is also the number of columns.
    pub closed spec fn spec_size(&self) -> int {
        self.size as int
    }

    /// The size is 2, 3 or 4.
    pub open spec fn wf(&self) -> bool {
        2 <= self.spec_size() <= 4
    }

    /// `(row, col)` addresses an entry of the square block.
    pub open spec fn in_bounds(&self, row: int, col: int) -> bool {
        0 <= row < self.spec_size() && 0 <= col < self.spec_size()
    }

    /// The entry in row `row` and column `col`.
    pub open spec fn entry(&self, row: int, col: int) -> T {
        self@[row_major(col, row, self.spec_size())]
    }

    /// A 4x4 matrix whose rows, top to bottom, are the consecutive groups of
    /// four in `initial_data`.
    pub fn new4x4(initial_data: [T; 16]) -> (m: Self)
        ensures
            m.wf(),
            m.spec_size() == 4,
            m@ == initial_data@,
    {
        Matrix { data: initial_data, size: 4 }
    }

    /// A 3x3 matrix whose rows, top to bottom, are the consecutive groups of
    /// three in `initial_data`; the seven unused cells hold `zero`.
    pub fn new3x3(initial_data: [T; 9], zero: T) -> (m: Self)
        ensures
            m.wf(),
            m.spec_size() == 3,
            m@ == initial_data@ + Seq::new(7, |i: int| zero),
    {
        let i = initial_data;
        let m = Matrix {
            data: [
                i[0], i[1], i[2],
                i[3], i[4], i[5],
                i[6], i[7], i[8],
                zero, zero, zero, zero, zero, zero, zero,
            ],
            size: 3,
        };
        assert(m@ =~= initial_data@ + Seq::new(7, |i: int| zero));
        m
    }

    /// A 2x2 matrix whose rows, top to bottom, are the consecutive pairs in
    /// `initial_data`; the twelve unused cells hold `zero`.
    pub fn new2x2(initial_data: [T; 4], zero: T) -> (m: Self)
        ensures
            m.wf(),
            m.spec_size() == 2,
            m@ == initial_data@ + Seq::new(12, |i: int| zero),
    {
        let i = initial_data;
        let m = Matrix {
            data: [
                i[0], i[1],
                i[2], i[3],
                zero, zero, zero, zero, zero, zero, zero, zero, zero, zero, zero, zero,
            ],
            size: 2,
        };
        assert(m@ =~= initial_data@ + Seq::new(12, |i: int| zero));
        m
    }

    /// Number of rows, which is also the number of columns.
    pub fn size(&self) -> (n: i32)
        ensures
            n == self.spec_size(),
    {
        self.size
    }

    /// The entry in row `row` and column `col`, or `OutOfBounds` where that
    /// lies outside the square block.
    pub fn try_at(&self, row: i32, col: i32) -> (r: Result<T, AccessError>)
        requires
            self.wf(),
        ensures
            self.in_bounds(row as int, col as int) ==> r == Ok::<T, AccessError>(self.entry(row as int, col as int)),
            !self.in_bounds(row as int, col as int) ==> r == Err::<T, AccessError>(AccessError::OutOfBounds),
    {
        if 0 <= row && row < self.size && 0 <= col && col < self.size {
            Ok(self[(row, col)])
        } else {
            Err(AccessError::OutOfBounds)
        }
    }
}

impl<T: Copy> std::ops::Index<(i32, i32)> for Matrix<T> {
    type Output = T;

    /// The entry at `(row, col)`, which must lie in the square block.
    fn index(&self, idx: (i32, i32)) -> (r: &T)
        ensures
            *r == self.entry(idx.0 as int, idx.1 as int),
    {
        let (y, x) = idx;
        assert(0 <= y * self.size + x < 16) by (nonlinear_arith)
            requires
                0 <= x < self.size,
                0 <= y < self.size,
                self.size <= 4,
        ;
        let pos = y * self.size + x;
        &self.data[pos as usize]
    }
}

impl<T: Copy> vstd::std_specs::core::IndexSpecImpl<(i32, i32)> for Matrix<T> {
    open spec fn index_req(&self, idx: &(i32, i32)) -> bool {
        self.wf() && self.in_bounds(idx.0 as int, idx.1 as int)
    }
}

} // verus!
