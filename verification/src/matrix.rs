use vstd::prelude::*;

use crate::error::GpuError;
use crate::gpu::StorageBuffer;

verus! {

/// A host-side, row-major matrix view: element `(r, c)` is
/// `entries[r * columns + c]`. The view borrows its backing storage and
/// issues no allocation. Entries are the raw 32-bit words of the
/// single-precision values fed to the kernel; the dispatch pipeline never
/// interprets them arithmetically, it only sizes and moves them.
pub struct Matrix<'a> {
    rows: usize,
    columns: usize,
    entries: &'a [u32],
}

/// The mathematical shape of a matrix view.
pub ghost struct MatrixModel {
    pub rows: int,
    pub columns: int,
    pub entries: Seq<u32>,
}

/// A shape is valid when the dimensions agree with the entry count and the
/// byte length of the data is representable in the device's 64-bit sizes.
pub open spec fn valid_shape(rows: int, columns: int, len: int) -> bool {
    &&& rows * columns == len
    &&& 4 * len <= u64::MAX
}

/// Byte length of a matrix on the device: four bytes per 32-bit entry.
pub open spec fn spec_buffer_length(m: MatrixModel) -> int {
    4 * m.entries.len() as int
}

/// The inner dimensions match and the output byte length is representable.
pub open spec fn multiply_feasible(a: MatrixModel, b: MatrixModel) -> bool {
    &&& a.columns == b.rows
    &&& 4 * a.rows * b.columns <= u64::MAX
}

/// Byte length of the multiplication result `A * B`.
pub open spec fn spec_multiply_buffer_length(a: MatrixModel, b: MatrixModel) -> int {
    4 * a.rows * b.columns
}

/// Two matrices have the same shape (as element-wise addition requires).
pub open spec fn same_shape(a: MatrixModel, b: MatrixModel) -> bool {
    a.rows == b.rows && a.columns == b.columns
}

impl<'a> View for Matrix<'a> {
    type V = MatrixModel;

    closed spec fn view(&self) -> MatrixModel {
        MatrixModel {
            rows: self.rows as int,
            columns: self.columns as int,
            entries: self.entries@,
        }
    }
}

impl<'a> Matrix<'a> {
    /// Well-formedness: established by `new` and preserved thereafter (the
    /// view is immutable).
    pub open spec fn wf(self) -> bool {
        valid_shape(self@.rows, self@.columns, self@.entries.len() as int)
    }

    /// Element `(r, c)` of the view, row-major.
    pub open spec fn spec_entry(self, r: int, c: int) -> u32
        recommends
            0 <= r < self@.rows,
            0 <= c < self@.columns,
            self.wf(),
    {
        self@.entries[r * self@.columns + c]
    }

    /// Builds a matrix view over borrowed entries. Fails with
    /// `DimensionMismatch` when `rows * columns` differs from the entry
    /// count; succeeds otherwise (the entry data's byte length must also be
    /// representable in 64 bits, which every real slice satisfies).
    pub fn new(rows: usize, columns: usize, entries: &'a [u32]) -> (r: Result<Matrix<'a>, GpuError>)
        ensures
            r is Ok <==> valid_shape(rows as int, columns as int, entries@.len() as int),
            r is Ok ==> r->Ok_0@.rows == rows && r->Ok_0@.columns == columns
                && r->Ok_0@.entries == entries@ && r->Ok_0.wf(),
            r is Err ==> r->Err_0 == GpuError::DimensionMismatch,
    {
        let len = entries.len();
        proof {
            assert(rows * columns <= u64::MAX * u64::MAX) by (nonlinear_arith)
                requires
                    0 <= rows <= u64::MAX,
                    0 <= columns <= u64::MAX,
            ;
        }
        if (rows as u128) * (columns as u128) == (len as u128)
            && (len as u128) * 4 <= u64::MAX as u128
        {
            Ok(Matrix { rows, columns, entries })
        } else {
            Err(GpuError::DimensionMismatch)
        }
    }

    /// Number of rows of the view.
    pub fn rows(&self) -> (r: usize)
        ensures
            r == self@.rows,
    {
        self.rows
    }

    /// Number of columns of the view.
    pub fn columns(&self) -> (r: usize)
        ensures
            r == self@.columns,
    {
        self.columns
    }

    /// The borrowed entries, row-major.
    pub fn entries(&self) -> (r: &'a [u32])
        ensures
            r@ == self@.entries,
    {
        self.entries
    }

    /// Byte length of the matrix as a device buffer: four bytes per entry.
    pub fn buffer_length(&self) -> (r: u64)
        requires
            self.wf(),
        ensures
            r == spec_buffer_length(self@),
    {
        self.entries.len() as u64 * 4
    }

    /// Byte length of the storage buffer that a multiplication `self * other`
    /// writes its result into: `rows(self) * columns(other) * 4`. Fails with
    /// `DimensionMismatch` when the inner dimensions differ, and when the
    /// output byte length is not representable in 64 bits.
    pub fn multiply_buffer_length(&self, other: &Matrix<'_>) -> (r: Result<u64, GpuError>)
        ensures
            r is Ok <==> multiply_feasible(self@, other@),
            r is Ok ==> r->Ok_0 == spec_multiply_buffer_length(self@, other@),
            r is Err ==> r->Err_0 == GpuError::DimensionMismatch,
    {
        if self.columns == other.rows {
            let ghost rs: int = self@.rows;
            let ghost cs: int = other@.columns;
            proof {
                assert(rs * cs <= u64::MAX * u64::MAX) by (nonlinear_arith)
                    requires
                        0 <= rs <= u64::MAX,
                        0 <= cs <= u64::MAX,
                ;
                assert(4 * rs * cs == 4 * (rs * cs)) by (nonlinear_arith);
            }
            let p: u128 = (self.rows as u128) * (other.columns as u128);
            if p <= (u64::MAX / 4) as u128 {
                Ok((p as u64) * 4)
            } else {
                Err(GpuError::DimensionMismatch)
            }
        } else {
            Err(GpuError::DimensionMismatch)
        }
    }

    /// Uploads the entries into a new read-only storage buffer: one device
    /// allocation and one host-to-device copy, eager at creation time.
    pub fn as_buffer(&self, device: &wgpu::Device) -> (r: StorageBuffer)
        requires
            self.wf(),
        ensures
            r.bytes == spec_buffer_length(self@),
    {
        let bytes = self.buffer_length();
        StorageBuffer { raw: crate::gpu::upload_storage_raw(device, self.entries), bytes }
    }

    /// Allocates the result buffer for an element-wise addition with
    /// `other`: the same byte length as `self`. Fails with
    /// `DimensionMismatch` when the shapes differ, and allocates nothing
    /// then.
    pub fn result_buffer_addition(&self, device: &wgpu::Device, other: Matrix<'_>) -> (r: Result<
        StorageBuffer,
        GpuError,
    >)
        requires
            self.wf(),
        ensures
            r is Ok <==> same_shape(self@, other@),
            r is Ok ==> r->Ok_0.bytes == spec_buffer_length(self@),
            r is Err ==> r->Err_0 == GpuError::DimensionMismatch,
    {
        if self.rows == other.rows && self.columns == other.columns {
            Ok(crate::gpu::result_buffer(device, self.buffer_length()))
        } else {
            Err(GpuError::DimensionMismatch)
        }
    }

    /// Allocates the result buffer for the multiplication `self * other`:
    /// `rows(self) * columns(other) * 4` bytes, writable by the kernel and
    /// readable as a copy source. Fails with `DimensionMismatch` when the
    /// inner dimensions differ, and allocates nothing then.
    pub fn result_buffer_multiplication(
        &self,
        device: &wgpu::Device,
        other: Matrix<'_>,
    ) -> (r: Result<StorageBuffer, GpuError>)
        ensures
            r is Ok <==> multiply_feasible(self@, other@),
            r is Ok ==> r->Ok_0.bytes == spec_multiply_buffer_length(self@, other@),
            r is Err ==> r->Err_0 == GpuError::DimensionMismatch,
    {
        match self.multiply_buffer_length(&other) {
            Ok(bytes) => Ok(crate::gpu::result_buffer(device, bytes)),
            Err(e) => Err(e),
        }
    }
}

/// For every shape whose dimensions agree with the entry count (and whose
/// byte length is representable in the device's 64-bit sizes), construction
/// succeeds, and the constructed view's buffer length is exactly four bytes
/// per entry.
pub proof fn lemma_new_succeeds_on_matching_shape(rows: int, columns: int, entries: Seq<u32>)
    requires
        rows * columns == entries.len(),
        4 * entries.len() <= u64::MAX,
    ensures
        valid_shape(rows, columns, entries.len() as int),
        spec_buffer_length(MatrixModel { rows, columns, entries }) == 4 * entries.len(),
{
}

/// For every shape whose dimensions disagree with the entry count,
/// construction fails (and `Matrix::new` then reports `DimensionMismatch`).
pub proof fn lemma_new_rejects_mismatched_shape(rows: int, columns: int, len: int)
    requires
        rows * columns != len,
    ensures
        !valid_shape(rows, columns, len),
{
}

/// For matrices `A` (m by k) and `B` (k by n) with the inner dimension
/// matching (and an output byte length representable in 64 bits), the result
/// buffer for the multiplication is sized exactly `m * n * 4` bytes.
pub proof fn lemma_multiply_sizing_matched(a: MatrixModel, b: MatrixModel)
    requires
        a.columns == b.rows,
        4 * a.rows * b.columns <= u64::MAX,
    ensures
        multiply_feasible(a, b),
        spec_multiply_buffer_length(a, b) == 4 * a.rows * b.columns,
{
}

/// For matrices with mismatched inner dimensions, result-buffer sizing fails
/// (and the sizing functions then report `DimensionMismatch` before any
/// device resource is created).
pub proof fn lemma_multiply_sizing_mismatched(a: MatrixModel, b: MatrixModel)
    requires
        a.columns != b.rows,
    ensures
        !multiply_feasible(a, b),
{
}

} // verus!
