use gpu_matmul::error::GpuError;
use gpu_matmul::matrix::Matrix;

#[test]
pub fn instantiate_matrix() {
    let entries: [u32; 2] = [1.0f32.to_bits(), 2.0f32.to_bits()];
    let rows: usize = 1;
    let columns: usize = 2;
    let matrix = Matrix::new(rows, columns, &entries).unwrap();
    assert_eq!(matrix.buffer_length(), 8u64);
}

#[test]
fn new_succeeds_on_matching_dimensions() {
    let entries: Vec<u32> = vec![0u32; 12];
    let matrix = Matrix::new(3, 4, &entries).unwrap();
    assert_eq!(matrix.rows(), 3);
    assert_eq!(matrix.columns(), 4);
    assert_eq!(matrix.buffer_length(), 48u64);
    assert_eq!(matrix.entries(), entries.as_slice());
}

#[test]
fn new_succeeds_on_empty_matrix() {
    let entries: [u32; 0] = [];
    let matrix = Matrix::new(0, 0, &entries).unwrap();
    assert_eq!(matrix.buffer_length(), 0u64);
    let wide = Matrix::new(0, 5, &entries).unwrap();
    assert_eq!(wide.buffer_length(), 0u64);
}

#[test]
fn new_fails_on_mismatched_dimensions() {
    let entries: [u32; 3] = [1, 2, 3];
    let r = Matrix::new(2, 2, &entries);
    assert_eq!(r.err(), Some(GpuError::DimensionMismatch));
    let r = Matrix::new(0, 2, &entries);
    assert_eq!(r.err(), Some(GpuError::DimensionMismatch));
}

#[test]
fn new_fails_when_product_overflows() {
    let entries: [u32; 4] = [0, 0, 0, 0];
    let r = Matrix::new(usize::MAX, 2, &entries);
    assert_eq!(r.err(), Some(GpuError::DimensionMismatch));
}

#[test]
fn multiply_buffer_length_on_matching_inner_dimension() {
    let a_entries: Vec<u32> = vec![0u32; 6];
    let b_entries: Vec<u32> = vec![0u32; 15];
    let a = Matrix::new(2, 3, &a_entries).unwrap();
    let b = Matrix::new(3, 5, &b_entries).unwrap();
    assert_eq!(a.multiply_buffer_length(&b), Ok(40u64));
}

#[test]
fn multiply_buffer_length_on_mismatched_inner_dimension() {
    let a_entries: Vec<u32> = vec![0u32; 6];
    let b_entries: Vec<u32> = vec![0u32; 20];
    let a = Matrix::new(2, 3, &a_entries).unwrap();
    let b = Matrix::new(4, 5, &b_entries).unwrap();
    assert_eq!(a.multiply_buffer_length(&b), Err(GpuError::DimensionMismatch));
}

#[test]
fn multiply_buffer_length_for_one_by_two_times_two_by_two() {
    let a_entries: [u32; 2] = [1.0f32.to_bits(), 2.0f32.to_bits()];
    let b_entries: [u32; 4] = [
        7.0f32.to_bits(),
        8.0f32.to_bits(),
        9.0f32.to_bits(),
        10.0f32.to_bits(),
    ];
    let a = Matrix::new(1, 2, &a_entries).unwrap();
    let b = Matrix::new(2, 2, &b_entries).unwrap();
    assert_eq!(a.multiply_buffer_length(&b), Ok(8u64));
}
