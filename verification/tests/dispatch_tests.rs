use gpu_matmul::dispatch::{plan_multiply, workgroup_count};
use gpu_matmul::error::GpuError;
use gpu_matmul::matrix::Matrix;
use gpu_matmul::pipeline::multiply_binding_contract;

#[test]
fn workgroup_count_rounds_up() {
    assert_eq!(workgroup_count(0, 16), 0);
    assert_eq!(workgroup_count(1, 16), 1);
    assert_eq!(workgroup_count(16, 16), 1);
    assert_eq!(workgroup_count(17, 16), 2);
    assert_eq!(workgroup_count(32, 16), 2);
    assert_eq!(workgroup_count(1000, 16), 63);
    assert_eq!(workgroup_count(10000, 16), 625);
    assert_eq!(workgroup_count(7, 1), 7);
}

#[test]
fn binding_contract_is_three_slots_with_writable_output() {
    let slots = multiply_binding_contract();
    assert_eq!(slots.len(), 3);
    assert_eq!(slots[0].binding, 0);
    assert!(slots[0].read_only);
    assert_eq!(slots[1].binding, 1);
    assert!(slots[1].read_only);
    assert_eq!(slots[2].binding, 2);
    assert!(!slots[2].read_only);
}

#[test]
fn plan_for_one_by_two_times_two_by_two() {
    let a_entries: [u32; 2] = [1.0f32.to_bits(), 2.0f32.to_bits()];
    let b_entries: [u32; 4] = [
        7.0f32.to_bits(),
        8.0f32.to_bits(),
        9.0f32.to_bits(),
        10.0f32.to_bits(),
    ];
    let a = Matrix::new(1, 2, &a_entries).unwrap();
    let b = Matrix::new(2, 2, &b_entries).unwrap();
    let plan = plan_multiply(&a, &b, 16, 16).unwrap();
    assert_eq!(plan.out_rows, 1);
    assert_eq!(plan.out_columns, 2);
    assert_eq!(plan.result_bytes, 8);
    assert_eq!(plan.grid_x, 1);
    assert_eq!(plan.grid_y, 1);
    assert_eq!(plan.grid_z, 1);
}

#[test]
fn plan_for_all_ones_thousand_by_hundred() {
    let one = 1.0f32.to_bits();
    let a_entries: Vec<u32> = vec![one; 1000 * 100];
    let b_entries: Vec<u32> = vec![one; 100 * 10000];
    let a = Matrix::new(1000, 100, &a_entries).unwrap();
    let b = Matrix::new(100, 10000, &b_entries).unwrap();
    let plan = plan_multiply(&a, &b, 16, 16).unwrap();
    assert_eq!(plan.out_rows, 1000);
    assert_eq!(plan.out_columns, 10000);
    assert_eq!(plan.result_bytes, 1000 * 10000 * 4);
    assert_eq!(plan.grid_x, 625);
    assert_eq!(plan.grid_y, 63);
    assert_eq!(plan.grid_z, 1);
    // the grid covers the whole output
    assert!(u64::from(plan.grid_x) * 16 >= 10000);
    assert!(u64::from(plan.grid_y) * 16 >= 1000);
}

#[test]
fn plan_fails_on_mismatched_inner_dimension() {
    let a_entries: Vec<u32> = vec![0u32; 6];
    let b_entries: Vec<u32> = vec![0u32; 20];
    let a = Matrix::new(2, 3, &a_entries).unwrap();
    let b = Matrix::new(4, 5, &b_entries).unwrap();
    assert_eq!(
        plan_multiply(&a, &b, 16, 16).err(),
        Some(GpuError::DimensionMismatch)
    );
}
