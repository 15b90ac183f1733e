use stable_fluids::config::{ceil_div, Config, ConfigError, MAX_GRID_SIZE};
use stable_fluids::model::add_source_reference;
use stable_fluids::render::{
    instance_cell, presentation_instance_count, validate_initial_state, BufferRoles,
    InitialState, SizeMismatchError, QUAD_VERTICES,
};
use stable_fluids::stage::{binding_arity_check, BindingArityError};
use stable_fluids::utils::vec_items_mem_size;

#[test]
fn element_count_counts_ghost_cells() {
    let config = Config::new(4).unwrap();
    assert_eq!(config.buffer_size(), 36);
    assert_eq!(Config::new(1).unwrap().buffer_size(), 9);
    assert_eq!(Config::new(8).unwrap().buffer_size(), 100);
}

#[test]
fn zero_grid_size_is_rejected() {
    assert!(matches!(Config::new(0), Err(ConfigError::InvalidGridSize)));
}

#[test]
fn oversized_grid_size_is_rejected() {
    assert!(Config::new(MAX_GRID_SIZE).is_ok());
    assert!(matches!(Config::new(MAX_GRID_SIZE + 1), Err(ConfigError::InvalidGridSize)));
}

#[test]
fn default_config() {
    let config = Config::default();
    assert_eq!(config.grid_size(), 4);
    assert_eq!(config.workgroup_size(), (8, 8, 1));
}

#[test]
fn dispatch_dimensions_round_up_per_axis() {
    // Padded dimension 8: divisible by the 8-wide workgroup axes.
    let divisible = Config::new(6).unwrap();
    assert_eq!(divisible.dispatch_dimensions(), (1, 1, 8));
    // Padded dimension 17: not divisible, so the count rounds up.
    let indivisible = Config::new(15).unwrap();
    assert_eq!(indivisible.dispatch_dimensions(), (3, 3, 17));
    // The default-sized grid: padded dimension 6.
    let small = Config::new(4).unwrap();
    assert_eq!(small.dispatch_dimensions(), (1, 1, 6));
}

#[test]
fn ceil_div_rounds_up() {
    assert_eq!(ceil_div(16, 8), 2);
    assert_eq!(ceil_div(17, 8), 3);
    assert_eq!(ceil_div(1, 1), 1);
    assert_eq!(ceil_div(0, 5), 0);
}

#[test]
fn binding_arity_mismatch_is_rejected() {
    // A kernel declaring 3 slots, handed 2 input buffers and 1 output buffer.
    let r = binding_arity_check(3, 2, 1);
    assert_eq!(r, Err(BindingArityError { declared: 3, supplied: 4 }));
}

#[test]
fn binding_arity_match_is_accepted() {
    assert_eq!(binding_arity_check(5, 2, 2), Ok(()));
    assert_eq!(binding_arity_check(3, 1, 1), Ok(()));
    assert_eq!(binding_arity_check(1, 0, 0), Ok(()));
}

#[test]
fn presentation_draws_one_instance_per_logical_cell() {
    let config = Config::new(4).unwrap();
    assert_eq!(presentation_instance_count(&config), 16);
    assert_eq!(QUAD_VERTICES, 6);
}

#[test]
fn instance_index_decodes_row_major() {
    for i in 0..16u32 {
        let (row, col) = instance_cell(i, 4);
        assert_eq!((row, col), (i / 4, i % 4));
        assert_eq!(row * 4 + col, i);
    }
    assert_eq!(instance_cell(0, 4), (0, 0));
    assert_eq!(instance_cell(5, 4), (1, 1));
    assert_eq!(instance_cell(15, 4), (3, 3));
}

#[test]
fn swap_is_a_pure_relabeling_of_indices() {
    // After n swaps the slot written by the first step (slot 0) is labeled
    // "current" exactly when n is even, "previous" exactly when n is odd.
    let mut roles = BufferRoles::new();
    assert_eq!(roles.current_index(), 0);
    for n in 1..=5usize {
        roles.swap();
        assert_eq!(roles.current_index(), n % 2);
        assert_eq!(roles.previous_index(), (n + 1) % 2);
    }
}

#[test]
fn initial_state_of_wrong_length_is_rejected() {
    let short = vec![0i32; 35];
    assert_eq!(
        validate_initial_state(36, Some(&short)),
        Err(SizeMismatchError { expected: 36, got: 35 })
    );
    let long = vec![7i32; 37];
    assert_eq!(
        validate_initial_state(36, Some(&long)),
        Err(SizeMismatchError { expected: 36, got: 37 })
    );
}

#[test]
fn initial_state_of_right_length_is_accepted() {
    let exact = vec![1i32; 36];
    assert_eq!(validate_initial_state(36, Some(&exact)), Ok(()));
    assert_eq!(validate_initial_state(36, None), Ok(()));
}

#[test]
fn initial_state_default_leaves_every_field_unseeded() {
    let init = InitialState::default();
    assert!(init.source_x.is_none() && init.source_y.is_none());
    assert!(init.velocity_u.is_none() && init.velocity_v.is_none());
    assert!(init.density_x.is_none() && init.density_y.is_none());
}

#[test]
fn add_source_applies_element_rule() {
    let mut target = vec![1i32, 2, 3, -4];
    let source = vec![10i32, 20, 30, 40];
    add_source_reference(&mut target, &source);
    assert_eq!(target, vec![11, 22, 33, 36]);
}

#[test]
fn add_source_with_zero_source_is_idempotent() {
    let mut target = vec![5i32, -3, 0, 17, 2, 9];
    let zeros = vec![0i32; 6];
    let before = target.clone();
    add_source_reference(&mut target, &zeros);
    assert_eq!(target, before);
    add_source_reference(&mut target, &zeros);
    assert_eq!(target, before);
}

#[test]
fn vec_items_mem_size_multiplies_len_by_item_size() {
    let words = vec![1u32, 2, 3];
    assert_eq!(vec_items_mem_size(&words), 12);
    let wide = vec![1i64, 2];
    assert_eq!(vec_items_mem_size(&wide), 16);
    let empty: Vec<u8> = Vec::new();
    assert_eq!(vec_items_mem_size(&empty), 0);
}
