use hanoi::donut_mesh::torus_index_data;
use hanoi::game_master::call_on_stack;
use hanoi::stick_mesh::StickMeshFactory;

#[test]
fn stick_grid_has_two_triangles_per_cell() {
    let factory = StickMeshFactory::new();
    let indices = factory.index_data();
    assert_eq!(indices.len(), 6 * 10 * 32);

    // first cell: corners of rows 0 and 1, both at column 0
    assert_eq!(&indices[0..6], &[0, 33, 34, 34, 1, 0]);

    // last cell: rows 9 and 10 at columns 31 and 32
    let base = indices.len() - 6;
    let a = 9 * 33 + 31;
    let b = 10 * 33 + 31;
    assert_eq!(
        &indices[base..],
        &[a, b, b + 1, b + 1, a + 1, a]
    );
}

#[test]
fn stick_indices_stay_inside_the_vertex_grid() {
    let indices = StickMeshFactory::new().index_data();
    for &ix in indices.iter() {
        assert!(ix < 11 * 33);
    }
}

#[test]
fn torus_grid_wraps_in_both_directions() {
    let indices = torus_index_data(28, 16);
    assert_eq!(indices.len(), 6 * 28 * 16);

    // first cell
    assert_eq!(&indices[0..6], &[0, 16, 17, 17, 1, 0]);

    // the last cell joins ring 27 back to ring 0 and column 15 back to 0
    let base = indices.len() - 6;
    let a = 27 * 16 + 15;
    let b = 15; // ring 0, column 15
    let c = 0; // ring 0, column 0
    let d = 27 * 16; // ring 27, column 0
    assert_eq!(&indices[base..], &[a, b, c, c, d, a]);

    for &ix in indices.iter() {
        assert!(ix < 28 * 16);
    }
}

#[test]
fn torus_of_one_segment_wraps_onto_itself() {
    let indices = torus_index_data(1, 1);
    assert_eq!(indices, vec![0, 0, 0, 0, 0, 0]);
}

#[test]
fn call_on_stack_applies_the_function_to_every_entry() {
    let mut stack: Vec<u32> = vec![1, 2, 3];
    call_on_stack(|x: u32| x * 2, &mut stack);
    assert_eq!(stack, vec![2, 4, 6]);

    let mut empty: Vec<u32> = Vec::new();
    call_on_stack(|x: u32| x + 1, &mut empty);
    assert!(empty.is_empty());
}
