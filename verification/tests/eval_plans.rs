use fastnoise::eval::{EvalCall, EvalError};
use fastnoise::metadata::{RawNodeMetadata, Registry};
use fastnoise::node::{plan_create, FastNoise};

fn single_type_registry() -> Registry {
    let raw = vec![RawNodeMetadata {
        name: "Simplex".to_string(),
        variables: vec![],
        node_lookups: vec![],
        hybrids: vec![],
    }];
    Registry::build(&raw).unwrap()
}

fn simplex(reg: &Registry, handle: u64) -> FastNoise {
    let plan = plan_create(reg, "Simplex").unwrap();
    FastNoise::new(reg, &plan, handle)
}

#[test]
fn grid_output_length_is_the_product_of_the_axis_sizes() {
    let reg = single_type_registry();
    let node = simplex(&reg, 1);
    let freq = 0.02f32.to_bits();

    let p2 = node.gen_uniform_grid_2d(-3, 5, 7, 9, freq, 42).unwrap();
    assert_eq!(p2.output_len, 63);

    let p3 = node
        .gen_uniform_grid_3d(0, 0, 0, 4, 5, 6, freq, 42)
        .unwrap();
    assert_eq!(p3.output_len, 120);

    let p4 = node
        .gen_uniform_grid_4d(0, 0, 0, 0, 2, 3, 4, 5, freq, 42)
        .unwrap();
    assert_eq!(p4.output_len, 120);

    let pt = node.gen_tileble_grid_2d(16, 8, freq, 42).unwrap();
    assert_eq!(pt.output_len, 128);

    let zero = node.gen_uniform_grid_2d(0, 0, 0, 9, freq, 42).unwrap();
    assert_eq!(zero.output_len, 0);
}

#[test]
fn grid_plan_carries_the_geometry_and_the_node() {
    let reg = single_type_registry();
    let node = simplex(&reg, 9);
    let freq = 0.1f32.to_bits();
    let p = node.gen_uniform_grid_2d(-3, 5, 7, 11, freq, 1337).unwrap();
    assert_eq!(p.node, 9);
    assert_eq!(
        p.call,
        EvalCall::UniformGrid2d {
            xstart: -3,
            ystart: 5,
            xsize: 7,
            ysize: 11,
            frequency_bits: freq,
            seed: 1337,
        }
    );
}

#[test]
fn oversized_grids_are_rejected_not_truncated() {
    let reg = single_type_registry();
    let node = simplex(&reg, 1);
    let freq = 0.02f32.to_bits();

    // A size the engine cannot take as a signed 32-bit count.
    let too_wide = (i32::MAX as usize) + 1;
    assert_eq!(
        node.gen_uniform_grid_2d(0, 0, too_wide, 1, freq, 0),
        Err(EvalError::OutputTooLarge)
    );

    // A product that cannot be addressed.
    let big = i32::MAX as usize;
    assert_eq!(
        node.gen_uniform_grid_4d(0, 0, 0, 0, big, big, big, big, freq, 0),
        Err(EvalError::OutputTooLarge)
    );
    assert_eq!(
        node.gen_tileble_grid_2d(too_wide, 2, freq, 0),
        Err(EvalError::OutputTooLarge)
    );
}

#[test]
fn scattered_output_length_equals_input_length() {
    let reg = single_type_registry();
    let node = simplex(&reg, 3);
    let xs: Vec<u32> = vec![0.0f32, 0.5, 1.0, 1.5, 2.0]
        .into_iter()
        .map(f32::to_bits)
        .collect();
    let ys: Vec<u32> = vec![9.0f32, 8.0, 7.0, 6.0, 5.0]
        .into_iter()
        .map(f32::to_bits)
        .collect();
    let zs = xs.clone();
    let ws = ys.clone();
    let off = 0.0f32.to_bits();

    let p2 = node.gen_position_array_2d(&xs, &ys, off, off, 7).unwrap();
    assert_eq!(p2.output_len, 5);
    assert_eq!(
        p2.call,
        EvalCall::PositionArray2d {
            count: 5,
            xoffset_bits: off,
            yoffset_bits: off,
            seed: 7,
        }
    );

    let p3 = node
        .gen_position_array_3d(&xs, &ys, &zs, off, off, off, 7)
        .unwrap();
    assert_eq!(p3.output_len, 5);

    let p4 = node
        .gen_position_array_4d(&xs, &ys, &zs, &ws, off, off, off, off, 7)
        .unwrap();
    assert_eq!(p4.output_len, 5);
}

#[test]
fn single_point_plans_owe_one_value() {
    let reg = single_type_registry();
    let node = simplex(&reg, 4);
    let b = 1.0f32.to_bits();
    assert_eq!(node.gen_single_2d(b, b, 1337).output_len, 1);
    assert_eq!(node.gen_single_3d(b, b, b, 1337).output_len, 1);
    assert_eq!(node.gen_single_4d(b, b, b, b, 1337).output_len, 1);
    let p = node.gen_single_4d(b, b, b, b, 1337);
    assert_eq!(p.node, 4);
    assert_eq!(
        p.call,
        EvalCall::Single4d {
            x_bits: b,
            y_bits: b,
            z_bits: b,
            w_bits: b,
            seed: 1337,
        }
    );
}
