use fastnoise::metadata::{MemberKind, RawNodeMetadata, RawSlot, RawVariable, Registry};
use fastnoise::node::{plan_create, plan_create_seeded, EngineOp, FastNoise};

fn mkvar(name: &str, dim: i32, kind: MemberKind, enums: &[&str]) -> RawVariable {
    RawVariable {
        name: name.to_string(),
        dimension: dim,
        kind,
        enum_value_names: enums.iter().map(|s| s.to_string()).collect(),
    }
}

fn mkslot(name: &str, dim: i32) -> RawSlot {
    RawSlot {
        name: name.to_string(),
        dimension: dim,
    }
}

fn engine_raw() -> Vec<RawNodeMetadata> {
    vec![
        RawNodeMetadata {
            name: "Simplex".to_string(),
            variables: vec![],
            node_lookups: vec![],
            hybrids: vec![],
        },
        RawNodeMetadata {
            name: "FractalFbm".to_string(),
            variables: vec![mkvar("Lacunarity", 0, MemberKind::Float, &[])],
            node_lookups: vec![mkslot("Source", 0)],
            hybrids: vec![mkslot("Gain", 0)],
        },
        RawNodeMetadata {
            name: "MaxSmooth".to_string(),
            variables: vec![],
            node_lookups: vec![],
            hybrids: vec![mkslot("LHS", 0), mkslot("RHS", 0), mkslot("Smoothness", 0)],
        },
        RawNodeMetadata {
            name: "AddDimension".to_string(),
            variables: vec![],
            node_lookups: vec![mkslot("Source", 0)],
            hybrids: vec![mkslot("New Dimension Position", 0)],
        },
        RawNodeMetadata {
            name: "CellularDistance".to_string(),
            variables: vec![
                mkvar("Jitter Modifier", 0, MemberKind::Float, &[]),
                mkvar(
                    "Return Type",
                    0,
                    MemberKind::Enum,
                    &["Index0", "Index0Add1"],
                ),
                mkvar("Distance Index 0", 0, MemberKind::Int, &[]),
            ],
            node_lookups: vec![],
            hybrids: vec![],
        },
    ]
}

fn make_node(reg: &Registry, name: &str, handle: u64) -> FastNoise {
    let plan = plan_create(reg, name).unwrap();
    FastNoise::new(reg, &plan, handle)
}

#[test]
fn fucntionality_test() {
    // make sure things don't error, not a very robust test
    let reg = Registry::build(&engine_raw()).unwrap();

    let source = make_node(&reg, "Simplex", 101);
    let fbm = make_node(&reg, "FractalFbm", 102)
        .with_node(&reg, "Source", &source)
        .with_float(&reg, "Gain", 0.3f32.to_bits())
        .with_float(&reg, "Lacunarity", 0.6f32.to_bits());

    let cellular = make_node(&reg, "CellularDistance", 103)
        .with_enum(&reg, "ReturnType", "Index0Add1")
        .with_int(&reg, "DistanceIndex0", 2);
    let add_dim = make_node(&reg, "AddDimension", 104)
        .with_node(&reg, "Source", &cellular)
        .with_float(&reg, "NewDimensionPosition", 0.5f32.to_bits());

    let max_smooth = make_node(&reg, "MaxSmooth", 105)
        .with_node(&reg, "LHS", &fbm)
        .with_node(&reg, "RHS", &add_dim);

    max_smooth.gen_single_3d(1.0f32.to_bits(), 1.0f32.to_bits(), 1.0f32.to_bits(), 1337);
}

#[test]
fn kind_matching_set_succeeds_and_mismatched_set_changes_nothing() {
    let reg = Registry::build(&engine_raw()).unwrap();
    let mut fbm = make_node(&reg, "FractalFbm", 7);

    // Kind-matching calls succeed and each records exactly one operation.
    assert!(fbm.set_float(&reg, "Lacunarity", 0.6f32.to_bits()));
    assert_eq!(fbm.ops().len(), 1);
    assert!(fbm.set_float(&reg, "Gain", 0.3f32.to_bits()));
    assert_eq!(fbm.ops().len(), 2);

    // A kind mismatch fails and records nothing.
    assert!(!fbm.set_int(&reg, "Lacunarity", 3));
    assert!(!fbm.set_enum(&reg, "Lacunarity", "Index0"));
    let simplex = make_node(&reg, "Simplex", 8);
    assert!(!fbm.set_node(&reg, "Lacunarity", &simplex));
    assert!(!fbm.set_float(&reg, "Source", 1.0f32.to_bits()));

    // An unknown member fails and records nothing.
    assert!(!fbm.set_float(&reg, "NoSuchMember", 1.0f32.to_bits()));
    assert_eq!(fbm.ops().len(), 2);
}

#[test]
fn float_set_reaches_the_right_slot_space() {
    let reg = Registry::build(&engine_raw()).unwrap();
    let mut fbm = make_node(&reg, "FractalFbm", 7);
    let bits = 0.25f32.to_bits();

    // A Float member takes a direct variable write.
    assert!(fbm.set_float(&reg, "Lacunarity", bits));
    assert_eq!(fbm.ops()[0], EngineOp::VariableFloat { index: 0, bits });

    // A Hybrid member takes a constant-branch write.
    assert!(fbm.set_float(&reg, "Gain", bits));
    assert_eq!(fbm.ops()[1], EngineOp::HybridFloat { index: 0, bits });
}

#[test]
fn node_set_reaches_the_right_slot_space() {
    let reg = Registry::build(&engine_raw()).unwrap();
    let simplex = make_node(&reg, "Simplex", 21);

    // A NodeLookup member takes a pure graph edge.
    let mut add_dim = make_node(&reg, "AddDimension", 22);
    assert!(add_dim.set_node(&reg, "Source", &simplex));
    assert_eq!(
        add_dim.ops()[0],
        EngineOp::NodeLookup {
            index: 0,
            node: 21
        }
    );

    // A Hybrid member takes a node-branch write.
    let mut max_smooth = make_node(&reg, "MaxSmooth", 23);
    assert!(max_smooth.set_node(&reg, "RHS", &simplex));
    assert_eq!(
        max_smooth.ops()[0],
        EngineOp::HybridNode {
            index: 1,
            node: 21
        }
    );
}

#[test]
fn enum_round_trip_resolves_every_registered_code() {
    let reg = Registry::build(&engine_raw()).unwrap();
    let cell_id = reg.find_type("CellularDistance").unwrap();
    let names_and_codes: Vec<(String, i32)> = reg.entries[cell_id]
        .members
        .iter()
        .find(|m| m.name == "returntype")
        .unwrap()
        .enum_values
        .iter()
        .map(|v| (v.name.clone(), v.code))
        .collect();
    assert_eq!(names_and_codes.len(), 2);

    for (name, code) in names_and_codes {
        let mut cell = make_node(&reg, "CellularDistance", 31);
        assert!(cell.set_enum(&reg, "Return Type", &name));
        assert_eq!(
            cell.ops()[0],
            EngineOp::VariableIntEnum {
                index: 1,
                value: code
            }
        );
    }
}

#[test]
fn unknown_enum_value_fails_without_recording() {
    let reg = Registry::build(&engine_raw()).unwrap();
    let mut cell = make_node(&reg, "CellularDistance", 31);
    assert!(!cell.set_enum(&reg, "Return Type", "NoSuchValue"));
    assert_eq!(cell.ops().len(), 0);
    assert!(cell.set_enum(&reg, "Return Type", "INDEX 0 ADD 1"));
    assert_eq!(
        cell.ops()[0],
        EngineOp::VariableIntEnum { index: 1, value: 1 }
    );
}

#[test]
fn builder_chain_equals_plain_setters() {
    let reg = Registry::build(&engine_raw()).unwrap();
    let gain = 0.3f32.to_bits();
    let lac = 0.6f32.to_bits();

    let chained = make_node(&reg, "FractalFbm", 41)
        .with_float(&reg, "Gain", gain)
        .with_float(&reg, "Lacunarity", lac);

    let mut stepped = make_node(&reg, "FractalFbm", 41);
    stepped.set_float(&reg, "Gain", gain);
    stepped.set_float(&reg, "Lacunarity", lac);

    assert_eq!(chained.ops(), stepped.ops());
    assert_eq!(chained.handle(), stepped.handle());
    assert_eq!(chained.metadata_id(), stepped.metadata_id());

    // A failed chained call skips silently; the rest of the chain still lands.
    let part_failed = make_node(&reg, "FractalFbm", 42)
        .with_int(&reg, "Gain", 5)
        .with_float(&reg, "Lacunarity", lac);
    let mut part_stepped = make_node(&reg, "FractalFbm", 42);
    assert!(!part_stepped.set_int(&reg, "Gain", 5));
    assert!(part_stepped.set_float(&reg, "Lacunarity", lac));
    assert_eq!(part_failed.ops(), part_stepped.ops());
    assert_eq!(part_failed.ops().len(), 1);
}

#[test]
fn end_to_end_fractal_scenario() {
    let reg = Registry::build(&engine_raw()).unwrap();

    let source = make_node(&reg, "Simplex", 51);
    let fbm = make_node(&reg, "FractalFbm", 52)
        .with_float(&reg, "Gain", 0.3f32.to_bits())
        .with_float(&reg, "Lacunarity", 0.6f32.to_bits())
        .with_node(&reg, "Source", &source);

    assert_eq!(
        fbm.ops().as_slice(),
        &[
            EngineOp::HybridFloat {
                index: 0,
                bits: 0.3f32.to_bits()
            },
            EngineOp::VariableFloat {
                index: 0,
                bits: 0.6f32.to_bits()
            },
            EngineOp::NodeLookup {
                index: 0,
                node: 51
            },
        ]
    );

    let plan = fbm.gen_single_3d(
        1.0f32.to_bits(),
        1.0f32.to_bits(),
        1.0f32.to_bits(),
        1337,
    );
    assert_eq!(plan.output_len, 1);
    assert_eq!(plan.node, 52);

    // Ownership ends exactly once, by consuming each handle.
    assert_eq!(source.release(), 51);
    assert_eq!(fbm.release(), 52);
}

#[test]
fn ten_thousand_handles_release_exactly_once() {
    let reg = Registry::build(&engine_raw()).unwrap();
    let mut live: u64 = 0;
    for i in 0..10_000u64 {
        let node = make_node(&reg, "Simplex", i);
        live += 1;
        // Consuming the handle is the one and only release; the type
        // cannot be copied, so a second release cannot compile.
        let released = node.release();
        assert_eq!(released, i);
        live -= 1;
    }
    assert_eq!(live, 0);
}

#[test]
fn variation_seed_is_exposed_and_defaults_to_zero() {
    let reg = Registry::build(&engine_raw()).unwrap();
    let defaulted = plan_create(&reg, "Simplex").unwrap();
    assert_eq!(defaulted.variation_seed, 0);
    let seeded = plan_create_seeded(&reg, "Simplex", 99).unwrap();
    assert_eq!(seeded.variation_seed, 99);
    assert_eq!(seeded.metadata_id, defaulted.metadata_id);
}

#[test]
fn decoded_node_uses_the_engine_reported_type() {
    let reg = Registry::build(&engine_raw()).unwrap();
    // The engine decoded a blob into a node and reported its type id.
    let node = FastNoise::from_handle(&reg, 77, 4);
    assert_eq!(node.metadata_id(), 4);
    assert_eq!(node.handle(), 77);
    assert_eq!(node.ops().len(), 0);
}
