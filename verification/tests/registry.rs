use fastnoise::metadata::{
    MemberKind, RawNodeMetadata, RawSlot, RawVariable, Registry, RegistryError,
};
use fastnoise::node::{plan_create, CreateError};

fn var(name: &str, dim: i32, kind: MemberKind, enums: &[&str]) -> RawVariable {
    RawVariable {
        name: name.to_string(),
        dimension: dim,
        kind,
        enum_value_names: enums.iter().map(|s| s.to_string()).collect(),
    }
}

fn slot(name: &str, dim: i32) -> RawSlot {
    RawSlot {
        name: name.to_string(),
        dimension: dim,
    }
}

fn sample_raw() -> Vec<RawNodeMetadata> {
    vec![
        RawNodeMetadata {
            name: "Simplex".to_string(),
            variables: vec![],
            node_lookups: vec![],
            hybrids: vec![],
        },
        RawNodeMetadata {
            name: "FractalFbm".to_string(),
            variables: vec![var("Lacunarity", 0, MemberKind::Float, &[])],
            node_lookups: vec![slot("Source", 0)],
            hybrids: vec![slot("Gain", 0)],
        },
        RawNodeMetadata {
            name: "MaxSmooth".to_string(),
            variables: vec![],
            node_lookups: vec![],
            hybrids: vec![slot("LHS", 0), slot("RHS", 0), slot("Smoothness", 0)],
        },
        RawNodeMetadata {
            name: "AddDimension".to_string(),
            variables: vec![],
            node_lookups: vec![slot("Source", 0)],
            hybrids: vec![slot("New Dimension Position", 0)],
        },
        RawNodeMetadata {
            name: "CellularDistance".to_string(),
            variables: vec![
                var("Jitter Modifier", 0, MemberKind::Float, &[]),
                var(
                    "Return Type",
                    0,
                    MemberKind::Enum,
                    &["Index0", "Index0Add1"],
                ),
                var("Distance Index 0", 0, MemberKind::Int, &[]),
            ],
            node_lookups: vec![],
            hybrids: vec![],
        },
    ]
}

#[test]
fn build_assigns_ids_and_normalized_names() {
    let reg = Registry::build(&sample_raw()).unwrap();
    assert_eq!(reg.entries.len(), 5);
    for (i, entry) in reg.entries.iter().enumerate() {
        assert_eq!(entry.id, i as i32);
    }
    assert_eq!(reg.entries[0].name, "simplex");
    assert_eq!(reg.entries[1].name, "fractalfbm");
    assert_eq!(reg.entries[2].name, "maxsmooth");
    assert_eq!(reg.entries[3].name, "adddimension");
    assert_eq!(reg.entries[4].name, "cellulardistance");
}

#[test]
fn member_names_unique_within_each_type() {
    let reg = Registry::build(&sample_raw()).unwrap();
    for entry in &reg.entries {
        for i in 0..entry.members.len() {
            for j in 0..entry.members.len() {
                if i != j {
                    assert_ne!(entry.members[i].name, entry.members[j].name);
                }
            }
        }
    }
}

#[test]
fn members_carry_kind_and_index() {
    let reg = Registry::build(&sample_raw()).unwrap();
    let fbm = &reg.entries[1];
    let lac = fbm
        .members
        .iter()
        .find(|m| m.name == "lacunarity")
        .unwrap();
    assert_eq!(lac.kind, MemberKind::Float);
    assert_eq!(lac.index, 0);
    let src = fbm.members.iter().find(|m| m.name == "source").unwrap();
    assert_eq!(src.kind, MemberKind::NodeLookup);
    assert_eq!(src.index, 0);
    let gain = fbm.members.iter().find(|m| m.name == "gain").unwrap();
    assert_eq!(gain.kind, MemberKind::Hybrid);
    assert_eq!(gain.index, 0);
}

#[test]
fn enum_values_are_normalized_with_positional_codes() {
    let reg = Registry::build(&sample_raw()).unwrap();
    let cell = &reg.entries[4];
    let ret = cell.members.iter().find(|m| m.name == "returntype").unwrap();
    assert_eq!(ret.kind, MemberKind::Enum);
    assert_eq!(ret.index, 1);
    assert_eq!(ret.enum_values.len(), 2);
    assert_eq!(ret.enum_values[0].name, "index0");
    assert_eq!(ret.enum_values[0].code, 0);
    assert_eq!(ret.enum_values[1].name, "index0add1");
    assert_eq!(ret.enum_values[1].code, 1);
}

#[test]
fn dimension_indexed_members_get_axis_suffixes() {
    let raw = vec![RawNodeMetadata {
        name: "DomainOffset".to_string(),
        variables: vec![],
        node_lookups: vec![],
        hybrids: vec![
            slot("Offset", 1),
            slot("Offset", 2),
            slot("Offset", 3),
            slot("Offset", 4),
        ],
    }];
    let reg = Registry::build(&raw).unwrap();
    let names: Vec<&str> = reg.entries[0]
        .members
        .iter()
        .map(|m| m.name.as_str())
        .collect();
    assert_eq!(names, vec!["offsetx", "offsety", "offsetz", "offsetw"]);
}

#[test]
fn duplicate_member_name_is_replaced_by_the_later_one() {
    let raw = vec![RawNodeMetadata {
        name: "Clashy".to_string(),
        variables: vec![
            var("Value", 0, MemberKind::Float, &[]),
            var("VAL UE", 0, MemberKind::Int, &[]),
        ],
        node_lookups: vec![],
        hybrids: vec![],
    }];
    let reg = Registry::build(&raw).unwrap();
    let entry = &reg.entries[0];
    assert_eq!(entry.members.len(), 1);
    assert_eq!(entry.members[0].name, "value");
    assert_eq!(entry.members[0].kind, MemberKind::Int);
    assert_eq!(entry.members[0].index, 1);
}

#[test]
fn find_type_is_case_and_space_insensitive() {
    let reg = Registry::build(&sample_raw()).unwrap();
    assert_eq!(reg.find_type("Cellular Distance"), Some(4));
    assert_eq!(reg.find_type("MAXSMOOTH"), Some(2));
    assert_eq!(reg.find_type("simplex"), Some(0));
    assert_eq!(reg.find_type("NoSuchNode"), None);
}

#[test]
fn later_entry_wins_a_type_name_clash() {
    let mut raw = sample_raw();
    raw.push(RawNodeMetadata {
        name: "SIM PLEX".to_string(),
        variables: vec![var("Extra", 0, MemberKind::Float, &[])],
        node_lookups: vec![],
        hybrids: vec![],
    });
    let reg = Registry::build(&raw).unwrap();
    assert_eq!(reg.find_type("Simplex"), Some(5));
}

#[test]
fn empty_enumeration_fails_to_build() {
    let raw: Vec<RawNodeMetadata> = vec![];
    match Registry::build(&raw) {
        Err(RegistryError::NoNodeTypes) => {}
        Ok(_) => panic!("an empty enumeration must not build a registry"),
    }
}

#[test]
fn unknown_type_name_fails_construction_planning() {
    let reg = Registry::build(&sample_raw()).unwrap();
    match plan_create(&reg, "NoSuchNode") {
        Err(CreateError::UnknownTypeName) => {}
        Ok(_) => panic!("an unknown type name must not plan a construction"),
    }
    let plan = plan_create(&reg, "Fractal FBM").unwrap();
    assert_eq!(plan.metadata_id, 1);
    assert_eq!(plan.variation_seed, 0);
}
