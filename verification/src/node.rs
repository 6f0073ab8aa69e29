//! The node handle: one live, engine-owned node instance, configured
//! through string-keyed setters that the metadata registry validates.
//!
//! A handle wraps the native handle exclusively: the type cannot be
//! copied, so the native resource can be released at most once, by
//! consuming the handle. Every setter normalizes the member name, looks
//! it up in the owning type's member map, dispatches on the descriptor's
//! kind, and records the resolved engine operation; a failed call (an
//! unknown name, a kind mismatch, an unknown enum value) records nothing
//! and reports failure. The caller replays the recorded operations
//! against the engine; the configured state a log leaves behind is the
//! slot map in which the last write to each slot wins.
//!
//! Sub-node wiring stores only the other node's native handle: a
//! non-owning reference. The caller must keep a referenced node alive as
//! long as the parent may be evaluated.

use vstd::prelude::*;
use crate::metadata::{enum_map, lemma_enum_map_properties, EnumValue, MemberKind, MemberModel, Registry};
use crate::name_format::{format_lookup, normalize_chars};

verus! {

/// One configuration operation against the engine, addressed by the slot
/// index the registry resolved. Float values travel as the raw bits of
/// the 32-bit value the engine will receive.
#[derive(Clone, Copy, PartialEq, Eq, Structural, Debug)]
pub enum EngineOp {
    /// Write a float parameter.
    VariableFloat { index: i32, bits: u32 },
    /// Write the constant branch of a hybrid slot.
    HybridFloat { index: i32, bits: u32 },
    /// Write an integer parameter, or a resolved enum code.
    VariableIntEnum { index: i32, value: i32 },
    /// Wire a node-lookup slot to another node, by its native handle.
    NodeLookup { index: i32, node: u64 },
    /// Wire the node branch of a hybrid slot to another node.
    HybridNode { index: i32, node: u64 },
}

/// The three separate index spaces a node's slots live in. An index is
/// meaningful only within its own space (and its own node type).
#[derive(Clone, Copy, PartialEq, Eq, Structural, Debug)]
pub enum SlotSpace {
    /// Float, integer and enum parameters.
    Variable,
    /// Pure graph edges.
    NodeLookup,
    /// Slots holding either a constant or a node reference.
    Hybrid,
}

/// What a configured slot holds after a write.
#[derive(Clone, Copy, PartialEq, Eq, Structural, Debug)]
pub enum SlotContent {
    /// A float value, as its raw bits.
    ConstFloat(u32),
    /// An integer value or enum code.
    IntEnum(i32),
    /// A non-owning reference to another node, by native handle.
    Node(u64),
}

/// The slot an operation writes.
pub open spec fn op_slot(op: EngineOp) -> (SlotSpace, int) {
    match op {
        EngineOp::VariableFloat { index, .. } => (SlotSpace::Variable, index as int),
        EngineOp::VariableIntEnum { index, .. } => (SlotSpace::Variable, index as int),
        EngineOp::NodeLookup { index, .. } => (SlotSpace::NodeLookup, index as int),
        EngineOp::HybridFloat { index, .. } => (SlotSpace::Hybrid, index as int),
        EngineOp::HybridNode { index, .. } => (SlotSpace::Hybrid, index as int),
    }
}

/// The content an operation leaves in its slot.
pub open spec fn op_content(op: EngineOp) -> SlotContent {
    match op {
        EngineOp::VariableFloat { bits, .. } => SlotContent::ConstFloat(bits),
        EngineOp::VariableIntEnum { value, .. } => SlotContent::IntEnum(value),
        EngineOp::NodeLookup { node, .. } => SlotContent::Node(node),
        EngineOp::HybridFloat { bits, .. } => SlotContent::ConstFloat(bits),
        EngineOp::HybridNode { node, .. } => SlotContent::Node(node),
    }
}

/// The engine-observable configured state an operation log leaves: the
/// last write to each slot wins.
pub open spec fn config_of(ops: Seq<EngineOp>) -> Map<(SlotSpace, int), SlotContent>
    decreases ops.len(),
{
    if ops.len() == 0 {
        Map::empty()
    } else {
        config_of(ops.drop_last()).insert(op_slot(ops.last()), op_content(ops.last()))
    }
}

/// One appended write updates exactly its own slot of the configured
/// state.
pub proof fn lemma_config_of_push(ops: Seq<EngineOp>, op: EngineOp)
    ensures
        config_of(ops.push(op)) == config_of(ops).insert(op_slot(op), op_content(op)),
{
    assert(ops.push(op).drop_last() =~= ops);
}

/// Two writes applied through a builder chain leave the same configured
/// state as the same two writes applied by two plain setter calls: the
/// state before them, updated by each write in order.
pub proof fn lemma_two_writes_config(ops: Seq<EngineOp>, a: EngineOp, b: EngineOp)
    ensures
        config_of(ops.push(a).push(b)) == config_of(ops).insert(
            op_slot(a),
            op_content(a),
        ).insert(op_slot(b), op_content(b)),
{
    lemma_config_of_push(ops, a);
    lemma_config_of_push(ops.push(a), b);
}

/// Whether a float set on the member stored under `key` succeeds: the
/// member must exist and be of Float or Hybrid kind.
pub open spec fn float_set_ok(map: Map<Seq<char>, MemberModel>, key: Seq<char>) -> bool {
    map.contains_key(key) && (map[key].kind == MemberKind::Float || map[key].kind
        == MemberKind::Hybrid)
}

/// The operation log a float set leaves: a Float member takes a direct
/// float write at its index, a Hybrid member a constant-branch write;
/// any other outcome leaves the log as it was.
pub open spec fn float_set_ops(
    ops: Seq<EngineOp>,
    map: Map<Seq<char>, MemberModel>,
    key: Seq<char>,
    bits: u32,
) -> Seq<EngineOp> {
    if map.contains_key(key) && map[key].kind == MemberKind::Float {
        ops.push(EngineOp::VariableFloat { index: map[key].index as i32, bits })
    } else if map.contains_key(key) && map[key].kind == MemberKind::Hybrid {
        ops.push(EngineOp::HybridFloat { index: map[key].index as i32, bits })
    } else {
        ops
    }
}

/// Whether an integer set on the member stored under `key` succeeds: the
/// member must exist and be of Int kind.
pub open spec fn int_set_ok(map: Map<Seq<char>, MemberModel>, key: Seq<char>) -> bool {
    map.contains_key(key) && map[key].kind == MemberKind::Int
}

/// The operation log an integer set leaves.
pub open spec fn int_set_ops(
    ops: Seq<EngineOp>,
    map: Map<Seq<char>, MemberModel>,
    key: Seq<char>,
    value: i32,
) -> Seq<EngineOp> {
    if int_set_ok(map, key) {
        ops.push(EngineOp::VariableIntEnum { index: map[key].index as i32, value })
    } else {
        ops
    }
}

/// Whether an enum set succeeds: the member must exist, be of Enum kind,
/// and its value table must hold the normalized value name.
pub open spec fn enum_set_ok(
    map: Map<Seq<char>, MemberModel>,
    key: Seq<char>,
    vkey: Seq<char>,
) -> bool {
    map.contains_key(key) && map[key].kind == MemberKind::Enum && map[key].enums.contains_key(vkey)
}

/// The operation log an enum set leaves: the resolved integer code is
/// written at the member's index.
pub open spec fn enum_set_ops(
    ops: Seq<EngineOp>,
    map: Map<Seq<char>, MemberModel>,
    key: Seq<char>,
    vkey: Seq<char>,
) -> Seq<EngineOp> {
    if enum_set_ok(map, key, vkey) {
        ops.push(
            EngineOp::VariableIntEnum {
                index: map[key].index as i32,
                value: map[key].enums[vkey] as i32,
            },
        )
    } else {
        ops
    }
}

/// Whether a sub-node set succeeds: the member must exist and be of
/// NodeLookup or Hybrid kind.
pub open spec fn node_set_ok(map: Map<Seq<char>, MemberModel>, key: Seq<char>) -> bool {
    map.contains_key(key) && (map[key].kind == MemberKind::NodeLookup || map[key].kind
        == MemberKind::Hybrid)
}

/// The operation log a sub-node set leaves: a NodeLookup member takes a
/// graph edge, a Hybrid member a node-branch write, each carrying the
/// other node's native handle as a non-owning reference.
pub open spec fn node_set_ops(
    ops: Seq<EngineOp>,
    map: Map<Seq<char>, MemberModel>,
    key: Seq<char>,
    node: u64,
) -> Seq<EngineOp> {
    if map.contains_key(key) && map[key].kind == MemberKind::NodeLookup {
        ops.push(EngineOp::NodeLookup { index: map[key].index as i32, node })
    } else if map.contains_key(key) && map[key].kind == MemberKind::Hybrid {
        ops.push(EngineOp::HybridNode { index: map[key].index as i32, node })
    } else {
        ops
    }
}

/// A kind-matching set always succeeds and appends exactly one write; a
/// kind-mismatched or unknown-name set always fails and leaves the log —
/// and so the configured state — exactly as it was.
pub proof fn lemma_set_outcomes(
    ops: Seq<EngineOp>,
    map: Map<Seq<char>, MemberModel>,
    key: Seq<char>,
    vkey: Seq<char>,
    bits: u32,
    value: i32,
    node: u64,
)
    ensures
        float_set_ok(map, key) ==> float_set_ops(ops, map, key, bits).len() == ops.len() + 1
            && float_set_ops(ops, map, key, bits).drop_last() == ops,
        !float_set_ok(map, key) ==> float_set_ops(ops, map, key, bits) == ops,
        int_set_ok(map, key) ==> int_set_ops(ops, map, key, value).len() == ops.len() + 1
            && int_set_ops(ops, map, key, value).drop_last() == ops,
        !int_set_ok(map, key) ==> int_set_ops(ops, map, key, value) == ops,
        enum_set_ok(map, key, vkey) ==> enum_set_ops(ops, map, key, vkey).len() == ops.len() + 1
            && enum_set_ops(ops, map, key, vkey).drop_last() == ops,
        !enum_set_ok(map, key, vkey) ==> enum_set_ops(ops, map, key, vkey) == ops,
        node_set_ok(map, key) ==> node_set_ops(ops, map, key, node).len() == ops.len() + 1
            && node_set_ops(ops, map, key, node).drop_last() == ops,
        !node_set_ok(map, key) ==> node_set_ops(ops, map, key, node) == ops,
{
    if float_set_ok(map, key) {
        assert(float_set_ops(ops, map, key, bits).drop_last() =~= ops);
    }
    if int_set_ok(map, key) {
        assert(int_set_ops(ops, map, key, value).drop_last() =~= ops);
    }
    if enum_set_ok(map, key, vkey) {
        assert(enum_set_ops(ops, map, key, vkey).drop_last() =~= ops);
    }
    if node_set_ok(map, key) {
        assert(node_set_ops(ops, map, key, node).drop_last() =~= ops);
    }
}

/// The configured state a float set leaves: a successful one updates
/// exactly the resolved slot — a Float member's variable slot or a
/// Hybrid member's slot — and a failed one leaves the state exactly as
/// it was.
pub proof fn lemma_float_set_config(
    ops: Seq<EngineOp>,
    map: Map<Seq<char>, MemberModel>,
    key: Seq<char>,
    bits: u32,
)
    ensures
        map.contains_key(key) && map[key].kind == MemberKind::Float ==> config_of(
            float_set_ops(ops, map, key, bits),
        ) == config_of(ops).insert(
            (SlotSpace::Variable, map[key].index as i32 as int),
            SlotContent::ConstFloat(bits),
        ),
        map.contains_key(key) && map[key].kind == MemberKind::Hybrid ==> config_of(
            float_set_ops(ops, map, key, bits),
        ) == config_of(ops).insert(
            (SlotSpace::Hybrid, map[key].index as i32 as int),
            SlotContent::ConstFloat(bits),
        ),
        !float_set_ok(map, key) ==> config_of(float_set_ops(ops, map, key, bits)) == config_of(
            ops,
        ),
{
    if float_set_ok(map, key) {
        if map[key].kind == MemberKind::Float {
            lemma_config_of_push(
                ops,
                EngineOp::VariableFloat { index: map[key].index as i32, bits },
            );
        } else {
            lemma_config_of_push(ops, EngineOp::HybridFloat { index: map[key].index as i32, bits });
        }
    }
}

/// The configured state an integer set leaves: a successful one updates
/// exactly the member's variable slot, a failed one nothing.
pub proof fn lemma_int_set_config(
    ops: Seq<EngineOp>,
    map: Map<Seq<char>, MemberModel>,
    key: Seq<char>,
    value: i32,
)
    ensures
        int_set_ok(map, key) ==> config_of(int_set_ops(ops, map, key, value)) == config_of(
            ops,
        ).insert((SlotSpace::Variable, map[key].index as i32 as int), SlotContent::IntEnum(value)),
        !int_set_ok(map, key) ==> config_of(int_set_ops(ops, map, key, value)) == config_of(ops),
{
    if int_set_ok(map, key) {
        lemma_config_of_push(ops, EngineOp::VariableIntEnum { index: map[key].index as i32, value });
    }
}

/// The configured state an enum set leaves: a successful one writes the
/// resolved code into exactly the member's variable slot, a failed one
/// nothing.
pub proof fn lemma_enum_set_config(
    ops: Seq<EngineOp>,
    map: Map<Seq<char>, MemberModel>,
    key: Seq<char>,
    vkey: Seq<char>,
)
    ensures
        enum_set_ok(map, key, vkey) ==> config_of(enum_set_ops(ops, map, key, vkey)) == config_of(
            ops,
        ).insert(
            (SlotSpace::Variable, map[key].index as i32 as int),
            SlotContent::IntEnum(map[key].enums[vkey] as i32),
        ),
        !enum_set_ok(map, key, vkey) ==> config_of(enum_set_ops(ops, map, key, vkey)) == config_of(
            ops,
        ),
{
    if enum_set_ok(map, key, vkey) {
        lemma_config_of_push(
            ops,
            EngineOp::VariableIntEnum {
                index: map[key].index as i32,
                value: map[key].enums[vkey] as i32,
            },
        );
    }
}

/// The configured state a sub-node set leaves: a successful one stores
/// the referenced handle in exactly the resolved slot — a NodeLookup
/// member's edge slot or a Hybrid member's slot — and a failed one
/// nothing.
pub proof fn lemma_node_set_config(
    ops: Seq<EngineOp>,
    map: Map<Seq<char>, MemberModel>,
    key: Seq<char>,
    node: u64,
)
    ensures
        map.contains_key(key) && map[key].kind == MemberKind::NodeLookup ==> config_of(
            node_set_ops(ops, map, key, node),
        ) == config_of(ops).insert(
            (SlotSpace::NodeLookup, map[key].index as i32 as int),
            SlotContent::Node(node),
        ),
        map.contains_key(key) && map[key].kind == MemberKind::Hybrid ==> config_of(
            node_set_ops(ops, map, key, node),
        ) == config_of(ops).insert(
            (SlotSpace::Hybrid, map[key].index as i32 as int),
            SlotContent::Node(node),
        ),
        !node_set_ok(map, key) ==> config_of(node_set_ops(ops, map, key, node)) == config_of(ops),
{
    if node_set_ok(map, key) {
        if map[key].kind == MemberKind::NodeLookup {
            lemma_config_of_push(ops, EngineOp::NodeLookup { index: map[key].index as i32, node });
        } else {
            lemma_config_of_push(ops, EngineOp::HybridNode { index: map[key].index as i32, node });
        }
    }
}

/// Enum round trip: for every value name registered in a well-formed
/// value table, the enum setter resolves exactly the code the table
/// holds for that name, and the set succeeds.
pub proof fn lemma_enum_round_trip(
    ops: Seq<EngineOp>,
    map: Map<Seq<char>, MemberModel>,
    key: Seq<char>,
    vals: Seq<EnumValue>,
    i: int,
)
    requires
        map.contains_key(key),
        map[key].kind == MemberKind::Enum,
        map[key].enums == enum_map(vals),
        crate::metadata::enum_names_unique(vals),
        0 <= i < vals.len(),
    ensures
        enum_set_ok(map, key, vals[i].name@),
        enum_set_ops(ops, map, key, vals[i].name@) == ops.push(
            EngineOp::VariableIntEnum { index: map[key].index as i32, value: vals[i].code },
        ),
{
    lemma_enum_map_properties(vals);
}

/// Why a node could not be planned for construction.
#[derive(Clone, Copy, PartialEq, Eq, Structural, Debug)]
pub enum CreateError {
    /// The requested type name has no normalized match in the registry;
    /// construction fails rather than defaulting to some other type.
    UnknownTypeName,
}

/// Everything the engine needs to instantiate a node of a named type:
/// the resolved type id and the variation seed the engine uses to pick
/// among structurally-equivalent encodings.
#[derive(Clone, Copy, PartialEq, Eq, Structural, Debug)]
pub struct CreatePlan {
    pub metadata_id: usize,
    pub variation_seed: i32,
}

/// Resolves a type name for construction, with the variation seed left
/// at its default of zero.
pub fn plan_create(registry: &Registry, name: &str) -> (r: Result<CreatePlan, CreateError>)
    ensures
        match r {
            Ok(p) => p.metadata_id < registry.entries@.len() && registry.entries@[
                p.metadata_id as int
            ].name@ == normalize_chars(name@) && p.variation_seed == 0,
            Err(e) => e == CreateError::UnknownTypeName && (forall|k: int|
                0 <= k < registry.entries@.len() ==> (#[trigger] registry.entries@[k]).name@
                    != normalize_chars(name@)),
        },
{
    plan_create_seeded(registry, name, 0)
}

/// Resolves a type name for construction with an explicit variation
/// seed. Fails — and defaults to nothing — when no registered type
/// matches the normalized name; of several matching entries the one
/// registered last wins.
pub fn plan_create_seeded(registry: &Registry, name: &str, variation_seed: i32) -> (r: Result<
    CreatePlan,
    CreateError,
>)
    ensures
        match r {
            Ok(p) => p.metadata_id < registry.entries@.len() && registry.entries@[
                p.metadata_id as int
            ].name@ == normalize_chars(name@) && p.variation_seed == variation_seed,
            Err(e) => e == CreateError::UnknownTypeName && (forall|k: int|
                0 <= k < registry.entries@.len() ==> (#[trigger] registry.entries@[k]).name@
                    != normalize_chars(name@)),
        },
{
    match registry.find_type(name) {
        Some(id) => Ok(CreatePlan { metadata_id: id, variation_seed }),
        None => Err(CreateError::UnknownTypeName),
    }
}

/// One live node instance: the exclusively-owned native handle, the type
/// id every configuration call uses for its registry lookup, and the log
/// of engine operations the validated setter calls have produced.
pub struct FastNoise {
    handle: u64,
    metadata_id: usize,
    ops: Vec<EngineOp>,
}

impl FastNoise {
    /// The native handle this node owns.
    pub closed spec fn spec_handle(&self) -> u64 {
        self.handle
    }

    /// The type id of this node.
    pub closed spec fn spec_metadata_id(&self) -> int {
        self.metadata_id as int
    }

    /// The operation log the setter calls have produced, in order.
    pub closed spec fn spec_ops(&self) -> Seq<EngineOp> {
        self.ops@
    }

    /// The engine-observable configured state of this node.
    pub open spec fn config(&self) -> Map<(SlotSpace, int), SlotContent> {
        config_of(self.spec_ops())
    }

    /// A node is coherent with the registry when its type id names one
    /// of the registry's entries.
    pub open spec fn wf(&self, registry: &Registry) -> bool {
        registry.wf() && 0 <= self.spec_metadata_id() < registry.entries@.len()
    }

    /// The member map of this node's own type.
    pub open spec fn member_map(&self, registry: &Registry) -> Map<Seq<char>, MemberModel> {
        registry.entries@[self.spec_metadata_id()].member_map()
    }

    /// Wraps a node the caller just instantiated from a creation plan:
    /// the plan's type id, the fresh native handle, and an empty log.
    pub fn new(registry: &Registry, plan: &CreatePlan, handle: u64) -> (n: FastNoise)
        requires
            registry.wf(),
            plan.metadata_id < registry.entries@.len(),
        ensures
            n.wf(registry),
            n.spec_handle() == handle,
            n.spec_metadata_id() == plan.metadata_id as int,
            n.spec_ops() == Seq::<EngineOp>::empty(),
    {
        let n = FastNoise { handle, metadata_id: plan.metadata_id, ops: Vec::new() };
        proof {
            assert(n.spec_ops() =~= Seq::<EngineOp>::empty());
        }
        n
    }

    /// Wraps a node decoded from an encoded node tree: the engine alone
    /// interprets the encoding, so the type id is the one read back from
    /// the engine after construction, never one the caller supplies.
    pub fn from_handle(registry: &Registry, handle: u64, metadata_id: usize) -> (n: FastNoise)
        requires
            registry.wf(),
            metadata_id < registry.entries@.len(),
        ensures
            n.wf(registry),
            n.spec_handle() == handle,
            n.spec_metadata_id() == metadata_id as int,
            n.spec_ops() == Seq::<EngineOp>::empty(),
    {
        let n = FastNoise { handle, metadata_id, ops: Vec::new() };
        proof {
            assert(n.spec_ops() =~= Seq::<EngineOp>::empty());
        }
        n
    }

    /// The native handle, for the caller performing the engine calls.
    pub fn handle(&self) -> (h: u64)
        ensures
            h == self.spec_handle(),
    {
        self.handle
    }

    /// The type id, for callers inspecting the registry entry.
    pub fn metadata_id(&self) -> (id: usize)
        ensures
            id == self.spec_metadata_id(),
    {
        self.metadata_id
    }

    /// The recorded engine operations, in the order to replay them.
    pub fn ops(&self) -> (ops: &Vec<EngineOp>)
        ensures
            ops@ == self.spec_ops(),
    {
        &self.ops
    }

    /// Gives up ownership: consumes the node and hands the native handle
    /// back for the caller to destroy. The type cannot be copied, so the
    /// native resource is released at most once, and no use of the node
    /// is possible afterwards.
    pub fn release(self) -> (h: u64)
        ensures
            h == self.spec_handle(),
    {
        self.handle
    }

    /// Writes a float: a Float member's value directly, a Hybrid
    /// member's constant branch. Returns false — recording nothing — on
    /// an unknown member name or any other kind.
    pub fn set_float(&mut self, registry: &Registry, member: &str, bits: u32) -> (ok: bool)
        requires
            old(self).wf(registry),
        ensures
            final(self).wf(registry),
            final(self).spec_handle() == old(self).spec_handle(),
            final(self).spec_metadata_id() == old(self).spec_metadata_id(),
            ok == float_set_ok(old(self).member_map(registry), normalize_chars(member@)),
            final(self).spec_ops() == float_set_ops(
                old(self).spec_ops(),
                old(self).member_map(registry),
                normalize_chars(member@),
                bits,
            ),
    {
        let key = format_lookup(member);
        let entry = registry.entry(self.metadata_id);
        match entry.find_member(&key) {
            Some(m) => match m.kind {
                MemberKind::Float => {
                    let index = m.index;
                    self.ops.push(EngineOp::VariableFloat { index, bits });
                    true
                },
                MemberKind::Hybrid => {
                    let index = m.index;
                    self.ops.push(EngineOp::HybridFloat { index, bits });
                    true
                },
                _ => false,
            },
            None => false,
        }
    }

    /// Writes an integer (raw enum codes travel this way too). Only an
    /// Int-kind member accepts it.
    pub fn set_int(&mut self, registry: &Registry, member: &str, value: i32) -> (ok: bool)
        requires
            old(self).wf(registry),
        ensures
            final(self).wf(registry),
            final(self).spec_handle() == old(self).spec_handle(),
            final(self).spec_metadata_id() == old(self).spec_metadata_id(),
            ok == int_set_ok(old(self).member_map(registry), normalize_chars(member@)),
            final(self).spec_ops() == int_set_ops(
                old(self).spec_ops(),
                old(self).member_map(registry),
                normalize_chars(member@),
                value,
            ),
    {
        let key = format_lookup(member);
        let entry = registry.entry(self.metadata_id);
        match entry.find_member(&key) {
            Some(m) => match m.kind {
                MemberKind::Int => {
                    let index = m.index;
                    self.ops.push(EngineOp::VariableIntEnum { index, value });
                    true
                },
                _ => false,
            },
            None => false,
        }
    }

    /// Writes an enum value by name: the member must be Enum-kind and
    /// the normalized value name must be one of its registered values;
    /// the resolved integer code is what reaches the engine.
    pub fn set_enum(&mut self, registry: &Registry, member: &str, value: &str) -> (ok: bool)
        requires
            old(self).wf(registry),
        ensures
            final(self).wf(registry),
            final(self).spec_handle() == old(self).spec_handle(),
            final(self).spec_metadata_id() == old(self).spec_metadata_id(),
            ok == enum_set_ok(
                old(self).member_map(registry),
                normalize_chars(member@),
                normalize_chars(value@),
            ),
            final(self).spec_ops() == enum_set_ops(
                old(self).spec_ops(),
                old(self).member_map(registry),
                normalize_chars(member@),
                normalize_chars(value@),
            ),
    {
        let key = format_lookup(member);
        let entry = registry.entry(self.metadata_id);
        match entry.find_member(&key) {
            Some(m) => match m.kind {
                MemberKind::Enum => {
                    let vkey = format_lookup(value);
                    match m.find_enum_code(&vkey) {
                        Some(code) => {
                            let index = m.index;
                            self.ops.push(EngineOp::VariableIntEnum { index, value: code });
                            true
                        },
                        None => false,
                    }
                },
                _ => false,
            },
            None => false,
        }
    }

    /// Wires another node in: a NodeLookup member takes a pure graph
    /// edge, a Hybrid member its node branch. Only the other node's
    /// native handle is stored — a non-owning reference, so the caller
    /// must keep the referenced node alive as long as this node may be
    /// evaluated.
    pub fn set_node(&mut self, registry: &Registry, member: &str, val: &FastNoise) -> (ok: bool)
        requires
            old(self).wf(registry),
        ensures
            final(self).wf(registry),
            final(self).spec_handle() == old(self).spec_handle(),
            final(self).spec_metadata_id() == old(self).spec_metadata_id(),
            ok == node_set_ok(old(self).member_map(registry), normalize_chars(member@)),
            final(self).spec_ops() == node_set_ops(
                old(self).spec_ops(),
                old(self).member_map(registry),
                normalize_chars(member@),
                val.spec_handle(),
            ),
    {
        let key = format_lookup(member);
        let entry = registry.entry(self.metadata_id);
        match entry.find_member(&key) {
            Some(m) => match m.kind {
                MemberKind::NodeLookup => {
                    let index = m.index;
                    let node = val.handle();
                    self.ops.push(EngineOp::NodeLookup { index, node });
                    true
                },
                MemberKind::Hybrid => {
                    let index = m.index;
                    let node = val.handle();
                    self.ops.push(EngineOp::HybridNode { index, node });
                    true
                },
                _ => false,
            },
            None => false,
        }
    }

    /// The builder variant of `set_float`: the same mutation, with the
    /// node moved through so calls chain. A failed set is skipped
    /// silently — the chain goes on, the state simply did not change.
    pub fn with_float(self, registry: &Registry, member: &str, bits: u32) -> (n: FastNoise)
        requires
            self.wf(registry),
        ensures
            n.wf(registry),
            n.spec_handle() == self.spec_handle(),
            n.spec_metadata_id() == self.spec_metadata_id(),
            n.spec_ops() == float_set_ops(
                self.spec_ops(),
                self.member_map(registry),
                normalize_chars(member@),
                bits,
            ),
    {
        let mut n = self;
        n.set_float(registry, member, bits);
        n
    }

    /// The builder variant of `set_int`; a failed set is skipped
    /// silently.
    pub fn with_int(self, registry: &Registry, member: &str, value: i32) -> (n: FastNoise)
        requires
            self.wf(registry),
        ensures
            n.wf(registry),
            n.spec_handle() == self.spec_handle(),
            n.spec_metadata_id() == self.spec_metadata_id(),
            n.spec_ops() == int_set_ops(
                self.spec_ops(),
                self.member_map(registry),
                normalize_chars(member@),
                value,
            ),
    {
        let mut n = self;
        n.set_int(registry, member, value);
        n
    }

    /// The builder variant of `set_enum`; a failed set is skipped
    /// silently.
    pub fn with_enum(self, registry: &Registry, member: &str, value: &str) -> (n: FastNoise)
        requires
            self.wf(registry),
        ensures
            n.wf(registry),
            n.spec_handle() == self.spec_handle(),
            n.spec_metadata_id() == self.spec_metadata_id(),
            n.spec_ops() == enum_set_ops(
                self.spec_ops(),
                self.member_map(registry),
                normalize_chars(member@),
                normalize_chars(value@),
            ),
    {
        let mut n = self;
        n.set_enum(registry, member, value);
        n
    }

    /// The builder variant of `set_node`; a failed set is skipped
    /// silently.
    pub fn with_node(self, registry: &Registry, member: &str, val: &FastNoise) -> (n: FastNoise)
        requires
            self.wf(registry),
        ensures
            n.wf(registry),
            n.spec_handle() == self.spec_handle(),
            n.spec_metadata_id() == self.spec_metadata_id(),
            n.spec_ops() == node_set_ops(
                self.spec_ops(),
                self.member_map(registry),
                normalize_chars(member@),
                val.spec_handle(),
            ),
    {
        let mut n = self;
        n.set_node(registry, member, val);
        n
    }
}

} // verus!
