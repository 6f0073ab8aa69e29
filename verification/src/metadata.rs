//! The metadata registry: the discovered, immutable description of every
//! node type the engine offers and of the configurable members of each.
//!
//! The registry is built once from the raw enumeration results that the
//! caller reads off the engine (type names, member names, member kinds,
//! dimension indices, enum value tables) and is read-only afterwards.
//! Every name is stored under its normalized form, so lookups are
//! case-insensitive and space-insensitive. Inserting a member whose
//! normalized name is already present replaces the earlier descriptor,
//! which keeps member names unique within each type.

use vstd::prelude::*;
use crate::name_format::{
    dim_suffix, format_dimension_member, format_lookup, lemma_normalize_chars_of_fixed,
    lemma_normalize_chars_shape, lemma_normalize_idempotent, lower_char, normalize_chars,
};

verus! {

/// The kind of a configurable member slot on a node type. A member's
/// positional index is meaningful only within its own kind's parameter
/// list for its own node type.
#[derive(Clone, Copy, PartialEq, Eq, Structural, Debug)]
pub enum MemberKind {
    /// A plain floating-point parameter.
    Float,
    /// A plain integer parameter (raw enum codes are set through it too).
    Int,
    /// An integer parameter restricted to a named value table.
    Enum,
    /// A pure graph edge to another node.
    NodeLookup,
    /// A slot taking either a constant float or a node reference,
    /// resolved by the engine at evaluation time.
    Hybrid,
}

/// One legal value of an Enum-kind member: the normalized value name and
/// the integer code the engine expects for it.
pub struct EnumValue {
    pub name: String,
    pub code: i32,
}

/// A member descriptor: one configurable slot on a node type.
pub struct Member {
    pub name: String,
    pub kind: MemberKind,
    pub index: i32,
    pub enum_values: Vec<EnumValue>,
}

/// The mathematical model of a member descriptor.
pub struct MemberModel {
    pub name: Seq<char>,
    pub kind: MemberKind,
    pub index: int,
    pub enums: Map<Seq<char>, int>,
}

/// The value table of an Enum-kind member as a map from normalized value
/// name to integer code; a later entry with the same name wins.
pub open spec fn enum_map(vals: Seq<EnumValue>) -> Map<Seq<char>, int>
    decreases vals.len(),
{
    if vals.len() == 0 {
        Map::empty()
    } else {
        enum_map(vals.drop_last()).insert(vals.last().name@, vals.last().code as int)
    }
}

impl View for Member {
    type V = MemberModel;

    open spec fn view(&self) -> MemberModel {
        MemberModel {
            name: self.name@,
            kind: self.kind,
            index: self.index as int,
            enums: enum_map(self.enum_values@),
        }
    }
}

impl Member {
    /// A well-formed descriptor: its name and its enum value names are
    /// already normalized, enum value names are unique, and only an
    /// Enum-kind member carries a value table.
    pub open spec fn wf(&self) -> bool {
        &&& normalize_chars(self.name@) == self.name@
        &&& enum_names_unique(self.enum_values@)
        &&& (forall|i: int|
            0 <= i < self.enum_values@.len() ==> normalize_chars(
                (#[trigger] self.enum_values@[i]).name@,
            ) == self.enum_values@[i].name@)
        &&& (self.kind != MemberKind::Enum ==> self.enum_values@.len() == 0)
    }
}

/// No two entries of an enum value table share a name.
pub open spec fn enum_names_unique(vals: Seq<EnumValue>) -> bool {
    forall|i: int, j: int|
        0 <= i < j < vals.len() ==> (#[trigger] vals[i]).name@ != (#[trigger] vals[j]).name@
}

/// No two member descriptors of one type share a name.
pub open spec fn member_names_unique(ms: Seq<Member>) -> bool {
    forall|i: int, j: int|
        0 <= i < j < ms.len() ==> (#[trigger] ms[i]).name@ != (#[trigger] ms[j]).name@
}

/// The member map of a node type: normalized member name to descriptor
/// model; a later entry with the same name wins.
pub open spec fn members_map(ms: Seq<Member>) -> Map<Seq<char>, MemberModel>
    decreases ms.len(),
{
    if ms.len() == 0 {
        Map::empty()
    } else {
        members_map(ms.drop_last()).insert(ms.last().name@, ms.last()@)
    }
}

/// With unique names, the member map holds exactly the descriptors of
/// the sequence, each under its own name.
pub proof fn lemma_members_map_properties(ms: Seq<Member>)
    requires
        member_names_unique(ms),
    ensures
        forall|i: int|
            0 <= i < ms.len() ==> members_map(ms).contains_key((#[trigger] ms[i]).name@)
                && members_map(ms)[ms[i].name@] == ms[i]@,
        forall|n: Seq<char>|
            members_map(ms).contains_key(n) ==> exists|i: int|
                0 <= i < ms.len() && (#[trigger] ms[i]).name@ == n,
    decreases ms.len(),
{
    if ms.len() > 0 {
        let pre = ms.drop_last();
        assert(member_names_unique(pre));
        lemma_members_map_properties(pre);
        assert forall|i: int|
            0 <= i < ms.len() implies members_map(ms).contains_key((#[trigger] ms[i]).name@)
            && members_map(ms)[ms[i].name@] == ms[i]@ by {
            if i < ms.len() - 1 {
                assert(pre[i] == ms[i]);
                assert(ms[i].name@ != ms.last().name@);
            }
        }
        assert forall|n: Seq<char>| members_map(ms).contains_key(n) implies exists|i: int|
            0 <= i < ms.len() && (#[trigger] ms[i]).name@ == n by {
            if n != ms.last().name@ {
                assert(members_map(ms) == members_map(pre).insert(ms.last().name@, ms.last()@));
                assert(members_map(pre).contains_key(n));
                let i = choose|i: int| 0 <= i < pre.len() && (#[trigger] pre[i]).name@ == n;
                assert(pre[i] == ms[i]);
                assert(ms[i].name@ == n);
            } else {
                assert(ms[ms.len() - 1].name@ == n);
            }
        }
    }
}

/// The same, for an enum value table.
pub proof fn lemma_enum_map_properties(vals: Seq<EnumValue>)
    requires
        enum_names_unique(vals),
    ensures
        forall|i: int|
            0 <= i < vals.len() ==> enum_map(vals).contains_key((#[trigger] vals[i]).name@)
                && enum_map(vals)[vals[i].name@] == vals[i].code as int,
        forall|n: Seq<char>|
            enum_map(vals).contains_key(n) ==> exists|i: int|
                0 <= i < vals.len() && (#[trigger] vals[i]).name@ == n,
    decreases vals.len(),
{
    if vals.len() > 0 {
        let pre = vals.drop_last();
        assert(enum_names_unique(pre));
        lemma_enum_map_properties(pre);
        assert forall|i: int|
            0 <= i < vals.len() implies enum_map(vals).contains_key((#[trigger] vals[i]).name@)
            && enum_map(vals)[vals[i].name@] == vals[i].code as int by {
            if i < vals.len() - 1 {
                assert(pre[i] == vals[i]);
                assert(vals[i].name@ != vals.last().name@);
            }
        }
        assert forall|n: Seq<char>| enum_map(vals).contains_key(n) implies exists|i: int|
            0 <= i < vals.len() && (#[trigger] vals[i]).name@ == n by {
            if n != vals.last().name@ {
                assert(enum_map(vals) == enum_map(pre).insert(
                    vals.last().name@,
                    vals.last().code as int,
                ));
                assert(enum_map(pre).contains_key(n));
                let i = choose|i: int| 0 <= i < pre.len() && (#[trigger] pre[i]).name@ == n;
                assert(pre[i] == vals[i]);
                assert(vals[i].name@ == n);
            } else {
                assert(vals[vals.len() - 1].name@ == n);
            }
        }
    }
}

/// Inserts a descriptor into a member list, replacing the descriptor of
/// the same name if one is present, so that names stay unique.
#[verifier::loop_isolation(false)]
fn insert_member(ms: &mut Vec<Member>, m: Member)
    requires
        member_names_unique(old(ms)@),
        forall|i: int| 0 <= i < old(ms)@.len() ==> (#[trigger] old(ms)@[i]).wf(),
        m.wf(),
    ensures
        member_names_unique(final(ms)@),
        forall|i: int| 0 <= i < final(ms)@.len() ==> (#[trigger] final(ms)@[i]).wf(),
        members_map(final(ms)@) == members_map(old(ms)@).insert(m.name@, m@),
{
    let ghost m_model = m@;
    let mut i: usize = 0;
    while i < ms.len()
        invariant
            i <= ms@.len(),
            ms@ == old(ms)@,
            forall|j: int| 0 <= j < i ==> (#[trigger] ms@[j]).name@ != m.name@,
        decreases ms@.len() - i,
    {
        if ms[i].name == m.name {
            ms.set(i, m);
            proof {
                let o = old(ms)@;
                let f = ms@;
                assert(f == o.update(i as int, m));
                assert forall|a: int, b: int| 0 <= a < b < f.len() implies (#[trigger] f[a]).name@
                    != (#[trigger] f[b]).name@ by {
                    assert(o[a].name@ != o[b].name@);
                    assert(f[a].name@ == o[a].name@ && f[b].name@ == o[b].name@);
                }
                lemma_members_map_properties(o);
                lemma_members_map_properties(f);
                let lhs = members_map(f);
                let rhs = members_map(o).insert(m.name@, m_model);
                assert forall|n: Seq<char>| lhs.contains_key(n) implies rhs.contains_key(n)
                    && lhs[n] == rhs[n] by {
                    let k = choose|k: int| 0 <= k < f.len() && (#[trigger] f[k]).name@ == n;
                    if k == i {
                        assert(n == m.name@);
                        assert(lhs[n] == m_model);
                    } else {
                        assert(f[k] == o[k]);
                        assert(o[k].name@ != o[i as int].name@);
                        assert(n != m.name@);
                        assert(rhs[n] == members_map(o)[n]);
                        assert(lhs[n] == f[k]@ && members_map(o)[n] == o[k]@);
                    }
                }
                assert forall|n: Seq<char>| rhs.contains_key(n) implies lhs.contains_key(n) by {
                    if n == m.name@ {
                        assert(f[i as int].name@ == n);
                    } else {
                        let k = choose|k: int|
                            0 <= k < o.len() && (#[trigger] o[k]).name@ == n;
                        assert(k != i);
                        assert(f[k].name@ == n);
                    }
                }
                assert(lhs =~= rhs);
            }
            return ;
        }
        i += 1;
    }
    ms.push(m);
    proof {
        let o = old(ms)@;
        let f = ms@;
        assert(f.drop_last() =~= o);
        assert forall|a: int, b: int| 0 <= a < b < f.len() implies (#[trigger] f[a]).name@
            != (#[trigger] f[b]).name@ by {
            if b < f.len() - 1 {
                assert(o[a].name@ != o[b].name@);
            } else {
                assert(f[a] == o[a]);
            }
        }
    }
}

/// Inserts an enum value into a value table, replacing the entry of the
/// same name if one is present, so that names stay unique.
#[verifier::loop_isolation(false)]
fn insert_enum_value(vals: &mut Vec<EnumValue>, v: EnumValue)
    requires
        enum_names_unique(old(vals)@),
    ensures
        enum_names_unique(final(vals)@),
        forall|i: int|
            0 <= i < final(vals)@.len() ==> (#[trigger] final(vals)@[i]).name@ == v.name@
                || exists|j: int|
                0 <= j < old(vals)@.len() && final(vals)@[i].name@ == (#[trigger] old(
                    vals,
                )@[j]).name@,
        enum_map(final(vals)@) == enum_map(old(vals)@).insert(v.name@, v.code as int),
{
    let ghost v_name = v.name@;
    let ghost v_code = v.code as int;
    let mut i: usize = 0;
    while i < vals.len()
        invariant
            i <= vals@.len(),
            vals@ == old(vals)@,
            forall|j: int| 0 <= j < i ==> (#[trigger] vals@[j]).name@ != v.name@,
        decreases vals@.len() - i,
    {
        if vals[i].name == v.name {
            vals.set(i, v);
            proof {
                let o = old(vals)@;
                let f = vals@;
                assert forall|a: int, b: int| 0 <= a < b < f.len() implies (#[trigger] f[a]).name@
                    != (#[trigger] f[b]).name@ by {
                    assert(o[a].name@ != o[b].name@);
                    assert(f[a].name@ == o[a].name@ && f[b].name@ == o[b].name@);
                }
                lemma_enum_map_properties(o);
                lemma_enum_map_properties(f);
                let lhs = enum_map(f);
                let rhs = enum_map(o).insert(v_name, v_code);
                assert forall|n: Seq<char>| lhs.contains_key(n) implies rhs.contains_key(n)
                    && lhs[n] == rhs[n] by {
                    let k = choose|k: int| 0 <= k < f.len() && (#[trigger] f[k]).name@ == n;
                    if k == i {
                        assert(lhs[n] == v_code);
                    } else {
                        assert(f[k] == o[k]);
                        assert(o[k].name@ != o[i as int].name@);
                        assert(n != v_name);
                        assert(lhs[n] == f[k].code as int && enum_map(o)[n] == o[k].code as int);
                    }
                }
                assert forall|n: Seq<char>| rhs.contains_key(n) implies lhs.contains_key(n) by {
                    if n == v_name {
                        assert(f[i as int].name@ == n);
                    } else {
                        let k = choose|k: int|
                            0 <= k < o.len() && (#[trigger] o[k]).name@ == n;
                        assert(k != i);
                        assert(f[k].name@ == n);
                    }
                }
                assert(lhs =~= rhs);
                assert forall|a: int| 0 <= a < f.len() implies (#[trigger] f[a]).name@ == v_name
                    || exists|j: int| 0 <= j < o.len() && f[a].name@ == (#[trigger] o[j]).name@ by {
                    if a != i {
                        assert(f[a].name@ == o[a].name@);
                    }
                }
            }
            return ;
        }
        i += 1;
    }
    vals.push(v);
    proof {
        let o = old(vals)@;
        let f = vals@;
        assert(f.drop_last() =~= o);
        assert forall|a: int, b: int| 0 <= a < b < f.len() implies (#[trigger] f[a]).name@
            != (#[trigger] f[b]).name@ by {
            if b < f.len() - 1 {
                assert(o[a].name@ != o[b].name@);
            } else {
                assert(f[a] == o[a]);
            }
        }
        assert forall|a: int| 0 <= a < f.len() implies (#[trigger] f[a]).name@ == v.name@
            || exists|j: int| 0 <= j < o.len() && f[a].name@ == (#[trigger] o[j]).name@ by {
            if a < f.len() - 1 {
                assert(f[a].name@ == o[a].name@);
            }
        }
    }
}

/// One node type: the engine's integer type id, the normalized canonical
/// name, and the member descriptors, unique by name.
pub struct Metadata {
    pub id: i32,
    pub name: String,
    pub members: Vec<Member>,
}

impl Metadata {
    /// A well-formed entry: the name is normalized and the member
    /// descriptors are well-formed with pairwise distinct names.
    pub open spec fn wf(&self) -> bool {
        &&& normalize_chars(self.name@) == self.name@
        &&& member_names_unique(self.members@)
        &&& (forall|i: int| 0 <= i < self.members@.len() ==> (#[trigger] self.members@[i]).wf())
    }

    /// The member map of this type: normalized member name to descriptor
    /// model.
    pub open spec fn member_map(&self) -> Map<Seq<char>, MemberModel> {
        members_map(self.members@)
    }

    /// Looks up the member descriptor stored under an already-normalized
    /// key, if any.
    #[verifier::loop_isolation(false)]
    pub fn find_member<'a>(&'a self, key: &String) -> (r: Option<&'a Member>)
        requires
            self.wf(),
        ensures
            match r {
                Some(m) => self.member_map().contains_key(key@) && m@ == self.member_map()[key@]
                    && m.wf() && m.name@ == key@,
                None => !self.member_map().contains_key(key@),
            },
    {
        proof {
            lemma_members_map_properties(self.members@);
        }
        let mut i: usize = 0;
        while i < self.members.len()
            invariant
                i <= self.members@.len(),
                forall|j: int| 0 <= j < i ==> (#[trigger] self.members@[j]).name@ != key@,
            decreases self.members@.len() - i,
        {
            if self.members[i].name == *key {
                return Some(&self.members[i]);
            }
            i += 1;
        }
        None
    }
}

impl Member {
    /// Looks up the integer code stored for an already-normalized enum
    /// value name, if any.
    #[verifier::loop_isolation(false)]
    pub fn find_enum_code(&self, key: &String) -> (r: Option<i32>)
        requires
            self.wf(),
        ensures
            match r {
                Some(c) => self@.enums.contains_key(key@) && c as int == self@.enums[key@],
                None => !self@.enums.contains_key(key@),
            },
    {
        proof {
            lemma_enum_map_properties(self.enum_values@);
        }
        let mut i: usize = 0;
        while i < self.enum_values.len()
            invariant
                i <= self.enum_values@.len(),
                forall|j: int| 0 <= j < i ==> (#[trigger] self.enum_values@[j]).name@ != key@,
            decreases self.enum_values@.len() - i,
        {
            if self.enum_values[i].name == *key {
                let c = self.enum_values[i].code;
                return Some(c);
            }
            i += 1;
        }
        None
    }
}

/// The raw enumeration of one variable-style parameter (float, integer
/// or enum) as read off the engine: its reported name, its dimension
/// index, its kind, and — for enum parameters — its value names in
/// enumeration order.
pub struct RawVariable {
    pub name: String,
    pub dimension: i32,
    pub kind: MemberKind,
    pub enum_value_names: Vec<String>,
}

/// The raw enumeration of one node-lookup or hybrid slot: its reported
/// name and its dimension index.
pub struct RawSlot {
    pub name: String,
    pub dimension: i32,
}

/// The raw enumeration of one node type: its reported name and its three
/// member lists, in the order the engine reports them.
pub struct RawNodeMetadata {
    pub name: String,
    pub variables: Vec<RawVariable>,
    pub node_lookups: Vec<RawSlot>,
    pub hybrids: Vec<RawSlot>,
}

/// The lookup key a raw member name produces: the normalized name with
/// the axis suffix of its dimension index appended.
pub open spec fn member_key(name: Seq<char>, dim: i32) -> Seq<char> {
    normalize_chars(name) + dim_suffix(dim)
}

/// The value table of a raw enum parameter: each value name normalized,
/// its code its position in the enumeration; a later name wins.
pub open spec fn enum_table(names: Seq<String>) -> Map<Seq<char>, int>
    decreases names.len(),
{
    if names.len() == 0 {
        Map::empty()
    } else {
        enum_table(names.drop_last()).insert(
            normalize_chars(names.last()@),
            names.len() - 1,
        )
    }
}

/// The descriptor model a raw variable produces at its position in the
/// variable list.
pub open spec fn variable_model(v: RawVariable, index: int) -> MemberModel {
    MemberModel {
        name: member_key(v.name@, v.dimension),
        kind: v.kind,
        index,
        enums: if v.kind == MemberKind::Enum {
            enum_table(v.enum_value_names@)
        } else {
            Map::empty()
        },
    }
}

/// The descriptor model a raw slot produces at its position in its list.
pub open spec fn slot_model(s: RawSlot, kind: MemberKind, index: int) -> MemberModel {
    MemberModel { name: member_key(s.name@, s.dimension), kind, index, enums: Map::empty() }
}

/// Folds the raw variable list into a member map; a later member with
/// the same key wins.
pub open spec fn insert_variables(
    base: Map<Seq<char>, MemberModel>,
    vars: Seq<RawVariable>,
) -> Map<Seq<char>, MemberModel>
    decreases vars.len(),
{
    if vars.len() == 0 {
        base
    } else {
        insert_variables(base, vars.drop_last()).insert(
            member_key(vars.last().name@, vars.last().dimension),
            variable_model(vars.last(), vars.len() - 1),
        )
    }
}

/// Folds a raw slot list into a member map; a later member with the same
/// key wins.
pub open spec fn insert_slots(
    base: Map<Seq<char>, MemberModel>,
    slots: Seq<RawSlot>,
    kind: MemberKind,
) -> Map<Seq<char>, MemberModel>
    decreases slots.len(),
{
    if slots.len() == 0 {
        base
    } else {
        insert_slots(base, slots.drop_last(), kind).insert(
            member_key(slots.last().name@, slots.last().dimension),
            slot_model(slots.last(), kind, slots.len() - 1),
        )
    }
}

/// The full member map one raw node type produces: its variables, then
/// its node lookups, then its hybrids, a later insertion winning over an
/// earlier one of the same key.
pub open spec fn raw_member_map(r: RawNodeMetadata) -> Map<Seq<char>, MemberModel> {
    insert_slots(
        insert_slots(
            insert_variables(Map::empty(), r.variables@),
            r.node_lookups@,
            MemberKind::NodeLookup,
        ),
        r.hybrids@,
        MemberKind::Hybrid,
    )
}

/// A member key is already normalized: the normalized name part is fixed
/// under normalization, and so are the axis suffix letters.
pub proof fn lemma_member_key_normalized(name: Seq<char>, dim: i32)
    ensures
        normalize_chars(member_key(name, dim)) == member_key(name, dim),
{
    lemma_normalize_chars_shape(name);
    let k = member_key(name, dim);
    let pre = normalize_chars(name);
    assert forall|i: int| 0 <= i < k.len() implies k[i] != ' ' && lower_char(#[trigger] k[i])
        == k[i] by {
        if i < pre.len() {
            assert(k[i] == pre[i]);
        } else {
            assert(k[i] == dim_suffix(dim)[i - pre.len()]);
        }
    }
    lemma_normalize_chars_of_fixed(k);
}

/// Builds the value table of one raw enum parameter: every value name is
/// normalized and given its enumeration position as its code.
#[verifier::loop_isolation(false)]
fn build_enum_values(names: &Vec<String>) -> (vals: Vec<EnumValue>)
    requires
        names@.len() <= 0x7fff_ffff,
    ensures
        enum_names_unique(vals@),
        forall|i: int|
            0 <= i < vals@.len() ==> normalize_chars((#[trigger] vals@[i]).name@)
                == vals@[i].name@,
        enum_map(vals@) == enum_table(names@),
{
    let mut vals: Vec<EnumValue> = Vec::new();
    let mut e: usize = 0;
    while e < names.len()
        invariant
            e <= names@.len(),
            enum_names_unique(vals@),
            forall|i: int|
                0 <= i < vals@.len() ==> normalize_chars((#[trigger] vals@[i]).name@)
                    == vals@[i].name@,
            enum_map(vals@) == enum_table(names@.take(e as int)),
        decreases names@.len() - e,
    {
        let key = format_lookup(names[e].as_str());
        proof {
            lemma_normalize_idempotent(names@[e as int]@);
        }
        let ghost pre_vals = vals@;
        insert_enum_value(&mut vals, EnumValue { name: key, code: e as i32 });
        proof {
            let t = names@.take(e + 1 as int);
            assert(t.drop_last() =~= names@.take(e as int));
            assert(t.last() == names@[e as int]);
            assert(enum_table(t) == enum_table(names@.take(e as int)).insert(
                normalize_chars(names@[e as int]@),
                e as int,
            ));
            assert forall|i: int| 0 <= i < vals@.len() implies normalize_chars(
                (#[trigger] vals@[i]).name@,
            ) == vals@[i].name@ by {
                if vals@[i].name@ != key@ {
                    let j = choose|j: int|
                        0 <= j < pre_vals.len() && vals@[i].name@ == (#[trigger] pre_vals[j]).name@;
                }
            }
        }
        e += 1;
    }
    proof {
        assert(names@.take(names@.len() as int) =~= names@);
    }
    vals
}

/// Builds the member descriptors of one raw node type: the variables,
/// then the node lookups, then the hybrids, each under its normalized
/// suffixed key, a later member replacing an earlier one of the same key.
#[verifier::loop_isolation(false)]
fn build_members(r: &RawNodeMetadata) -> (ms: Vec<Member>)
    requires
        r.variables@.len() <= 0x7fff_ffff,
        r.node_lookups@.len() <= 0x7fff_ffff,
        r.hybrids@.len() <= 0x7fff_ffff,
        forall|v: int|
            0 <= v < r.variables@.len() ==> (#[trigger] r.variables@[v]).enum_value_names@.len()
                <= 0x7fff_ffff,
    ensures
        member_names_unique(ms@),
        forall|i: int| 0 <= i < ms@.len() ==> (#[trigger] ms@[i]).wf(),
        members_map(ms@) == raw_member_map(*r),
{
    let mut ms: Vec<Member> = Vec::new();
    let mut i: usize = 0;
    while i < r.variables.len()
        invariant
            i <= r.variables@.len(),
            member_names_unique(ms@),
            forall|j: int| 0 <= j < ms@.len() ==> (#[trigger] ms@[j]).wf(),
            members_map(ms@) == insert_variables(Map::empty(), r.variables@.take(i as int)),
        decreases r.variables@.len() - i,
    {
        let v = &r.variables[i];
        let base = format_lookup(v.name.as_str());
        let key = format_dimension_member(base.as_str(), v.dimension);
        let enum_values = if v.kind == MemberKind::Enum {
            build_enum_values(&v.enum_value_names)
        } else {
            Vec::new()
        };
        let m = Member { name: key, kind: v.kind, index: i as i32, enum_values };
        proof {
            lemma_member_key_normalized(v.name@, v.dimension);
            assert(m.wf());
            assert(m@ == variable_model(r.variables@[i as int], i as int));
        }
        insert_member(&mut ms, m);
        proof {
            let t = r.variables@.take(i + 1 as int);
            assert(t.drop_last() =~= r.variables@.take(i as int));
            assert(t.last() == r.variables@[i as int]);
        }
        i += 1;
    }
    proof {
        assert(r.variables@.take(r.variables@.len() as int) =~= r.variables@);
    }
    let ghost vars_map = insert_variables(Map::empty(), r.variables@);
    let mut i: usize = 0;
    while i < r.node_lookups.len()
        invariant
            i <= r.node_lookups@.len(),
            member_names_unique(ms@),
            forall|j: int| 0 <= j < ms@.len() ==> (#[trigger] ms@[j]).wf(),
            members_map(ms@) == insert_slots(
                vars_map,
                r.node_lookups@.take(i as int),
                MemberKind::NodeLookup,
            ),
        decreases r.node_lookups@.len() - i,
    {
        let s = &r.node_lookups[i];
        let base = format_lookup(s.name.as_str());
        let key = format_dimension_member(base.as_str(), s.dimension);
        let m = Member {
            name: key,
            kind: MemberKind::NodeLookup,
            index: i as i32,
            enum_values: Vec::new(),
        };
        proof {
            lemma_member_key_normalized(s.name@, s.dimension);
            assert(m.wf());
            assert(m@ == slot_model(r.node_lookups@[i as int], MemberKind::NodeLookup, i as int));
        }
        insert_member(&mut ms, m);
        proof {
            let t = r.node_lookups@.take(i + 1 as int);
            assert(t.drop_last() =~= r.node_lookups@.take(i as int));
            assert(t.last() == r.node_lookups@[i as int]);
        }
        i += 1;
    }
    proof {
        assert(r.node_lookups@.take(r.node_lookups@.len() as int) =~= r.node_lookups@);
    }
    let ghost lookups_map = insert_slots(vars_map, r.node_lookups@, MemberKind::NodeLookup);
    let mut i: usize = 0;
    while i < r.hybrids.len()
        invariant
            i <= r.hybrids@.len(),
            member_names_unique(ms@),
            forall|j: int| 0 <= j < ms@.len() ==> (#[trigger] ms@[j]).wf(),
            members_map(ms@) == insert_slots(
                lookups_map,
                r.hybrids@.take(i as int),
                MemberKind::Hybrid,
            ),
        decreases r.hybrids@.len() - i,
    {
        let s = &r.hybrids[i];
        let base = format_lookup(s.name.as_str());
        let key = format_dimension_member(base.as_str(), s.dimension);
        let m = Member {
            name: key,
            kind: MemberKind::Hybrid,
            index: i as i32,
            enum_values: Vec::new(),
        };
        proof {
            lemma_member_key_normalized(s.name@, s.dimension);
            assert(m.wf());
            assert(m@ == slot_model(r.hybrids@[i as int], MemberKind::Hybrid, i as int));
        }
        insert_member(&mut ms, m);
        proof {
            let t = r.hybrids@.take(i + 1 as int);
            assert(t.drop_last() =~= r.hybrids@.take(i as int));
            assert(t.last() == r.hybrids@[i as int]);
        }
        i += 1;
    }
    proof {
        assert(r.hybrids@.take(r.hybrids@.len() as int) =~= r.hybrids@);
    }
    ms
}

/// In a well-formed registry, every member descriptor's name is unique
/// within its owning type's member list: two distinct descriptors of one
/// entry never share a name.
pub proof fn lemma_member_names_unique(reg: &Registry, t: int, i: int, j: int)
    requires
        reg.wf(),
        0 <= t < reg.entries@.len(),
        0 <= i < reg.entries@[t].members@.len(),
        0 <= j < reg.entries@[t].members@.len(),
        i != j,
    ensures
        reg.entries@[t].members@[i].name@ != reg.entries@[t].members@[j].name@,
{
}

/// Why the registry could not be built.
#[derive(Clone, Copy, PartialEq, Eq, Structural, Debug)]
pub enum RegistryError {
    /// The engine reported no node types at all; there is no partial or
    /// degraded registry, so construction fails outright.
    NoNodeTypes,
}

/// The machine bounds the raw enumeration respects by construction: the
/// engine reports every count as a signed 32-bit integer.
pub open spec fn raw_counts_bounded(raw: Seq<RawNodeMetadata>) -> bool {
    &&& raw.len() <= 0x7fff_ffff
    &&& (forall|t: int|
        0 <= t < raw.len() ==> {
            &&& (#[trigger] raw[t]).variables@.len() <= 0x7fff_ffff
            &&& raw[t].node_lookups@.len() <= 0x7fff_ffff
            &&& raw[t].hybrids@.len() <= 0x7fff_ffff
            &&& (forall|v: int|
                0 <= v < raw[t].variables@.len() ==> (#[trigger] raw[t].variables@[v]).enum_value_names@.len()
                    <= 0x7fff_ffff)
        })
}

/// The registry: one entry per node type, the entry's position equal to
/// the engine's type id. Built once, read-only afterwards.
pub struct Registry {
    pub entries: Vec<Metadata>,
}

impl Registry {
    /// A well-formed registry: every entry is well-formed and sits at the
    /// position of its own type id.
    pub open spec fn wf(&self) -> bool {
        forall|t: int|
            0 <= t < self.entries@.len() ==> (#[trigger] self.entries@[t]).wf()
                && self.entries@[t].id == t
    }

    /// How many node types were discovered.
    pub fn type_count(&self) -> (n: usize)
        ensures
            n == self.entries@.len(),
    {
        self.entries.len()
    }

    /// The entry of one type id.
    pub fn entry(&self, id: usize) -> (m: &Metadata)
        requires
            id < self.entries@.len(),
        ensures
            m == self.entries@[id as int],
    {
        &self.entries[id]
    }

    /// Finds the type id registered under the given name, matching
    /// case-insensitively and space-insensitively. Of several entries
    /// with the same canonical name, the one registered last wins; an
    /// unknown name finds nothing.
    #[verifier::loop_isolation(false)]
    pub fn find_type(&self, name: &str) -> (r: Option<usize>)
        ensures
            match r {
                Some(t) => t < self.entries@.len() && (#[trigger] self.entries@[t as int]).name@
                    == normalize_chars(name@) && (forall|k: int|
                    t < k < self.entries@.len() ==> (#[trigger] self.entries@[k]).name@
                        != normalize_chars(name@)),
                None => forall|k: int|
                    0 <= k < self.entries@.len() ==> (#[trigger] self.entries@[k]).name@
                        != normalize_chars(name@),
            },
    {
        let key = format_lookup(name);
        let mut i: usize = self.entries.len();
        while i > 0
            invariant
                i <= self.entries@.len(),
                forall|k: int|
                    i <= k < self.entries@.len() ==> (#[trigger] self.entries@[k]).name@ != key@,
            decreases i,
        {
            i -= 1;
            if self.entries[i].name == key {
                return Some(i);
            }
        }
        None
    }

    /// Builds the registry from the raw enumeration the caller read off
    /// the engine. Construction fails if the engine reported no node
    /// types; otherwise every raw type becomes the entry at its own
    /// position, carrying its normalized name and the member map its raw
    /// member lists produce.
    #[verifier::loop_isolation(false)]
    pub fn build(raw: &Vec<RawNodeMetadata>) -> (r: Result<Registry, RegistryError>)
        requires
            raw_counts_bounded(raw@),
        ensures
            match r {
                Ok(reg) => raw@.len() > 0 && reg.wf() && reg.entries@.len() == raw@.len() && (
                forall|t: int|
                    0 <= t < raw@.len() ==> {
                        &&& (#[trigger] reg.entries@[t]).name@ == normalize_chars(raw@[t].name@)
                        &&& reg.entries@[t].member_map() == raw_member_map(raw@[t])
                    }),
                Err(e) => raw@.len() == 0 && e == RegistryError::NoNodeTypes,
            },
    {
        if raw.len() == 0 {
            return Err(RegistryError::NoNodeTypes);
        }
        let mut entries: Vec<Metadata> = Vec::new();
        let mut t: usize = 0;
        while t < raw.len()
            invariant
                t <= raw@.len(),
                entries@.len() == t,
                forall|s: int|
                    0 <= s < t ==> {
                        &&& (#[trigger] entries@[s]).wf()
                        &&& entries@[s].id == s
                        &&& entries@[s].name@ == normalize_chars(raw@[s].name@)
                        &&& entries@[s].member_map() == raw_member_map(raw@[s])
                    },
            decreases raw@.len() - t,
        {
            let rt = &raw[t];
            let members = build_members(rt);
            let name = format_lookup(rt.name.as_str());
            proof {
                lemma_normalize_idempotent(raw@[t as int].name@);
            }
            entries.push(Metadata { id: t as i32, name, members });
            t += 1;
        }
        Ok(Registry { entries })
    }
}

} // verus!
