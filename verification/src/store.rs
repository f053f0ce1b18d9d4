use vstd::prelude::*;
use vstd::string::StringExecFns;
use crate::descriptor::DescriptorData;
use crate::types::CgnsOpenMode;

verus! {

/// A zone node as the store holds it: its name, the raw zone-type code and
/// nine-slot size buffer the external library keeps, and its own children.
#[derive(Debug)]
pub struct ZoneNode {
    pub name: String,
    pub zone_type: i32,
    pub size: Vec<i32>,
    pub descriptors: Vec<DescriptorData>,
    pub ordinal: Option<i32>,
}

impl ZoneNode {
    pub open spec fn wf(&self) -> bool {
        &&& self.size@.len() == 9
        &&& self.descriptors@.len() <= i32::MAX
    }
}

/// A base node as the store holds it: its fields plus its children. The
/// simulation type is kept as the raw code the external library stores.
#[derive(Debug)]
pub struct BaseNode {
    pub name: String,
    pub cell_dim: i32,
    pub phys_dim: i32,
    pub zones: Vec<ZoneNode>,
    pub descriptors: Vec<DescriptorData>,
    pub simulation_type: Option<i32>,
    pub ordinal: Option<i32>,
}

impl BaseNode {
    pub open spec fn wf(&self) -> bool {
        &&& self.zones@.len() <= i32::MAX
        &&& self.descriptors@.len() <= i32::MAX
        &&& forall|i: int| 0 <= i < self.zones@.len() ==> (#[trigger] self.zones@[i]).wf()
    }
}

/// The persistent contents of one store: its name and its base nodes.
#[derive(Debug)]
pub struct StoredFile {
    pub name: String,
    pub bases: Vec<BaseNode>,
}

impl StoredFile {
    pub open spec fn wf(&self) -> bool {
        &&& self.bases@.len() <= i32::MAX
        &&& forall|i: int| 0 <= i < self.bases@.len() ==> (#[trigger] self.bases@[i]).wf()
    }
}

/// One entry of the open-file table: which store the handle number points
/// at, the mode it was opened with, and whether it is still open. Handle
/// numbers are never reused, so a closed entry stays behind.
#[derive(Clone, Copy, Debug)]
pub struct FileSlot {
    pub store: usize,
    pub mode: CgnsOpenMode,
    pub open: bool,
}

/// The external library's single global cursor: a file handle number, a
/// base index, and the serialized label/index list below the base.
#[derive(Debug)]
pub struct Cursor {
    pub file_number: i32,
    pub base_index: i32,
    pub nodes: Vec<(String, i32)>,
}

/// The global state owned by the external library, modeled explicitly: the
/// stores it persists, the open-file table, the cursor, and whether the
/// single library lease is currently held.
#[derive(Debug)]
pub struct LibraryState {
    pub stores: Vec<StoredFile>,
    pub slots: Vec<FileSlot>,
    pub cursor: Option<Cursor>,
    pub lease_held: bool,
}

impl LibraryState {
    pub open spec fn wf(&self) -> bool {
        &&& self.slots@.len() <= i32::MAX
        &&& forall|i: int| 0 <= i < self.slots@.len()
            ==> (#[trigger] self.slots@[i]).store < self.stores@.len()
        &&& forall|i: int| 0 <= i < self.stores@.len() ==> (#[trigger] self.stores@[i]).wf()
    }

    /// A fresh library state: nothing stored, nothing open, no cursor, and
    /// the lease free.
    pub fn new() -> (w: Self)
        ensures
            w.wf(),
            !w.lease_held,
            w.stores@.len() == 0,
            w.slots@.len() == 0,
            w.cursor is None,
    {
        LibraryState { stores: Vec::new(), slots: Vec::new(), cursor: None, lease_held: false }
    }

    /// True when `fnum` names an entry of the open-file table that is
    /// still open.
    pub open spec fn file_open(&self, fnum: i32) -> bool {
        &&& 1 <= fnum <= self.slots@.len()
        &&& self.slots@[fnum - 1].open
    }

    pub open spec fn slot_at(&self, fnum: i32) -> FileSlot {
        self.slots@[fnum - 1]
    }

    /// The store a handle number points at.
    pub open spec fn store_at(&self, fnum: i32) -> StoredFile {
        self.stores@[self.slot_at(fnum).store as int]
    }

    /// True when `bidx` is a valid 1-based base index under handle `fnum`.
    pub open spec fn base_ok(&self, fnum: i32, bidx: i32) -> bool {
        &&& self.file_open(fnum)
        &&& 1 <= bidx <= self.store_at(fnum).bases@.len()
    }

    pub open spec fn base_at(&self, fnum: i32, bidx: i32) -> BaseNode {
        self.store_at(fnum).bases@[bidx - 1]
    }

    /// True when `zidx` is a valid 1-based zone index under the given base.
    pub open spec fn zone_ok(&self, fnum: i32, bidx: i32, zidx: i32) -> bool {
        &&& self.base_ok(fnum, bidx)
        &&& 1 <= zidx <= self.base_at(fnum, bidx).zones@.len()
    }

    pub open spec fn zone_at(&self, fnum: i32, bidx: i32, zidx: i32) -> ZoneNode {
        self.base_at(fnum, bidx).zones@[zidx - 1]
    }
}


/// True when everything strictly outside the node at `c` keeps its value:
/// the open-file table and the lease, every other store, the store's name
/// and base count, every other base, and, when the node is a zone, the
/// base's own fields and every other zone.
pub open spec fn stores_shape_unchanged(w: LibraryState, w2: LibraryState, c: ContainerLoc) -> bool {
    &&& w2.slots == w.slots
    &&& w2.lease_held == w.lease_held
    &&& w2.stores@.len() == w.stores@.len()
    &&& forall|j: int| 0 <= j < w.stores@.len() && j != c.store as int
        ==> w2.stores@[j] == w.stores@[j]
    &&& w2.stores@[c.store as int].name == w.stores@[c.store as int].name
    &&& w2.stores@[c.store as int].bases@.len() == w.stores@[c.store as int].bases@.len()
    &&& forall|k: int| 0 <= k < w.stores@[c.store as int].bases@.len() && k != c.base as int
        ==> w2.stores@[c.store as int].bases@[k] == w.stores@[c.store as int].bases@[k]
    &&& (c.zone matches Some(z) ==> {
        &&& base_of(w2, c).name == base_of(w, c).name
        &&& base_of(w2, c).cell_dim == base_of(w, c).cell_dim
        &&& base_of(w2, c).phys_dim == base_of(w, c).phys_dim
        &&& base_of(w2, c).descriptors == base_of(w, c).descriptors
        &&& base_of(w2, c).simulation_type == base_of(w, c).simulation_type
        &&& base_of(w2, c).ordinal == base_of(w, c).ordinal
        &&& base_of(w2, c).zones@.len() == base_of(w, c).zones@.len()
        &&& forall|k: int| 0 <= k < base_of(w, c).zones@.len() && k != z as int
            ==> base_of(w2, c).zones@[k] == base_of(w, c).zones@[k]
    })
}


/// True when two zone nodes hold the same values: the same name, type
/// code, size buffer, descriptors and ordinal.
pub open spec fn zone_node_like(a: ZoneNode, b: ZoneNode) -> bool {
    &&& a.name == b.name
    &&& a.zone_type == b.zone_type
    &&& a.size@ == b.size@
    &&& a.descriptors@ == b.descriptors@
    &&& a.ordinal == b.ordinal
}

/// True when two base nodes hold the same values, zone by zone.
pub open spec fn base_node_like(a: BaseNode, b: BaseNode) -> bool {
    &&& a.name == b.name
    &&& a.cell_dim == b.cell_dim
    &&& a.phys_dim == b.phys_dim
    &&& a.descriptors@ == b.descriptors@
    &&& a.simulation_type == b.simulation_type
    &&& a.ordinal == b.ordinal
    &&& a.zones@.len() == b.zones@.len()
    &&& forall|i: int| 0 <= i < b.zones@.len() ==> zone_node_like(#[trigger] a.zones@[i], b.zones@[i])
}

/// True when two base lists hold the same values throughout.
pub open spec fn bases_like(a: Seq<BaseNode>, b: Seq<BaseNode>) -> bool {
    &&& a.len() == b.len()
    &&& forall|i: int| 0 <= i < b.len() ==> base_node_like(#[trigger] a[i], b[i])
}

fn copy_descriptors(v: &Vec<DescriptorData>) -> (r: Vec<DescriptorData>)
    ensures
        r@ == v@,
{
    let mut r: Vec<DescriptorData> = Vec::new();
    let n = v.len();
    let mut i: usize = 0;
    while i < n
        invariant
            0 <= i <= n,
            n == v@.len(),
            r@ == v@.subrange(0, i as int),
        decreases n - i,
    {
        r.push(v[i].clone());
        proof {
            assert(r@ =~= v@.subrange(0, i + 1 as int));
        }
        i += 1;
    }
    proof {
        assert(r@ =~= v@);
    }
    r
}

fn copy_ints(v: &Vec<i32>) -> (r: Vec<i32>)
    ensures
        r@ == v@,
{
    let mut r: Vec<i32> = Vec::new();
    let n = v.len();
    let mut i: usize = 0;
    while i < n
        invariant
            0 <= i <= n,
            n == v@.len(),
            r@ == v@.subrange(0, i as int),
        decreases n - i,
    {
        r.push(v[i]);
        proof {
            assert(r@ =~= v@.subrange(0, i + 1 as int));
        }
        i += 1;
    }
    proof {
        assert(r@ =~= v@);
    }
    r
}

fn copy_zone(z: &ZoneNode) -> (r: ZoneNode)
    ensures
        zone_node_like(r, *z),
{
    ZoneNode {
        name: z.name.clone(),
        zone_type: z.zone_type,
        size: copy_ints(&z.size),
        descriptors: copy_descriptors(&z.descriptors),
        ordinal: z.ordinal,
    }
}

fn copy_zones(v: &Vec<ZoneNode>) -> (r: Vec<ZoneNode>)
    ensures
        r@.len() == v@.len(),
        forall|i: int| 0 <= i < v@.len() ==> zone_node_like(#[trigger] r@[i], v@[i]),
{
    let mut r: Vec<ZoneNode> = Vec::new();
    let n = v.len();
    let mut i: usize = 0;
    while i < n
        invariant
            0 <= i <= n,
            n == v@.len(),
            r@.len() == i,
            forall|j: int| 0 <= j < i ==> zone_node_like(#[trigger] r@[j], v@[j]),
        decreases n - i,
    {
        r.push(copy_zone(&v[i]));
        i += 1;
    }
    r
}

fn copy_base(b: &BaseNode) -> (r: BaseNode)
    ensures
        base_node_like(r, *b),
{
    BaseNode {
        name: b.name.clone(),
        cell_dim: b.cell_dim,
        phys_dim: b.phys_dim,
        zones: copy_zones(&b.zones),
        descriptors: copy_descriptors(&b.descriptors),
        simulation_type: b.simulation_type,
        ordinal: b.ordinal,
    }
}

/// A value copy of a base list, for snapshotting a store's contents.
pub(crate) fn copy_bases(v: &Vec<BaseNode>) -> (r: Vec<BaseNode>)
    ensures
        bases_like(r@, v@),
{
    let mut r: Vec<BaseNode> = Vec::new();
    let n = v.len();
    let mut i: usize = 0;
    while i < n
        invariant
            0 <= i <= n,
            n == v@.len(),
            r@.len() == i,
            forall|j: int| 0 <= j < i ==> base_node_like(#[trigger] r@[j], v@[j]),
        decreases n - i,
    {
        r.push(copy_base(&v[i]));
        i += 1;
    }
    r
}

/// Node values that are alike are well-formed together.
pub proof fn lemma_bases_like_wf(a: Seq<BaseNode>, b: Seq<BaseNode>)
    requires
        bases_like(a, b),
        forall|i: int| 0 <= i < b.len() ==> (#[trigger] b[i]).wf(),
        b.len() <= i32::MAX,
    ensures
        forall|i: int| 0 <= i < a.len() ==> (#[trigger] a[i]).wf(),
        a.len() <= i32::MAX,
{
    assert forall|i: int| 0 <= i < a.len() implies (#[trigger] a[i]).wf() by {
        assert(base_node_like(a[i], b[i]));
        assert(b[i].wf());
        assert forall|k: int| 0 <= k < a[i].zones@.len() implies (#[trigger] a[i].zones@[k]).wf() by {
            assert(zone_node_like(a[i].zones@[k], b[i].zones@[k]));
            assert(b[i].zones@[k].wf());
        }
    }
}

/// The resolved position of a base or zone node: indices into the model,
/// all 0-based; `zone` is nothing when the position is a base.
#[derive(Clone, Copy, Debug, PartialEq, Eq, Structural)]
pub struct ContainerLoc {
    pub store: usize,
    pub base: usize,
    pub zone: Option<usize>,
}

/// What a serialized path resolves to: a base or zone node itself, or one
/// of the leaf children hanging off such a node. Descriptor positions keep
/// their 1-based sibling index.
#[derive(Clone, Copy, Debug, PartialEq, Eq, Structural)]
pub enum NodeLoc {
    Node(ContainerLoc),
    Descriptor(ContainerLoc, i32),
    Ordinal(ContainerLoc),
    SimulationType(ContainerLoc),
}

/// True when the location indexes an existing base (and zone, if set).
pub open spec fn container_ok(w: LibraryState, c: ContainerLoc) -> bool {
    &&& c.store < w.stores@.len()
    &&& c.base < w.stores@[c.store as int].bases@.len()
    &&& (c.zone matches Some(z) ==> z < base_of(w, c).zones@.len())
}

/// The base node a location lives under.
pub open spec fn base_of(w: LibraryState, c: ContainerLoc) -> BaseNode {
    w.stores@[c.store as int].bases@[c.base as int]
}

/// The descriptors of the node at the location.
pub open spec fn descriptors_of(w: LibraryState, c: ContainerLoc) -> Seq<DescriptorData> {
    match c.zone {
        Some(z) => base_of(w, c).zones@[z as int].descriptors@,
        None => base_of(w, c).descriptors@,
    }
}

/// The ordinal of the node at the location, if one was written.
pub open spec fn ordinal_of(w: LibraryState, c: ContainerLoc) -> Option<i32> {
    match c.zone {
        Some(z) => base_of(w, c).zones@[z as int].ordinal,
        None => base_of(w, c).ordinal,
    }
}

/// The simulation-type code of the base at the location, if one was
/// written. Only base nodes carry one.
pub open spec fn simulation_type_of(w: LibraryState, c: ContainerLoc) -> Option<i32> {
    base_of(w, c).simulation_type
}

/// A serialized node list, by the characters of its labels.
pub open spec fn nodes_strs(ns: Seq<(String, i32)>) -> Seq<(Seq<char>, i32)> {
    ns.map_values(|n: (String, i32)| (n.0@, n.1))
}

/// Resolves one leaf step below a base or zone node: a descriptor by its
/// 1-based index, or the ordinal or simulation-type child when it exists
/// (those are singletons and carry index 0).
pub open spec fn resolve_leaf_spec(w: LibraryState, c: ContainerLoc, node: (Seq<char>, i32)) -> Option<NodeLoc> {
    if node.0 == "Descriptor_t"@ {
        if 1 <= node.1 <= descriptors_of(w, c).len() {
            Some(NodeLoc::Descriptor(c, node.1))
        } else {
            None
        }
    } else if node.0 == "Ordinal_t"@ {
        if node.1 == 0 && ordinal_of(w, c) is Some {
            Some(NodeLoc::Ordinal(c))
        } else {
            None
        }
    } else if node.0 == "SimulationType_t"@ && c.zone is None {
        if node.1 == 0 && simulation_type_of(w, c) is Some {
            Some(NodeLoc::SimulationType(c))
        } else {
            None
        }
    } else {
        None
    }
}

/// Resolves a serialized path against the store: the handle must be open,
/// the base index in range, and the steps below the base must name nodes
/// that exist. Anything else resolves to nothing.
pub open spec fn resolve_nodes_spec(w: LibraryState, fnum: i32, bidx: i32, nodes: Seq<(Seq<char>, i32)>) -> Option<NodeLoc> {
    if !w.file_open(fnum) {
        None
    } else if !(1 <= bidx <= w.store_at(fnum).bases@.len()) {
        None
    } else {
        let c = ContainerLoc {
            store: w.slot_at(fnum).store,
            base: (bidx - 1) as usize,
            zone: None,
        };
        if nodes.len() == 0 {
            Some(NodeLoc::Node(c))
        } else if nodes[0].0 == "Zone_t"@ {
            if 1 <= nodes[0].1 <= base_of(w, c).zones@.len() {
                let cz = ContainerLoc {
                    store: c.store,
                    base: c.base,
                    zone: Some((nodes[0].1 - 1) as usize),
                };
                if nodes.len() == 1 {
                    Some(NodeLoc::Node(cz))
                } else if nodes.len() == 2 {
                    resolve_leaf_spec(w, cz, nodes[1])
                } else {
                    None
                }
            } else {
                None
            }
        } else if nodes.len() == 1 {
            resolve_leaf_spec(w, c, nodes[0])
        } else {
            None
        }
    }
}

/// Compares a stored label string with a literal spelling.
pub fn string_eq_lit(s: &String, lit: &str) -> (r: bool)
    ensures
        r == (s@ == lit@),
{
    let t = String::from_str(lit);
    *s == t
}

/// Resolves one leaf step; the executable twin of `resolve_leaf_spec`.
fn resolve_leaf(w: &LibraryState, c: ContainerLoc, node: &(String, i32)) -> (r: Option<NodeLoc>)
    requires
        w.wf(),
        container_ok(*w, c),
    ensures
        r == resolve_leaf_spec(*w, c, (node.0@, node.1)),
{
    let (label, index) = node;
    let store = &w.stores[c.store];
    let base = &store.bases[c.base];
    if string_eq_lit(label, "Descriptor_t") {
        let n_descriptors: usize = match c.zone {
            Some(z) => base.zones[z].descriptors.len(),
            None => base.descriptors.len(),
        };
        if 1 <= *index && *index as usize <= n_descriptors {
            Some(NodeLoc::Descriptor(c, *index))
        } else {
            None
        }
    } else if string_eq_lit(label, "Ordinal_t") {
        let ordinal = match c.zone {
            Some(z) => base.zones[z].ordinal,
            None => base.ordinal,
        };
        if *index == 0 && ordinal.is_some() {
            Some(NodeLoc::Ordinal(c))
        } else {
            None
        }
    } else if string_eq_lit(label, "SimulationType_t") && c.zone.is_none() {
        if *index == 0 && base.simulation_type.is_some() {
            Some(NodeLoc::SimulationType(c))
        } else {
            None
        }
    } else {
        None
    }
}

/// Resolves a serialized path; the executable twin of
/// `resolve_nodes_spec`.
pub fn resolve_nodes(w: &LibraryState, fnum: i32, bidx: i32, nodes: &Vec<(String, i32)>) -> (r: Option<NodeLoc>)
    requires
        w.wf(),
    ensures
        r == resolve_nodes_spec(*w, fnum, bidx, nodes_strs(nodes@)),
{
    if fnum < 1 || fnum as usize > w.slots.len() {
        return None;
    }
    let slot = w.slots[fnum as usize - 1];
    if !slot.open {
        return None;
    }
    let store = &w.stores[slot.store];
    if bidx < 1 || bidx as usize > store.bases.len() {
        return None;
    }
    let c = ContainerLoc { store: slot.store, base: bidx as usize - 1, zone: None };
    let base = &store.bases[c.base];
    if nodes.len() == 0 {
        return Some(NodeLoc::Node(c));
    }
    let first = &nodes[0];
    if string_eq_lit(&first.0, "Zone_t") {
        if 1 <= first.1 && first.1 as usize <= base.zones.len() {
            let cz = ContainerLoc { store: c.store, base: c.base, zone: Some(first.1 as usize - 1) };
            if nodes.len() == 1 {
                Some(NodeLoc::Node(cz))
            } else if nodes.len() == 2 {
                resolve_leaf(w, cz, &nodes[1])
            } else {
                None
            }
        } else {
            None
        }
    } else if nodes.len() == 1 {
        resolve_leaf(w, c, &nodes[0])
    } else {
        None
    }
}

} // verus!
