use vstd::prelude::*;
use core::marker::PhantomData;
use crate::base::Base;
use crate::errors::CgnsError;
use crate::errors::CgnsErrorKind;
use crate::errors::CgnsResult;
use crate::node::NodeIter;
use crate::node::check_sibling_index;
use crate::open_modes::OpenMode;
use crate::open_modes::OpenModeRead;
use crate::open_modes::OpenModeWrite;
use crate::store::LibraryState;
use crate::store::ZoneNode;
use crate::types::CgnsNodeLabel;
use crate::types::CgnsPath;
use crate::types::has_nul;
use crate::types::str_has_nul;

verus! {

/// The zone-type code of a structured zone, as the external library
/// enumerates it.
pub const ZONE_TYPE_STRUCTURED: i32 = 2;

/// The zone-type code of an unstructured zone.
pub const ZONE_TYPE_UNSTRUCTURED: i32 = 3;

/// The size of a structured zone: vertex and cell counts per index
/// direction.
#[derive(Clone, Copy, Debug)]
pub struct StructuredZoneSize {
    pub n_vertex: (i32, i32, i32),
    pub n_cell: (i32, i32, i32),
}

impl PartialEq for StructuredZoneSize {
    fn eq(&self, other: &Self) -> (r: bool) {
        self.n_vertex.0 == other.n_vertex.0 && self.n_vertex.1 == other.n_vertex.1
            && self.n_vertex.2 == other.n_vertex.2 && self.n_cell.0 == other.n_cell.0
            && self.n_cell.1 == other.n_cell.1 && self.n_cell.2 == other.n_cell.2
    }
}

impl vstd::std_specs::cmp::PartialEqSpecImpl for StructuredZoneSize {
    open spec fn obeys_eq_spec() -> bool {
        true
    }

    open spec fn eq_spec(&self, other: &Self) -> bool {
        *self == *other
    }
}

/// The size of an unstructured zone: vertex, cell and boundary-vertex
/// counts per index direction.
#[derive(Clone, Copy, Debug)]
pub struct UnstructuredZoneSize {
    pub n_vertex: (i32, i32, i32),
    pub n_cell: (i32, i32, i32),
    pub n_bound_vertex: (i32, i32, i32),
}

impl PartialEq for UnstructuredZoneSize {
    fn eq(&self, other: &Self) -> (r: bool) {
        self.n_vertex.0 == other.n_vertex.0 && self.n_vertex.1 == other.n_vertex.1
            && self.n_vertex.2 == other.n_vertex.2 && self.n_cell.0 == other.n_cell.0
            && self.n_cell.1 == other.n_cell.1 && self.n_cell.2 == other.n_cell.2
            && self.n_bound_vertex.0 == other.n_bound_vertex.0
            && self.n_bound_vertex.1 == other.n_bound_vertex.1
            && self.n_bound_vertex.2 == other.n_bound_vertex.2
    }
}

impl vstd::std_specs::cmp::PartialEqSpecImpl for UnstructuredZoneSize {
    open spec fn obeys_eq_spec() -> bool {
        true
    }

    open spec fn eq_spec(&self, other: &Self) -> bool {
        *self == *other
    }
}

/// The size of a zone, by its kind.
#[derive(Clone, Copy, Debug)]
pub enum ZoneSize {
    Structured(StructuredZoneSize),
    Unstructured(UnstructuredZoneSize),
}

impl PartialEq for ZoneSize {
    fn eq(&self, other: &Self) -> (r: bool) {
        match (self, other) {
            (ZoneSize::Structured(a), ZoneSize::Structured(b)) => *a == *b,
            (ZoneSize::Unstructured(a), ZoneSize::Unstructured(b)) => *a == *b,
            _ => false,
        }
    }
}

impl vstd::std_specs::cmp::PartialEqSpecImpl for ZoneSize {
    open spec fn obeys_eq_spec() -> bool {
        true
    }

    open spec fn eq_spec(&self, other: &Self) -> bool {
        *self == *other
    }
}

/// The plain value of a zone node: its name and its size.
#[derive(Debug)]
pub struct ZoneData {
    pub name: String,
    pub size: ZoneSize,
}

impl PartialEq for ZoneData {
    fn eq(&self, other: &Self) -> (r: bool) {
        self.name == other.name && self.size == other.size
    }
}

impl vstd::std_specs::cmp::PartialEqSpecImpl for ZoneData {
    open spec fn obeys_eq_spec() -> bool {
        true
    }

    open spec fn eq_spec(&self, other: &Self) -> bool {
        self.name@ == other.name@ && self.size == other.size
    }
}

impl Clone for ZoneData {
    fn clone(&self) -> (r: Self)
        ensures
            r == *self,
    {
        ZoneData { name: self.name.clone(), size: self.size }
    }
}

/// The zone-type code a size is stored under.
pub open spec fn zone_type_code(size: ZoneSize) -> i32 {
    match size {
        ZoneSize::Structured(_) => ZONE_TYPE_STRUCTURED,
        ZoneSize::Unstructured(_) => ZONE_TYPE_UNSTRUCTURED,
    }
}

/// A size packed into the external nine-slot buffer: vertex counts, cell
/// counts, then boundary-vertex counts, which a structured zone leaves
/// zero.
pub open spec fn packed_size(size: ZoneSize) -> Seq<i32> {
    match size {
        ZoneSize::Structured(s) => seq![
            s.n_vertex.0,
            s.n_vertex.1,
            s.n_vertex.2,
            s.n_cell.0,
            s.n_cell.1,
            s.n_cell.2,
            0,
            0,
            0,
        ],
        ZoneSize::Unstructured(s) => seq![
            s.n_vertex.0,
            s.n_vertex.1,
            s.n_vertex.2,
            s.n_cell.0,
            s.n_cell.1,
            s.n_cell.2,
            s.n_bound_vertex.0,
            s.n_bound_vertex.1,
            s.n_bound_vertex.2,
        ],
    }
}

/// A nine-slot buffer decoded back by its zone-type code; a code outside
/// the known set decodes to nothing.
pub open spec fn unpacked_size(zone_type: i32, buf: Seq<i32>) -> Option<ZoneSize>
    recommends
        buf.len() == 9,
{
    if zone_type == ZONE_TYPE_STRUCTURED {
        Some(
            ZoneSize::Structured(
                StructuredZoneSize {
                    n_vertex: (buf[0], buf[1], buf[2]),
                    n_cell: (buf[3], buf[4], buf[5]),
                },
            ),
        )
    } else if zone_type == ZONE_TYPE_UNSTRUCTURED {
        Some(
            ZoneSize::Unstructured(
                UnstructuredZoneSize {
                    n_vertex: (buf[0], buf[1], buf[2]),
                    n_cell: (buf[3], buf[4], buf[5]),
                    n_bound_vertex: (buf[6], buf[7], buf[8]),
                },
            ),
        )
    } else {
        None
    }
}

/// Unpacking a packed size under its own code gives the size back.
pub proof fn lemma_size_pack_round_trip(size: ZoneSize)
    ensures
        packed_size(size).len() == 9,
        unpacked_size(zone_type_code(size), packed_size(size)) == Some(size),
{
}

/// Packs a size into the nine-slot buffer and its zone-type code.
fn pack_size(size: &ZoneSize) -> (r: (Vec<i32>, i32))
    ensures
        r.0@ == packed_size(*size),
        r.1 == zone_type_code(*size),
{
    let mut buf: Vec<i32> = Vec::new();
    let zone_type: i32;
    match size {
        ZoneSize::Structured(s) => {
            buf.push(s.n_vertex.0);
            buf.push(s.n_vertex.1);
            buf.push(s.n_vertex.2);
            buf.push(s.n_cell.0);
            buf.push(s.n_cell.1);
            buf.push(s.n_cell.2);
            buf.push(0);
            buf.push(0);
            buf.push(0);
            zone_type = ZONE_TYPE_STRUCTURED;
        },
        ZoneSize::Unstructured(s) => {
            buf.push(s.n_vertex.0);
            buf.push(s.n_vertex.1);
            buf.push(s.n_vertex.2);
            buf.push(s.n_cell.0);
            buf.push(s.n_cell.1);
            buf.push(s.n_cell.2);
            buf.push(s.n_bound_vertex.0);
            buf.push(s.n_bound_vertex.1);
            buf.push(s.n_bound_vertex.2);
            zone_type = ZONE_TYPE_UNSTRUCTURED;
        },
    }
    proof {
        assert(buf@ =~= packed_size(*size));
    }
    (buf, zone_type)
}

/// Decodes the nine-slot buffer under its zone-type code.
fn unpack_size(zone_type: i32, buf: &Vec<i32>) -> (r: Option<ZoneSize>)
    requires
        buf@.len() == 9,
    ensures
        r == unpacked_size(zone_type, buf@),
{
    if zone_type == ZONE_TYPE_STRUCTURED {
        Some(
            ZoneSize::Structured(
                StructuredZoneSize {
                    n_vertex: (buf[0], buf[1], buf[2]),
                    n_cell: (buf[3], buf[4], buf[5]),
                },
            ),
        )
    } else if zone_type == ZONE_TYPE_UNSTRUCTURED {
        Some(
            ZoneSize::Unstructured(
                UnstructuredZoneSize {
                    n_vertex: (buf[0], buf[1], buf[2]),
                    n_cell: (buf[3], buf[4], buf[5]),
                    n_bound_vertex: (buf[6], buf[7], buf[8]),
                },
            ),
        )
    } else {
        None
    }
}

/// The value a read of a zone node returns, or nothing when the stored
/// zone-type code is outside the known set.
pub open spec fn zone_read_value(n: ZoneNode) -> Option<ZoneData> {
    match unpacked_size(n.zone_type, n.size@) {
        Some(size) => Some(ZoneData { name: n.name, size }),
        None => None,
    }
}

/// True when `n` is the node a write of `data` creates.
pub open spec fn zone_node_for(n: ZoneNode, data: ZoneData) -> bool {
    &&& n.name == data.name
    &&& n.zone_type == zone_type_code(data.size)
    &&& n.size@ == packed_size(data.size)
    &&& n.descriptors@.len() == 0
    &&& n.ordinal is None
}

/// What writing a zone under base `bidx` of the open file `fnum` does to
/// the library state: the node for `data` is appended to that base's
/// zones; everything else stays as it was.
pub open spec fn zone_appended(w: LibraryState, w2: LibraryState, fnum: i32, bidx: i32, data: ZoneData) -> bool {
    &&& w2.slots == w.slots
    &&& w2.cursor == w.cursor
    &&& w2.lease_held == w.lease_held
    &&& w2.stores@.len() == w.stores@.len()
    &&& forall|j: int| 0 <= j < w.stores@.len() && j != w.slot_at(fnum).store as int
        ==> w2.stores@[j] == w.stores@[j]
    &&& w2.store_at(fnum).name == w.store_at(fnum).name
    &&& w2.store_at(fnum).bases@.len() == w.store_at(fnum).bases@.len()
    &&& forall|k: int| 0 <= k < w.store_at(fnum).bases@.len() && k != bidx - 1
        ==> w2.store_at(fnum).bases@[k] == w.store_at(fnum).bases@[k]
    &&& w2.base_at(fnum, bidx).name == w.base_at(fnum, bidx).name
    &&& w2.base_at(fnum, bidx).cell_dim == w.base_at(fnum, bidx).cell_dim
    &&& w2.base_at(fnum, bidx).phys_dim == w.base_at(fnum, bidx).phys_dim
    &&& w2.base_at(fnum, bidx).descriptors == w.base_at(fnum, bidx).descriptors
    &&& w2.base_at(fnum, bidx).simulation_type == w.base_at(fnum, bidx).simulation_type
    &&& w2.base_at(fnum, bidx).ordinal == w.base_at(fnum, bidx).ordinal
    &&& w2.base_at(fnum, bidx).zones@.len() == w.base_at(fnum, bidx).zones@.len() + 1
    &&& forall|k: int| 0 <= k < w.base_at(fnum, bidx).zones@.len()
        ==> w2.base_at(fnum, bidx).zones@[k] == w.base_at(fnum, bidx).zones@[k]
    &&& zone_node_for(w2.base_at(fnum, bidx).zones@.last(), data)
}

/// A non-owning handle to a zone node: the file, the base it lives under,
/// and its 1-based sibling index, validated at construction.
#[derive(Debug)]
pub struct Zone<M: OpenMode> {
    file_number: i32,
    base_index: i32,
    zone_index: i32,
    _mode: PhantomData<M>,
}

impl<M: OpenMode> Zone<M> {
    /// The handle number of the file this zone lives in.
    pub closed spec fn file_id(&self) -> i32 {
        self.file_number
    }

    /// The 1-based index of the base this zone lives under.
    pub closed spec fn base_sibling_index(&self) -> i32 {
        self.base_index
    }

    /// The 1-based sibling index of this zone.
    pub closed spec fn sibling_index(&self) -> i32 {
        self.zone_index
    }

    /// True when the handle still points at an existing zone of an open
    /// file.
    pub open spec fn valid(&self, w: LibraryState) -> bool {
        w.zone_ok(self.file_id(), self.base_sibling_index(), self.sibling_index())
    }

    /// The zone node this handle points at.
    pub open spec fn node_in(&self, w: LibraryState) -> ZoneNode {
        w.zone_at(self.file_id(), self.base_sibling_index(), self.sibling_index())
    }

    /// The resolved location of this zone node.
    pub open spec fn container(&self, w: LibraryState) -> crate::store::ContainerLoc {
        crate::store::ContainerLoc {
            store: w.slot_at(self.file_id()).store,
            base: (self.base_sibling_index() - 1) as usize,
            zone: Some((self.sibling_index() - 1) as usize),
        }
    }

    /// Constructs a handle to the zone at `zone_index` under the base,
    /// eagerly validated: the index must lie in `[1, n_zones]`, else the
    /// construction fails with an out-of-bounds error.
    pub fn new(parent: &Base<M>, w: &LibraryState, zone_index: i32) -> (r: CgnsResult<Zone<M>>)
        requires
            w.wf(),
            parent.valid(*w),
        ensures
            r is Ok <==> w.zone_ok(parent.file_id(), parent.sibling_index(), zone_index),
            r matches Ok(z) ==> z.file_id() == parent.file_id()
                && z.base_sibling_index() == parent.sibling_index()
                && z.sibling_index() == zone_index,
            r matches Err(e) ==> e.kind == CgnsErrorKind::OutOfBounds,
    {
        let n = parent.n_zones(w)?;
        check_sibling_index(n, zone_index)?;
        Ok(
            Zone {
                file_number: parent.file_number(),
                base_index: parent.index(),
                zone_index,
                _mode: PhantomData,
            },
        )
    }

    pub(crate) fn new_unchecked(file_number: i32, base_index: i32, zone_index: i32) -> (z: Zone<M>)
        ensures
            z.file_id() == file_number,
            z.base_sibling_index() == base_index,
            z.sibling_index() == zone_index,
    {
        Zone { file_number, base_index, zone_index, _mode: PhantomData }
    }

    /// The 1-based sibling index of this zone.
    pub fn index(&self) -> (r: i32)
        ensures
            r == self.sibling_index(),
    {
        self.zone_index
    }

    /// The handle number of the file this zone lives in.
    pub fn file_number(&self) -> (r: i32)
        ensures
            r == self.file_id(),
    {
        self.file_number
    }

    /// The 1-based index of the base this zone lives under.
    pub fn base_index(&self) -> (r: i32)
        ensures
            r == self.base_sibling_index(),
    {
        self.base_index
    }

    /// The path of the zone node: its base's path extended by one zone
    /// step.
    pub fn path(&self) -> (p: CgnsPath)
        ensures
            p.file_number == self.file_id(),
            p.base_index == self.base_sibling_index(),
            p.nodes@ == seq![(CgnsNodeLabel::Zone, self.sibling_index())],
    {
        let mut nodes: Vec<(CgnsNodeLabel, i32)> = Vec::new();
        nodes.push((CgnsNodeLabel::Zone, self.zone_index));
        proof {
            assert(nodes@ =~= seq![(CgnsNodeLabel::Zone, self.sibling_index())]);
        }
        CgnsPath { file_number: self.file_number, base_index: self.base_index, nodes }
    }

    /// Reads the zone's name and size: the stored zone-type code selects
    /// how the nine-slot size buffer is decoded, and a code outside the
    /// known set is an invalid library result, never a silent default.
    pub fn read(&self, w: &LibraryState) -> (r: CgnsResult<ZoneData>) where M: OpenModeRead
        requires
            w.wf(),
            self.valid(*w),
        ensures
            zone_read_value(self.node_in(*w)) matches Some(d) ==> r == Ok::<
                ZoneData,
                CgnsError,
            >(d),
            zone_read_value(self.node_in(*w)) is None ==> (r matches Err(e) && e.kind
                == CgnsErrorKind::InvalidLibraryResult),
    {
        let fi = self.file_number as usize - 1;
        let slot = w.slots[fi];
        let store = &w.stores[slot.store];
        let base = &store.bases[self.base_index as usize - 1];
        let node = &base.zones[self.zone_index as usize - 1];
        match unpack_size(node.zone_type, &node.size) {
            Some(size) => Ok(ZoneData { name: node.name.clone(), size }),
            None => Err(CgnsError::invalid_lib_result()),
        }
    }

    /// Creates a new zone node under the base and returns its newly
    /// assigned 1-based index. A name with an embedded nul cannot be
    /// handed to the external library and is a conversion error.
    pub fn write(w: &mut LibraryState, parent: &Base<M>, data: &ZoneData) -> (r: CgnsResult<i32>) where M: OpenModeWrite
        requires
            old(w).wf(),
            parent.valid(*old(w)),
            parent.node_in(*old(w)).zones@.len() < i32::MAX,
        ensures
            final(w).wf(),
            has_nul(data.name@) ==> (r matches Err(e) && e.kind == CgnsErrorKind::ConversionError)
                && *final(w) == *old(w),
            !has_nul(data.name@) ==> r == Ok::<i32, CgnsError>(
                (parent.node_in(*old(w)).zones@.len() + 1) as i32,
            ) && zone_appended(
                *old(w),
                *final(w),
                parent.file_id(),
                parent.sibling_index(),
                *data,
            ),
    {
        if str_has_nul(data.name.as_str()) {
            return Err(CgnsError::conversion_error());
        }
        let (size, zone_type) = pack_size(&data.size);
        let node = ZoneNode {
            name: data.name.clone(),
            zone_type,
            size,
            descriptors: Vec::new(),
            ordinal: None,
        };
        let fi = parent.file_number() as usize - 1;
        let slot = w.slots[fi];
        let bi = parent.index() as usize - 1;
        w.stores[slot.store].bases[bi].zones.push(node);
        Ok(w.stores[slot.store].bases[bi].zones.len() as i32)
    }

    /// The zone's index dimension: a structured zone indexes per cell
    /// dimension of its base, an unstructured zone by one flat index.
    pub fn index_dim(&self, w: &LibraryState) -> (r: CgnsResult<i32>) where M: OpenModeRead
        requires
            w.wf(),
            self.valid(*w),
        ensures
            self.node_in(*w).zone_type == ZONE_TYPE_STRUCTURED ==> r == Ok::<i32, CgnsError>(
                w.base_at(self.file_id(), self.base_sibling_index()).cell_dim,
            ),
            self.node_in(*w).zone_type == ZONE_TYPE_UNSTRUCTURED ==> r == Ok::<i32, CgnsError>(1),
            self.node_in(*w).zone_type != ZONE_TYPE_STRUCTURED && self.node_in(*w).zone_type
                != ZONE_TYPE_UNSTRUCTURED ==> (r matches Err(e) && e.kind
                == CgnsErrorKind::InvalidLibraryResult),
    {
        let fi = self.file_number as usize - 1;
        let slot = w.slots[fi];
        let store = &w.stores[slot.store];
        let base = &store.bases[self.base_index as usize - 1];
        let node = &base.zones[self.zone_index as usize - 1];
        if node.zone_type == ZONE_TYPE_STRUCTURED {
            Ok(base.cell_dim)
        } else if node.zone_type == ZONE_TYPE_UNSTRUCTURED {
            Ok(1)
        } else {
            Err(CgnsError::invalid_lib_result())
        }
    }
}

/// Writing a zone and reading it back at the returned index yields the
/// value that was written.
pub proof fn lemma_zone_write_read_round_trip(w: LibraryState, w2: LibraryState, fnum: i32, bidx: i32, data: ZoneData, idx: i32)
    requires
        w.wf(),
        w.base_ok(fnum, bidx),
        zone_appended(w, w2, fnum, bidx, data),
        idx == w.base_at(fnum, bidx).zones@.len() + 1,
    ensures
        w2.zone_ok(fnum, bidx, idx),
        zone_read_value(w2.zone_at(fnum, bidx, idx)) == Some(data),
{
    lemma_size_pack_round_trip(data.size);
}

/// A lazy walk over the zones of a base, in increasing index order. The
/// count is fixed when the walk starts.
#[derive(Debug)]
pub struct Zones<M: OpenMode> {
    file_number: i32,
    base_index: i32,
    iter: NodeIter,
    _mode: PhantomData<M>,
}

impl<M: OpenMode> Zones<M> {
    /// The handle number of the file being walked.
    pub closed spec fn file_id(&self) -> i32 {
        self.file_number
    }

    /// The 1-based index of the base being walked.
    pub closed spec fn base_sibling_index(&self) -> i32 {
        self.base_index
    }

    /// How many siblings the walk has yielded so far.
    pub closed spec fn current(&self) -> i32 {
        self.iter.current
    }

    /// The child count fixed when the walk started.
    pub closed spec fn count(&self) -> i32 {
        self.iter.n_items
    }

    pub(crate) fn make(file_number: i32, base_index: i32, n_items: i32) -> (r: Zones<M>)
        ensures
            r.file_id() == file_number,
            r.base_sibling_index() == base_index,
            r.current() == 0,
            r.count() == n_items,
    {
        Zones { file_number, base_index, iter: NodeIter::new(n_items), _mode: PhantomData }
    }

    /// Yields a handle to the next zone, or nothing once the count fixed
    /// at the start of the walk is exhausted.
    pub fn next(&mut self) -> (r: Option<Zone<M>>)
        ensures
            final(self).file_id() == old(self).file_id(),
            final(self).base_sibling_index() == old(self).base_sibling_index(),
            final(self).count() == old(self).count(),
            old(self).current() < old(self).count() ==> (r matches Some(z)
                && z.file_id() == old(self).file_id()
                && z.base_sibling_index() == old(self).base_sibling_index()
                && z.sibling_index() == old(self).current() + 1
                && final(self).current() == old(self).current() + 1),
            old(self).current() >= old(self).count() ==> r is None && *final(self) == *old(
                self,
            ),
    {
        match self.iter.next() {
            Some(index) => Some(Zone::new_unchecked(self.file_number, self.base_index, index)),
            None => None,
        }
    }
}

impl<M: OpenMode> Base<M> {
    /// Reads the number of zones under this base.
    pub fn n_zones(&self, w: &LibraryState) -> (r: CgnsResult<i32>)
        requires
            w.wf(),
            self.valid(*w),
        ensures
            r == Ok::<i32, CgnsError>(self.node_in(*w).zones@.len() as i32),
    {
        let fi = self.file_number() as usize - 1;
        let slot = w.slots[fi];
        Ok(w.stores[slot.store].bases[self.index() as usize - 1].zones.len() as i32)
    }

    /// A validated handle to the zone at `zone_index`.
    pub fn get_zone(&self, w: &LibraryState, zone_index: i32) -> (r: CgnsResult<Zone<M>>)
        requires
            w.wf(),
            self.valid(*w),
        ensures
            r is Ok <==> w.zone_ok(self.file_id(), self.sibling_index(), zone_index),
            r matches Ok(z) ==> z.file_id() == self.file_id()
                && z.base_sibling_index() == self.sibling_index()
                && z.sibling_index() == zone_index,
            r matches Err(e) ==> e.kind == CgnsErrorKind::OutOfBounds,
    {
        Zone::new(self, w, zone_index)
    }

    /// Starts a walk over this base's zones: it yields exactly the zones
    /// counted when the walk starts, in increasing index order.
    pub fn zones(&self, w: &LibraryState) -> (r: CgnsResult<Zones<M>>)
        requires
            w.wf(),
            self.valid(*w),
        ensures
            r matches Ok(it) && it.file_id() == self.file_id()
                && it.base_sibling_index() == self.sibling_index() && it.current() == 0
                && it.count() == self.node_in(*w).zones@.len() as i32,
    {
        let n = self.n_zones(w)?;
        Ok(Zones::make(self.file_number(), self.index(), n))
    }
}

} // verus!
