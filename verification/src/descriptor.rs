use vstd::prelude::*;
use core::marker::PhantomData;
use crate::base::Base;
use crate::cursor::cursor_at;
use crate::cursor::goto_depth;
use crate::cursor::goto_path;
use crate::cursor::path_label_strs;
use crate::errors::CgnsError;
use crate::errors::CgnsErrorKind;
use crate::errors::CgnsResult;
use crate::node::check_sibling_index;
use crate::open_modes::OpenMode;
use crate::open_modes::OpenModeRead;
use crate::open_modes::OpenModeWrite;
use crate::store::ContainerLoc;
use crate::store::LibraryState;
use crate::store::base_of;
use crate::store::descriptors_of;
use crate::store::stores_shape_unchanged;
use crate::types::CgnsNodeLabel;
use crate::types::CgnsPath;
use crate::types::has_nul;
use crate::types::str_has_nul;
use crate::zone::Zone;

verus! {

/// The value of a descriptive text node: a name and a text payload.
#[derive(Debug)]
pub struct DescriptorData {
    pub name: String,
    pub value: String,
}

impl PartialEq for DescriptorData {
    fn eq(&self, other: &Self) -> (r: bool) {
        self.name == other.name && self.value == other.value
    }
}

impl vstd::std_specs::cmp::PartialEqSpecImpl for DescriptorData {
    open spec fn obeys_eq_spec() -> bool {
        true
    }

    open spec fn eq_spec(&self, other: &Self) -> bool {
        self.name@ == other.name@ && self.value@ == other.value@
    }
}

impl Clone for DescriptorData {
    fn clone(&self) -> (r: Self)
        ensures
            r == *self,
    {
        DescriptorData { name: self.name.clone(), value: self.value.clone() }
    }
}

/// What appending a descriptor at the base or zone node `c` does to the
/// stores: that node's descriptor list grows by `data` at the end, and
/// everything else keeps its value.
pub open spec fn descriptor_appended(w: LibraryState, w2: LibraryState, c: ContainerLoc, data: DescriptorData) -> bool {
    &&& stores_shape_unchanged(w, w2, c)
    &&& descriptors_of(w2, c) == descriptors_of(w, c).push(data)
    &&& crate::store::ordinal_of(w2, c) == crate::store::ordinal_of(w, c)
    &&& (match c.zone {
        None => {
            &&& base_of(w2, c).name == base_of(w, c).name
            &&& base_of(w2, c).cell_dim == base_of(w, c).cell_dim
            &&& base_of(w2, c).phys_dim == base_of(w, c).phys_dim
            &&& base_of(w2, c).zones == base_of(w, c).zones
            &&& base_of(w2, c).simulation_type == base_of(w, c).simulation_type
        },
        Some(z) => {
            &&& base_of(w2, c).zones@[z as int].name == base_of(w, c).zones@[z as int].name
            &&& base_of(w2, c).zones@[z as int].zone_type == base_of(w, c).zones@[z as int].zone_type
            &&& base_of(w2, c).zones@[z as int].size == base_of(w, c).zones@[z as int].size
        },
    })
}

/// Appending a descriptor and reading the list back at the returned index
/// yields the value that was written.
pub proof fn lemma_descriptor_write_read_round_trip(w: LibraryState, w2: LibraryState, c: ContainerLoc, data: DescriptorData, idx: int)
    requires
        descriptor_appended(w, w2, c, data),
        idx == descriptors_of(w, c).len() + 1,
    ensures
        1 <= idx <= descriptors_of(w2, c).len(),
        descriptors_of(w2, c)[idx - 1] == data,
{
}

/// A non-owning handle to a descriptor node: the file, the base, the zone
/// it lives under when its parent is a zone, and its 1-based sibling
/// index, validated at construction.
#[derive(Debug)]
pub struct Descriptor<M: OpenMode> {
    file_number: i32,
    base_index: i32,
    zone_index: Option<i32>,
    descriptor_index: i32,
    _mode: PhantomData<M>,
}

impl<M: OpenMode> Descriptor<M> {
    /// The handle number of the file this descriptor lives in.
    pub closed spec fn file_id(&self) -> i32 {
        self.file_number
    }

    /// The 1-based index of the base this descriptor lives under.
    pub closed spec fn base_sibling_index(&self) -> i32 {
        self.base_index
    }

    /// The 1-based index of the zone this descriptor lives under, when its
    /// parent is a zone rather than the base itself.
    pub closed spec fn zone_sibling_index(&self) -> Option<i32> {
        self.zone_index
    }

    /// The 1-based sibling index of this descriptor.
    pub closed spec fn sibling_index(&self) -> i32 {
        self.descriptor_index
    }

    /// The location of the node this descriptor hangs off.
    pub open spec fn parent_container(&self, w: LibraryState) -> ContainerLoc {
        ContainerLoc {
            store: w.slot_at(self.file_id()).store,
            base: (self.base_sibling_index() - 1) as usize,
            zone: match self.zone_sibling_index() {
                Some(z) => Some((z - 1) as usize),
                None => None,
            },
        }
    }

    /// True when the handle still points at an existing descriptor of an
    /// open file: its parent node exists and its index is in range.
    pub open spec fn present_in(&self, w: LibraryState) -> bool {
        &&& (match self.zone_sibling_index() {
            None => w.base_ok(self.file_id(), self.base_sibling_index()),
            Some(z) => w.zone_ok(self.file_id(), self.base_sibling_index(), z),
        })
        &&& 1 <= self.sibling_index() <= descriptors_of(w, self.parent_container(w)).len()
    }

    /// The descriptor value this handle points at.
    pub open spec fn value_in(&self, w: LibraryState) -> DescriptorData {
        descriptors_of(w, self.parent_container(w))[self.sibling_index() - 1]
    }

    pub(crate) fn make(file_number: i32, base_index: i32, zone_index: Option<i32>, descriptor_index: i32) -> (d: Descriptor<M>)
        ensures
            d.file_id() == file_number,
            d.base_sibling_index() == base_index,
            d.zone_sibling_index() == zone_index,
            d.sibling_index() == descriptor_index,
    {
        Descriptor { file_number, base_index, zone_index, descriptor_index, _mode: PhantomData }
    }

    /// The 1-based sibling index of this descriptor.
    pub fn index(&self) -> (r: i32)
        ensures
            r == self.sibling_index(),
    {
        self.descriptor_index
    }

    /// The path of the descriptor node: its parent's path extended by one
    /// descriptor step.
    pub fn path(&self) -> (p: CgnsPath)
        ensures
            p.file_number == self.file_id(),
            p.base_index == self.base_sibling_index(),
            self.zone_sibling_index() is None ==> p.nodes@ == seq![
                (CgnsNodeLabel::Descriptor, self.sibling_index()),
            ],
            self.zone_sibling_index() matches Some(z) ==> p.nodes@ == seq![
                (CgnsNodeLabel::Zone, z),
                (CgnsNodeLabel::Descriptor, self.sibling_index()),
            ],
    {
        let mut nodes: Vec<(CgnsNodeLabel, i32)> = Vec::new();
        match self.zone_index {
            Some(z) => {
                nodes.push((CgnsNodeLabel::Zone, z));
                nodes.push((CgnsNodeLabel::Descriptor, self.descriptor_index));
                proof {
                    assert(nodes@ =~= seq![
                        (CgnsNodeLabel::Zone, self.zone_sibling_index()->Some_0),
                        (CgnsNodeLabel::Descriptor, self.sibling_index()),
                    ]);
                }
            },
            None => {
                nodes.push((CgnsNodeLabel::Descriptor, self.descriptor_index));
                proof {
                    assert(nodes@ =~= seq![(CgnsNodeLabel::Descriptor, self.sibling_index())]);
                }
            },
        }
        CgnsPath { file_number: self.file_number, base_index: self.base_index, nodes }
    }

    /// Reads the descriptor's name and value. The cursor is first moved to
    /// the descriptor's own path; the read fails with a library error
    /// exactly when that path resolves to no node.
    pub fn read(&self, w: &mut LibraryState) -> (r: CgnsResult<DescriptorData>) where M: OpenModeRead
        requires
            old(w).wf(),
        ensures
            final(w).wf(),
            final(w).stores == old(w).stores,
            final(w).slots == old(w).slots,
            final(w).lease_held == old(w).lease_held,
            r is Ok <==> self.present_in(*old(w)),
            r matches Ok(d) ==> d == self.value_in(*old(w)),
            r matches Err(e) ==> e.kind == CgnsErrorKind::Library && final(w).cursor == old(
                w,
            ).cursor,
    {
        proof {
            crate::types::lemma_reserved_labels_nul_free();
            lemma_descriptor_path_resolution(
                *old(w),
                self.file_id(),
                self.base_sibling_index(),
                self.zone_sibling_index(),
                self.sibling_index(),
            );
        }
        let path = self.path();
        proof {
            match self.zone_sibling_index() {
                Some(z) => {
                    assert(path_label_strs(path).take(goto_depth(path)) =~= seq![
                        ("Zone_t"@, z),
                        ("Descriptor_t"@, self.sibling_index()),
                    ]);
                },
                None => {
                    assert(path_label_strs(path).take(goto_depth(path)) =~= seq![
                        ("Descriptor_t"@, self.sibling_index()),
                    ]);
                },
            }
        }
        match goto_path(w, &path) {
            Err(e) => Err(e),
            Ok(_) => {
                let fi = self.file_number as usize - 1;
                let slot = w.slots[fi];
                let base = &w.stores[slot.store].bases[self.base_index as usize - 1];
                let node = match self.zone_index {
                    Some(z) => &base.zones[z as usize - 1].descriptors[self.descriptor_index
                        as usize - 1],
                    None => &base.descriptors[self.descriptor_index as usize - 1],
                };
                Ok(node.clone())
            },
        }
    }
}

/// A path that ends in a descriptor step resolves exactly when the
/// descriptor is present: the step's label is not a zone label, so the
/// resolution can only take the descriptor branch.
proof fn lemma_descriptor_path_resolution(w: LibraryState, fnum: i32, bidx: i32, zone: Option<i32>, idx: i32)
    ensures
        ({
            let nodes: Seq<(Seq<char>, i32)> = match zone {
                Some(z) => seq![("Zone_t"@, z), ("Descriptor_t"@, idx)],
                None => seq![("Descriptor_t"@, idx)],
            };
            let present = match zone {
                None => w.base_ok(fnum, bidx),
                Some(z) => w.zone_ok(fnum, bidx, z),
            } && 1 <= idx <= descriptors_of(
                w,
                ContainerLoc {
                    store: w.slot_at(fnum).store,
                    base: (bidx - 1) as usize,
                    zone: match zone {
                        Some(z) => Some((z - 1) as usize),
                        None => None,
                    },
                },
            ).len();
            crate::store::resolve_nodes_spec(w, fnum, bidx, nodes) is Some <==> present
        }),
{
    reveal_strlit("Zone_t");
    reveal_strlit("Descriptor_t");
    assert("Zone_t"@.len() == 6);
    assert("Descriptor_t"@.len() == 12);
}

impl<M: OpenMode> Base<M> {
    /// Reads the number of descriptors under this base. The cursor is
    /// first moved to the base's own path, as the external count query
    /// works at the cursor.
    pub fn n_descriptors(&self, w: &mut LibraryState) -> (r: CgnsResult<i32>)
        requires
            old(w).wf(),
            self.valid(*old(w)),
        ensures
            final(w).wf(),
            final(w).stores == old(w).stores,
            final(w).slots == old(w).slots,
            final(w).lease_held == old(w).lease_held,
            r == Ok::<i32, CgnsError>(self.node_in(*old(w)).descriptors@.len() as i32),
            cursor_at(*final(w), self.file_id(), self.sibling_index(), Seq::empty()),
    {
        let path = self.path();
        proof {
            assert(path_label_strs(path).take(goto_depth(path)) =~= Seq::<(Seq<char>, i32)>::empty());
        }
        match goto_path(w, &path) {
            Err(e) => Err(e),
            Ok(_) => {
                let fi = self.file_number() as usize - 1;
                let slot = w.slots[fi];
                Ok(
                    w.stores[slot.store].bases[self.index() as usize - 1].descriptors.len()
                        as i32,
                )
            },
        }
    }

    /// A validated handle to the descriptor at `descriptor_index` under
    /// this base: the index must lie in `[1, n_descriptors]`, else the
    /// construction fails with an out-of-bounds error.
    pub fn get_descriptor(&self, w: &mut LibraryState, descriptor_index: i32) -> (r: CgnsResult<Descriptor<M>>)
        requires
            old(w).wf(),
            self.valid(*old(w)),
        ensures
            final(w).wf(),
            final(w).stores == old(w).stores,
            final(w).slots == old(w).slots,
            final(w).lease_held == old(w).lease_held,
            r is Ok <==> 1 <= descriptor_index <= self.node_in(*old(w)).descriptors@.len(),
            r matches Ok(d) ==> d.file_id() == self.file_id()
                && d.base_sibling_index() == self.sibling_index()
                && d.zone_sibling_index() is None && d.sibling_index() == descriptor_index,
            r matches Err(e) ==> e.kind == CgnsErrorKind::OutOfBounds,
    {
        let n = self.n_descriptors(w)?;
        check_sibling_index(n, descriptor_index)?;
        Ok(Descriptor::make(self.file_number(), self.index(), None, descriptor_index))
    }

    /// Writes a new descriptor under this base, at the cursor positioned
    /// on the base's own path, and returns its newly assigned 1-based
    /// index. A name or value with an embedded nul is a conversion error.
    pub fn set_descriptor(&self, w: &mut LibraryState, data: &DescriptorData) -> (r: CgnsResult<i32>) where M: OpenModeWrite
        requires
            old(w).wf(),
            self.valid(*old(w)),
            self.node_in(*old(w)).descriptors@.len() < i32::MAX,
        ensures
            final(w).wf(),
            has_nul(data.name@) || has_nul(data.value@) ==> (r matches Err(e) && e.kind
                == CgnsErrorKind::ConversionError) && *final(w) == *old(w),
            !has_nul(data.name@) && !has_nul(data.value@) ==> {
                &&& r == Ok::<i32, CgnsError>(
                    (self.node_in(*old(w)).descriptors@.len() + 1) as i32,
                )
                &&& descriptor_appended(*old(w), *final(w), self.container(*old(w)), *data)
                &&& cursor_at(*final(w), self.file_id(), self.sibling_index(), Seq::empty())
            },
    {
        if str_has_nul(data.name.as_str()) || str_has_nul(data.value.as_str()) {
            return Err(CgnsError::conversion_error());
        }
        let path = self.path();
        proof {
            assert(path_label_strs(path).take(goto_depth(path)) =~= Seq::<(Seq<char>, i32)>::empty());
        }
        match goto_path(w, &path) {
            Err(e) => Err(e),
            Ok(_) => {
                let fi = self.file_number() as usize - 1;
                let slot = w.slots[fi];
                let bi = self.index() as usize - 1;
                w.stores[slot.store].bases[bi].descriptors.push(data.clone());
                Ok(w.stores[slot.store].bases[bi].descriptors.len() as i32)
            },
        }
    }
}

impl<M: OpenMode> Zone<M> {
    /// Reads the number of descriptors under this zone. The cursor is
    /// first moved to the zone's own path, as the external count query
    /// works at the cursor.
    pub fn n_descriptors(&self, w: &mut LibraryState) -> (r: CgnsResult<i32>)
        requires
            old(w).wf(),
            self.valid(*old(w)),
        ensures
            final(w).wf(),
            final(w).stores == old(w).stores,
            final(w).slots == old(w).slots,
            final(w).lease_held == old(w).lease_held,
            r == Ok::<i32, CgnsError>(self.node_in(*old(w)).descriptors@.len() as i32),
            cursor_at(
                *final(w),
                self.file_id(),
                self.base_sibling_index(),
                seq![("Zone_t"@, self.sibling_index())],
            ),
    {
        proof {
            crate::types::lemma_reserved_labels_nul_free();
        }
        let path = self.path();
        proof {
            assert(path_label_strs(path).take(goto_depth(path)) =~= seq![
                ("Zone_t"@, self.sibling_index()),
            ]);
        }
        match goto_path(w, &path) {
            Err(e) => Err(e),
            Ok(_) => {
                let fi = self.file_number() as usize - 1;
                let slot = w.slots[fi];
                let bi = self.base_index() as usize - 1;
                Ok(
                    w.stores[slot.store].bases[bi].zones[self.index() as usize - 1]
                        .descriptors.len() as i32,
                )
            },
        }
    }

    /// A validated handle to the descriptor at `descriptor_index` under
    /// this zone: the index must lie in `[1, n_descriptors]`, else the
    /// construction fails with an out-of-bounds error.
    pub fn get_descriptor(&self, w: &mut LibraryState, descriptor_index: i32) -> (r: CgnsResult<Descriptor<M>>)
        requires
            old(w).wf(),
            self.valid(*old(w)),
        ensures
            final(w).wf(),
            final(w).stores == old(w).stores,
            final(w).slots == old(w).slots,
            final(w).lease_held == old(w).lease_held,
            r is Ok <==> 1 <= descriptor_index <= self.node_in(*old(w)).descriptors@.len(),
            r matches Ok(d) ==> d.file_id() == self.file_id()
                && d.base_sibling_index() == self.base_sibling_index()
                && d.zone_sibling_index() == Some(self.sibling_index())
                && d.sibling_index() == descriptor_index,
            r matches Err(e) ==> e.kind == CgnsErrorKind::OutOfBounds,
    {
        let n = self.n_descriptors(w)?;
        check_sibling_index(n, descriptor_index)?;
        Ok(
            Descriptor::make(
                self.file_number(),
                self.base_index(),
                Some(self.index()),
                descriptor_index,
            ),
        )
    }

    /// Writes a new descriptor under this zone, at the cursor positioned
    /// on the zone's own path, and returns its newly assigned 1-based
    /// index. A name or value with an embedded nul is a conversion error.
    pub fn set_descriptor(&self, w: &mut LibraryState, data: &DescriptorData) -> (r: CgnsResult<i32>) where M: OpenModeWrite
        requires
            old(w).wf(),
            self.valid(*old(w)),
            self.node_in(*old(w)).descriptors@.len() < i32::MAX,
        ensures
            final(w).wf(),
            has_nul(data.name@) || has_nul(data.value@) ==> (r matches Err(e) && e.kind
                == CgnsErrorKind::ConversionError) && *final(w) == *old(w),
            !has_nul(data.name@) && !has_nul(data.value@) ==> {
                &&& r == Ok::<i32, CgnsError>(
                    (self.node_in(*old(w)).descriptors@.len() + 1) as i32,
                )
                &&& descriptor_appended(*old(w), *final(w), self.container(*old(w)), *data)
                &&& cursor_at(
                    *final(w),
                    self.file_id(),
                    self.base_sibling_index(),
                    seq![("Zone_t"@, self.sibling_index())],
                )
            },
    {
        if str_has_nul(data.name.as_str()) || str_has_nul(data.value.as_str()) {
            return Err(CgnsError::conversion_error());
        }
        proof {
            crate::types::lemma_reserved_labels_nul_free();
        }
        let path = self.path();
        proof {
            assert(path_label_strs(path).take(goto_depth(path)) =~= seq![
                ("Zone_t"@, self.sibling_index()),
            ]);
        }
        match goto_path(w, &path) {
            Err(e) => Err(e),
            Ok(_) => {
                let fi = self.file_number() as usize - 1;
                let slot = w.slots[fi];
                let bi = self.base_index() as usize - 1;
                let zi = self.index() as usize - 1;
                w.stores[slot.store].bases[bi].zones[zi].descriptors.push(data.clone());
                Ok(w.stores[slot.store].bases[bi].zones[zi].descriptors.len() as i32)
            },
        }
    }
}

} // verus!
