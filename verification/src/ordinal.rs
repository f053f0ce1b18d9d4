use vstd::prelude::*;
use core::marker::PhantomData;
use crate::base::Base;
use crate::cursor::cursor_at;
use crate::cursor::goto_depth;
use crate::cursor::goto_path;
use crate::cursor::path_label_strs;
use crate::errors::CgnsError;
use crate::errors::CgnsErrorKind;
use crate::errors::CgnsResult;
use crate::open_modes::OpenMode;
use crate::open_modes::OpenModeRead;
use crate::open_modes::OpenModeWrite;
use crate::store::ContainerLoc;
use crate::store::LibraryState;
use crate::store::base_of;
use crate::store::descriptors_of;
use crate::store::ordinal_of;
use crate::store::stores_shape_unchanged;
use crate::types::CgnsNodeLabel;
use crate::types::CgnsPath;
use crate::zone::Zone;

verus! {

/// The value of an ordinal node: a single user-defined integer.
#[derive(Clone, Copy, Debug, PartialEq, Eq, Structural)]
pub struct OrdinalData(pub i32);

/// What writing the ordinal `v` at the base or zone node `c` does to the
/// stores: that node's ordinal becomes `v`, created or overwritten, and
/// everything else keeps its value.
pub open spec fn ordinal_set(w: LibraryState, w2: LibraryState, c: ContainerLoc, v: i32) -> bool {
    &&& stores_shape_unchanged(w, w2, c)
    &&& ordinal_of(w2, c) == Some(v)
    &&& descriptors_of(w2, c) == descriptors_of(w, c)
    &&& (match c.zone {
        None => {
            &&& base_of(w2, c).name == base_of(w, c).name
            &&& base_of(w2, c).cell_dim == base_of(w, c).cell_dim
            &&& base_of(w2, c).phys_dim == base_of(w, c).phys_dim
            &&& base_of(w2, c).zones == base_of(w, c).zones
            &&& base_of(w2, c).simulation_type == base_of(w, c).simulation_type
        },
        Some(z) => {
            &&& base_of(w2, c).zones@[z as int].name == base_of(w, c).zones@[z as int].name
            &&& base_of(w2, c).zones@[z as int].zone_type == base_of(w, c).zones@[z as int].zone_type
            &&& base_of(w2, c).zones@[z as int].size == base_of(w, c).zones@[z as int].size
        },
    })
}

/// A non-owning handle to the ordinal child of a base or zone node. It is
/// a singleton child, addressed without an index, so constructing it needs
/// no bounds check.
#[derive(Debug)]
pub struct Ordinal<M: OpenMode> {
    file_number: i32,
    base_index: i32,
    zone_index: Option<i32>,
    _mode: PhantomData<M>,
}

impl<M: OpenMode> Ordinal<M> {
    /// The handle number of the file this ordinal lives in.
    pub closed spec fn file_id(&self) -> i32 {
        self.file_number
    }

    /// The 1-based index of the base this ordinal lives under.
    pub closed spec fn base_sibling_index(&self) -> i32 {
        self.base_index
    }

    /// The 1-based index of the zone this ordinal lives under, when its
    /// parent is a zone rather than the base itself.
    pub closed spec fn zone_sibling_index(&self) -> Option<i32> {
        self.zone_index
    }

    /// The location of the node this ordinal hangs off.
    pub open spec fn parent_container(&self, w: LibraryState) -> ContainerLoc {
        ContainerLoc {
            store: w.slot_at(self.file_id()).store,
            base: (self.base_sibling_index() - 1) as usize,
            zone: match self.zone_sibling_index() {
                Some(z) => Some((z - 1) as usize),
                None => None,
            },
        }
    }

    /// True when the handle points at an ordinal that was written: its
    /// parent node exists and carries an ordinal.
    pub open spec fn present_in(&self, w: LibraryState) -> bool {
        &&& (match self.zone_sibling_index() {
            None => w.base_ok(self.file_id(), self.base_sibling_index()),
            Some(z) => w.zone_ok(self.file_id(), self.base_sibling_index(), z),
        })
        &&& ordinal_of(w, self.parent_container(w)) is Some
    }

    pub(crate) fn make(file_number: i32, base_index: i32, zone_index: Option<i32>) -> (o: Ordinal<M>)
        ensures
            o.file_id() == file_number,
            o.base_sibling_index() == base_index,
            o.zone_sibling_index() == zone_index,
    {
        Ordinal { file_number, base_index, zone_index, _mode: PhantomData }
    }

    /// The path of the ordinal node: its parent's path extended by one
    /// ordinal step, with the singleton index 0.
    pub fn path(&self) -> (p: CgnsPath)
        ensures
            p.file_number == self.file_id(),
            p.base_index == self.base_sibling_index(),
            self.zone_sibling_index() is None ==> p.nodes@ == seq![(CgnsNodeLabel::Ordinal, 0i32)],
            self.zone_sibling_index() matches Some(z) ==> p.nodes@ == seq![
                (CgnsNodeLabel::Zone, z),
                (CgnsNodeLabel::Ordinal, 0i32),
            ],
    {
        let mut nodes: Vec<(CgnsNodeLabel, i32)> = Vec::new();
        match self.zone_index {
            Some(z) => {
                nodes.push((CgnsNodeLabel::Zone, z));
                nodes.push((CgnsNodeLabel::Ordinal, 0));
                proof {
                    assert(nodes@ =~= seq![
                        (CgnsNodeLabel::Zone, self.zone_sibling_index()->Some_0),
                        (CgnsNodeLabel::Ordinal, 0i32),
                    ]);
                }
            },
            None => {
                nodes.push((CgnsNodeLabel::Ordinal, 0));
                proof {
                    assert(nodes@ =~= seq![(CgnsNodeLabel::Ordinal, 0i32)]);
                }
            },
        }
        CgnsPath { file_number: self.file_number, base_index: self.base_index, nodes }
    }

    /// Reads the ordinal's value. The cursor is first moved to the
    /// ordinal's own path; the read fails with a library error exactly
    /// when no ordinal was written there.
    pub fn read(&self, w: &mut LibraryState) -> (r: CgnsResult<OrdinalData>) where M: OpenModeRead
        requires
            old(w).wf(),
        ensures
            final(w).wf(),
            final(w).stores == old(w).stores,
            final(w).slots == old(w).slots,
            final(w).lease_held == old(w).lease_held,
            r is Ok <==> self.present_in(*old(w)),
            r matches Ok(d) ==> Some(d.0) == ordinal_of(*old(w), self.parent_container(*old(w))),
            r matches Err(e) ==> e.kind == CgnsErrorKind::Library && final(w).cursor == old(
                w,
            ).cursor,
    {
        proof {
            crate::types::lemma_reserved_labels_nul_free();
            lemma_ordinal_path_resolution(
                *old(w),
                self.file_id(),
                self.base_sibling_index(),
                self.zone_sibling_index(),
            );
        }
        let path = self.path();
        proof {
            match self.zone_sibling_index() {
                Some(z) => {
                    assert(path_label_strs(path).take(goto_depth(path)) =~= seq![
                        ("Zone_t"@, z),
                        ("Ordinal_t"@, 0i32),
                    ]);
                },
                None => {
                    assert(path_label_strs(path).take(goto_depth(path)) =~= seq![
                        ("Ordinal_t"@, 0i32),
                    ]);
                },
            }
        }
        match goto_path(w, &path) {
            Err(e) => Err(e),
            Ok(_) => {
                let fi = self.file_number as usize - 1;
                let slot = w.slots[fi];
                let base = &w.stores[slot.store].bases[self.base_index as usize - 1];
                let ordinal = match self.zone_index {
                    Some(z) => base.zones[z as usize - 1].ordinal,
                    None => base.ordinal,
                };
                match ordinal {
                    Some(v) => Ok(OrdinalData(v)),
                    None => Err(CgnsError::node_not_found()),
                }
            },
        }
    }
}

/// A path that ends in an ordinal step resolves exactly when its parent
/// node exists and carries an ordinal.
proof fn lemma_ordinal_path_resolution(w: LibraryState, fnum: i32, bidx: i32, zone: Option<i32>)
    ensures
        ({
            let nodes: Seq<(Seq<char>, i32)> = match zone {
                Some(z) => seq![("Zone_t"@, z), ("Ordinal_t"@, 0i32)],
                None => seq![("Ordinal_t"@, 0i32)],
            };
            let present = (match zone {
                None => w.base_ok(fnum, bidx),
                Some(z) => w.zone_ok(fnum, bidx, z),
            }) && ordinal_of(
                w,
                ContainerLoc {
                    store: w.slot_at(fnum).store,
                    base: (bidx - 1) as usize,
                    zone: match zone {
                        Some(z) => Some((z - 1) as usize),
                        None => None,
                    },
                },
            ) is Some;
            crate::store::resolve_nodes_spec(w, fnum, bidx, nodes) is Some <==> present
        }),
{
    reveal_strlit("Zone_t");
    reveal_strlit("Descriptor_t");
    reveal_strlit("Ordinal_t");
    assert("Zone_t"@.len() == 6);
    assert("Descriptor_t"@.len() == 12);
    assert("Ordinal_t"@.len() == 9);
}

impl<M: OpenMode> Base<M> {
    /// The singleton ordinal child of this base; no bounds check applies.
    pub fn ordinal(&self) -> (o: Ordinal<M>)
        ensures
            o.file_id() == self.file_id(),
            o.base_sibling_index() == self.sibling_index(),
            o.zone_sibling_index() is None,
    {
        Ordinal::make(self.file_number(), self.index(), None)
    }

    /// Writes the ordinal of this base, creating or overwriting it, at the
    /// cursor positioned on the base's own path.
    pub fn set_ordinal(&self, w: &mut LibraryState, data: &OrdinalData) -> (r: CgnsResult<()>) where M: OpenModeWrite
        requires
            old(w).wf(),
            self.valid(*old(w)),
        ensures
            final(w).wf(),
            r is Ok,
            ordinal_set(*old(w), *final(w), self.container(*old(w)), data.0),
            cursor_at(*final(w), self.file_id(), self.sibling_index(), Seq::empty()),
    {
        let path = self.path();
        proof {
            assert(path_label_strs(path).take(goto_depth(path)) =~= Seq::<(Seq<char>, i32)>::empty());
        }
        match goto_path(w, &path) {
            Err(e) => Err(e),
            Ok(_) => {
                let fi = self.file_number() as usize - 1;
                let slot = w.slots[fi];
                let bi = self.index() as usize - 1;
                w.stores[slot.store].bases[bi].ordinal = Some(data.0);
                Ok(())
            },
        }
    }
}

impl<M: OpenMode> Zone<M> {
    /// The singleton ordinal child of this zone; no bounds check applies.
    pub fn ordinal(&self) -> (o: Ordinal<M>)
        ensures
            o.file_id() == self.file_id(),
            o.base_sibling_index() == self.base_sibling_index(),
            o.zone_sibling_index() == Some(self.sibling_index()),
    {
        Ordinal::make(self.file_number(), self.base_index(), Some(self.index()))
    }

    /// Writes the ordinal of this zone, creating or overwriting it, at the
    /// cursor positioned on the zone's own path.
    pub fn set_ordinal(&self, w: &mut LibraryState, data: &OrdinalData) -> (r: CgnsResult<()>) where M: OpenModeWrite
        requires
            old(w).wf(),
            self.valid(*old(w)),
        ensures
            final(w).wf(),
            r is Ok,
            ordinal_set(*old(w), *final(w), self.container(*old(w)), data.0),
            cursor_at(
                *final(w),
                self.file_id(),
                self.base_sibling_index(),
                seq![("Zone_t"@, self.sibling_index())],
            ),
    {
        proof {
            crate::types::lemma_reserved_labels_nul_free();
        }
        let path = self.path();
        proof {
            assert(path_label_strs(path).take(goto_depth(path)) =~= seq![
                ("Zone_t"@, self.sibling_index()),
            ]);
        }
        match goto_path(w, &path) {
            Err(e) => Err(e),
            Ok(_) => {
                let fi = self.file_number() as usize - 1;
                let slot = w.slots[fi];
                let bi = self.base_index() as usize - 1;
                let zi = self.index() as usize - 1;
                w.stores[slot.store].bases[bi].zones[zi].ordinal = Some(data.0);
                Ok(())
            },
        }
    }
}

} // verus!
