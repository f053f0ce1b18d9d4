use vstd::prelude::*;
use core::marker::PhantomData;
use crate::base::Base;
use crate::cursor::cursor_at;
use crate::cursor::goto_depth;
use crate::cursor::goto_path;
use crate::cursor::path_label_strs;
use crate::errors::CgnsError;
use crate::errors::CgnsErrorKind;
use crate::errors::CgnsResult;
use crate::open_modes::OpenMode;
use crate::open_modes::OpenModeRead;
use crate::open_modes::OpenModeWrite;
use crate::store::ContainerLoc;
use crate::store::LibraryState;
use crate::store::base_of;
use crate::store::stores_shape_unchanged;
use crate::types::CgnsNodeLabel;
use crate::types::CgnsPath;

verus! {

/// The code of the null simulation-type category, as the external library
/// enumerates it.
pub const SIMULATION_TYPE_NULL: i32 = 0;

/// The code of the user-defined simulation-type category.
pub const SIMULATION_TYPE_USER_DEFINED: i32 = 1;

/// The code of the time-accurate simulation-type category.
pub const SIMULATION_TYPE_TIME_ACCURATE: i32 = 2;

/// The code of the non-time-accurate simulation-type category.
pub const SIMULATION_TYPE_NON_TIME_ACCURATE: i32 = 3;

/// The simulation-type category of a base.
#[derive(Clone, Copy, Debug, PartialEq, Eq, Structural)]
pub enum SimulationTypeData {
    Null,
    UserDefined,
    TimeAccurate,
    NonTimeAccurate,
}

/// The code a simulation-type category is stored under.
pub open spec fn simulation_type_code(d: SimulationTypeData) -> i32 {
    match d {
        SimulationTypeData::Null => SIMULATION_TYPE_NULL,
        SimulationTypeData::UserDefined => SIMULATION_TYPE_USER_DEFINED,
        SimulationTypeData::TimeAccurate => SIMULATION_TYPE_TIME_ACCURATE,
        SimulationTypeData::NonTimeAccurate => SIMULATION_TYPE_NON_TIME_ACCURATE,
    }
}

/// The category a stored code decodes to; a code outside the known set
/// decodes to nothing.
pub open spec fn simulation_type_from_code(code: i32) -> Option<SimulationTypeData> {
    if code == SIMULATION_TYPE_NULL {
        Some(SimulationTypeData::Null)
    } else if code == SIMULATION_TYPE_USER_DEFINED {
        Some(SimulationTypeData::UserDefined)
    } else if code == SIMULATION_TYPE_TIME_ACCURATE {
        Some(SimulationTypeData::TimeAccurate)
    } else if code == SIMULATION_TYPE_NON_TIME_ACCURATE {
        Some(SimulationTypeData::NonTimeAccurate)
    } else {
        None
    }
}

/// Decoding an encoded category gives the category back.
pub proof fn lemma_simulation_type_code_round_trip(d: SimulationTypeData)
    ensures
        simulation_type_from_code(simulation_type_code(d)) == Some(d),
{
}

/// What writing the simulation type `code` under base `c` does to the
/// stores: the base's simulation type becomes `code`, created or
/// overwritten, and everything else keeps its value.
pub open spec fn simulation_type_set(w: LibraryState, w2: LibraryState, c: ContainerLoc, code: i32) -> bool {
    &&& stores_shape_unchanged(w, w2, c)
    &&& base_of(w2, c).simulation_type == Some(code)
    &&& base_of(w2, c).name == base_of(w, c).name
    &&& base_of(w2, c).cell_dim == base_of(w, c).cell_dim
    &&& base_of(w2, c).phys_dim == base_of(w, c).phys_dim
    &&& base_of(w2, c).zones == base_of(w, c).zones
    &&& base_of(w2, c).descriptors == base_of(w, c).descriptors
    &&& base_of(w2, c).ordinal == base_of(w, c).ordinal
}

/// A non-owning handle to the simulation-type child of a base. It is a
/// singleton child, addressed without an index, so constructing it needs
/// no bounds check.
#[derive(Debug)]
pub struct SimulationType<M: OpenMode> {
    file_number: i32,
    base_index: i32,
    _mode: PhantomData<M>,
}

impl<M: OpenMode> SimulationType<M> {
    /// The handle number of the file this node lives in.
    pub closed spec fn file_id(&self) -> i32 {
        self.file_number
    }

    /// The 1-based index of the base this node lives under.
    pub closed spec fn base_sibling_index(&self) -> i32 {
        self.base_index
    }

    /// The location of the base this node hangs off.
    pub open spec fn parent_container(&self, w: LibraryState) -> ContainerLoc {
        ContainerLoc {
            store: w.slot_at(self.file_id()).store,
            base: (self.base_sibling_index() - 1) as usize,
            zone: None,
        }
    }

    /// True when the handle points at a simulation type that was written:
    /// its base exists and carries one.
    pub open spec fn present_in(&self, w: LibraryState) -> bool {
        &&& w.base_ok(self.file_id(), self.base_sibling_index())
        &&& w.base_at(self.file_id(), self.base_sibling_index()).simulation_type is Some
    }

    /// The stored code the handle points at.
    pub open spec fn code_in(&self, w: LibraryState) -> Option<i32> {
        w.base_at(self.file_id(), self.base_sibling_index()).simulation_type
    }

    /// The singleton simulation-type child of a base; no bounds check
    /// applies.
    pub fn new(parent: &Base<M>) -> (s: SimulationType<M>)
        ensures
            s.file_id() == parent.file_id(),
            s.base_sibling_index() == parent.sibling_index(),
    {
        SimulationType {
            file_number: parent.file_number(),
            base_index: parent.index(),
            _mode: PhantomData,
        }
    }

    /// The path of the simulation-type node: its base's path extended by
    /// one step, with the singleton index 0.
    pub fn path(&self) -> (p: CgnsPath)
        ensures
            p.file_number == self.file_id(),
            p.base_index == self.base_sibling_index(),
            p.nodes@ == seq![(CgnsNodeLabel::SimulationType, 0i32)],
    {
        let mut nodes: Vec<(CgnsNodeLabel, i32)> = Vec::new();
        nodes.push((CgnsNodeLabel::SimulationType, 0));
        proof {
            assert(nodes@ =~= seq![(CgnsNodeLabel::SimulationType, 0i32)]);
        }
        CgnsPath { file_number: self.file_number, base_index: self.base_index, nodes }
    }

    /// Reads the base's simulation-type category. The cursor is first
    /// moved to the node's own path; the read fails with a library error
    /// exactly when no simulation type was written, and a stored code
    /// outside the known set is an invalid library result, never a silent
    /// default.
    pub fn read(&self, w: &mut LibraryState) -> (r: CgnsResult<SimulationTypeData>) where M: OpenModeRead
        requires
            old(w).wf(),
        ensures
            final(w).wf(),
            final(w).stores == old(w).stores,
            final(w).slots == old(w).slots,
            final(w).lease_held == old(w).lease_held,
            !self.present_in(*old(w)) ==> (r matches Err(e) && e.kind == CgnsErrorKind::Library)
                && final(w).cursor == old(w).cursor,
            self.present_in(*old(w)) ==> match simulation_type_from_code(
                self.code_in(*old(w))->Some_0,
            ) {
                Option::Some(d) => r == Ok::<SimulationTypeData, CgnsError>(d),
                Option::None => (r matches Err(e) && e.kind
                    == CgnsErrorKind::InvalidLibraryResult),
            },
    {
        proof {
            crate::types::lemma_reserved_labels_nul_free();
            lemma_simulation_type_path_resolution(
                *old(w),
                self.file_id(),
                self.base_sibling_index(),
            );
        }
        let path = self.path();
        proof {
            assert(path_label_strs(path).take(goto_depth(path)) =~= seq![
                ("SimulationType_t"@, 0i32),
            ]);
        }
        match goto_path(w, &path) {
            Err(e) => Err(e),
            Ok(_) => {
                let fi = self.file_number as usize - 1;
                let slot = w.slots[fi];
                let base = &w.stores[slot.store].bases[self.base_index as usize - 1];
                match base.simulation_type {
                    None => Err(CgnsError::node_not_found()),
                    Some(code) => {
                        if code == SIMULATION_TYPE_NULL {
                            Ok(SimulationTypeData::Null)
                        } else if code == SIMULATION_TYPE_USER_DEFINED {
                            Ok(SimulationTypeData::UserDefined)
                        } else if code == SIMULATION_TYPE_TIME_ACCURATE {
                            Ok(SimulationTypeData::TimeAccurate)
                        } else if code == SIMULATION_TYPE_NON_TIME_ACCURATE {
                            Ok(SimulationTypeData::NonTimeAccurate)
                        } else {
                            Err(CgnsError::invalid_lib_result())
                        }
                    },
                }
            },
        }
    }

    /// Writes the base's simulation-type category, creating or overwriting
    /// it, at the cursor positioned on the base's own path; the sentinel 0
    /// is returned, as no new sibling index is created.
    pub fn write(w: &mut LibraryState, parent: &Base<M>, data: &SimulationTypeData) -> (r: CgnsResult<i32>) where M: OpenModeWrite
        requires
            old(w).wf(),
            parent.valid(*old(w)),
        ensures
            final(w).wf(),
            r == Ok::<i32, CgnsError>(0),
            simulation_type_set(
                *old(w),
                *final(w),
                parent.container(*old(w)),
                simulation_type_code(*data),
            ),
            cursor_at(*final(w), parent.file_id(), parent.sibling_index(), Seq::empty()),
    {
        let path = parent.path();
        proof {
            assert(path_label_strs(path).take(goto_depth(path)) =~= Seq::<(Seq<char>, i32)>::empty());
        }
        match goto_path(w, &path) {
            Err(e) => Err(e),
            Ok(_) => {
                let code: i32 = match data {
                    SimulationTypeData::Null => SIMULATION_TYPE_NULL,
                    SimulationTypeData::UserDefined => SIMULATION_TYPE_USER_DEFINED,
                    SimulationTypeData::TimeAccurate => SIMULATION_TYPE_TIME_ACCURATE,
                    SimulationTypeData::NonTimeAccurate => SIMULATION_TYPE_NON_TIME_ACCURATE,
                };
                let fi = parent.file_number() as usize - 1;
                let slot = w.slots[fi];
                let bi = parent.index() as usize - 1;
                w.stores[slot.store].bases[bi].simulation_type = Some(code);
                Ok(0)
            },
        }
    }
}

/// A path that ends in a simulation-type step resolves exactly when its
/// base exists and carries a simulation type.
proof fn lemma_simulation_type_path_resolution(w: LibraryState, fnum: i32, bidx: i32)
    ensures
        ({
            let nodes: Seq<(Seq<char>, i32)> = seq![("SimulationType_t"@, 0i32)];
            let present = w.base_ok(fnum, bidx) && w.base_at(fnum, bidx).simulation_type is Some;
            crate::store::resolve_nodes_spec(w, fnum, bidx, nodes) is Some <==> present
        }),
{
    reveal_strlit("Zone_t");
    reveal_strlit("Descriptor_t");
    reveal_strlit("Ordinal_t");
    reveal_strlit("SimulationType_t");
    assert("Zone_t"@.len() == 6);
    assert("Descriptor_t"@.len() == 12);
    assert("Ordinal_t"@.len() == 9);
    assert("SimulationType_t"@.len() == 16);
}

} // verus!
