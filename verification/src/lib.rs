//! A verified safety layer for navigating and mutating a hierarchical,
//! path-addressed data store of CFD meshes and solutions.
//!
//! The store is a tree of typed nodes (file, base, zone, descriptor,
//! ordinal, simulation type) addressed through a single global cursor.
//! This crate provides the navigation protocol on top of it: an explicit
//! path model, validated sibling indices, capability-tagged file handles,
//! a single-instance library lease, and the cursor contract that every
//! field operation depends on. The store itself is modeled as an explicit
//! value, so every operation's effect is stated and proved.

pub mod base;
pub mod cursor;
pub mod descriptor;
pub mod file;
pub mod errors;
pub mod node;
pub mod open_modes;
pub mod ordinal;
pub mod simulation_type;
pub mod store;
pub mod types;
pub mod zone;

pub use base::Base;
pub use base::BaseData;
pub use base::Bases;
pub use descriptor::Descriptor;
pub use descriptor::DescriptorData;
pub use errors::CgnsError;
pub use errors::CgnsErrorKind;
pub use errors::CgnsLibraryError;
pub use errors::CgnsResult;
pub use errors::to_cgns_result;
pub use errors::to_cgio_result;
pub use file::File;
pub use node::NodeIter;
pub use node::check_sibling_index;
pub use open_modes::ModifiableFile;
pub use open_modes::OpenMode;
pub use open_modes::OpenModeRead;
pub use open_modes::OpenModeWrite;
pub use open_modes::ReadableFile;
pub use open_modes::UnknownFile;
pub use open_modes::WriteableFile;
pub use ordinal::Ordinal;
pub use ordinal::OrdinalData;
pub use simulation_type::SimulationType;
pub use simulation_type::SimulationTypeData;
pub use store::LibraryState;
pub use types::CgnsNodeLabel;
pub use types::CgnsFileType;
pub use types::CgnsOpenMode;
pub use types::CgnsPath;
pub use types::CgnsPathNodes;
pub use zone::StructuredZoneSize;
pub use zone::UnstructuredZoneSize;
pub use zone::Zone;
pub use zone::ZoneData;
pub use zone::ZoneSize;
pub use zone::Zones;

use vstd::prelude::*;
use crate::cursor::cursor_set_for;
use crate::cursor::goto_ok;
use crate::cursor::goto_path;
use crate::cursor::current_path_from;
use crate::cursor::parse_cursor_nodes;
use crate::cursor::path_has_nul;

verus! {

/// The library state after the lease is taken; nothing else moves.
pub open spec fn after_take(w: LibraryState) -> LibraryState {
    LibraryState { lease_held: true, ..w }
}

/// The library state after the lease is given back; nothing else moves.
pub open spec fn after_release(w: LibraryState) -> LibraryState {
    LibraryState { lease_held: false, ..w }
}

/// Lease exclusivity: once the lease is taken it cannot be taken again,
/// and after it is released it can.
pub proof fn lemma_lease_exclusivity(w: LibraryState)
    requires
        !w.lease_held,
    ensures
        after_take(w).lease_held,
        after_release(after_take(w)) == (LibraryState { lease_held: false, ..w }),
        !after_release(after_take(w)).lease_held,
{
}

/// Access to the external library. Only one instance may exist at a time:
/// the library has genuinely global mutable state (the cursor and the
/// open-file table), and a second live handle would corrupt it.
pub struct Library {
    _lease: core::marker::PhantomData<()>,
}

impl Library {
    /// Acquires the library lease. The caller must know that no lease is
    /// outstanding: taking a second one is a programmer error, not a
    /// recoverable condition, so it is ruled out up front.
    pub fn take(w: &mut LibraryState) -> (r: Library)
        requires
            !old(w).lease_held,
        ensures
            *final(w) == after_take(*old(w)),
    {
        w.lease_held = true;
        Library { _lease: core::marker::PhantomData }
    }

    /// Acquires the library lease; same contract as `take`.
    pub fn new(w: &mut LibraryState) -> (r: Library)
        requires
            !old(w).lease_held,
        ensures
            *final(w) == after_take(*old(w)),
    {
        Self::take(w)
    }

    /// Tries to acquire the library lease: fails exactly when one is
    /// already outstanding, and changes nothing in that case.
    pub fn try_take(w: &mut LibraryState) -> (r: Option<Library>)
        ensures
            old(w).lease_held ==> r is None && *final(w) == *old(w),
            !old(w).lease_held ==> r is Some && *final(w) == after_take(*old(w)),
    {
        if w.lease_held {
            None
        } else {
            w.lease_held = true;
            Some(Library { _lease: core::marker::PhantomData })
        }
    }

    /// Gives the lease back, consuming it; a new lease may be taken
    /// afterwards.
    pub fn release(self, w: &mut LibraryState)
        requires
            old(w).lease_held,
        ensures
            *final(w) == after_release(*old(w)),
    {
        w.lease_held = false;
    }

    /// Opens the store named `filename` for reading only.
    pub fn open_read(&self, w: &mut LibraryState, filename: &str) -> (r: CgnsResult<File<ReadableFile>>)
        requires
            old(w).wf(),
            old(w).slots@.len() < i32::MAX,
        ensures
            final(w).wf(),
            final(w).cursor == old(w).cursor,
            final(w).lease_held == old(w).lease_held,
            r matches Ok(f) ==> f.id() == old(w).slots@.len() + 1 && final(w).slots@.len() == old(w).slots@.len() + 1 && final(w).file_open(f.id())
                && final(w).slot_at(f.id()).mode == CgnsOpenMode::Read
                && final(w).stores == old(w).stores
                && crate::file::find_store(old(w).stores@, filename@) == Some(
                final(w).slot_at(f.id()).store as int,
            ),
            r is Ok <==> !crate::types::has_nul(filename@) && crate::file::find_store(
                old(w).stores@,
                filename@,
            ) is Some,
            r is Err ==> *final(w) == *old(w),
    {
        proof {
            crate::file::lemma_find_store_bounds(old(w).stores@, filename@, 0);
        }
        match File::<ReadableFile>::open_raw(w, filename, CgnsOpenMode::Read) {
            Ok(file_number) => Ok(File::from_number(file_number)),
            Err(e) => Err(e),
        }
    }

    /// Opens the store named `filename` for writing only, creating it, or
    /// replacing its contents when one of that name already exists.
    pub fn open_write(&self, w: &mut LibraryState, filename: &str) -> (r: CgnsResult<File<WriteableFile>>)
        requires
            old(w).wf(),
            old(w).slots@.len() < i32::MAX,
        ensures
            final(w).wf(),
            final(w).cursor == old(w).cursor,
            final(w).lease_held == old(w).lease_held,
            r is Ok <==> !crate::types::has_nul(filename@),
            r matches Ok(f) ==> f.id() == old(w).slots@.len() + 1 && final(w).slots@.len() == old(w).slots@.len() + 1 && final(w).file_open(f.id())
                && final(w).slot_at(f.id()).mode == CgnsOpenMode::Write
                && final(w).store_at(f.id()).bases@.len() == 0
                && final(w).store_at(f.id()).name@ == filename@
                && crate::file::find_store(final(w).stores@, filename@) == Some(
                final(w).slot_at(f.id()).store as int,
            ),
            r is Err ==> *final(w) == *old(w),
    {
        proof {
            crate::file::lemma_find_store_bounds(old(w).stores@, filename@, 0);
        }
        let r = File::<WriteableFile>::open_raw(w, filename, CgnsOpenMode::Write);
        proof {
            if !crate::types::has_nul(filename@) {
                match crate::file::find_store(old(w).stores@, filename@) {
                    Option::Some(si) => {
                        crate::file::lemma_find_store_same_names(
                            old(w).stores@,
                            w.stores@,
                            filename@,
                            0,
                        );
                    },
                    Option::None => {
                        assert(w.stores@ =~= old(w).stores@.push(w.stores@.last()));
                        crate::file::lemma_find_store_appended(
                            old(w).stores@,
                            w.stores@.last(),
                            filename@,
                            0,
                        );
                    },
                }
            }
        }
        match r {
            Ok(file_number) => Ok(File::from_number(file_number)),
            Err(e) => Err(e),
        }
    }

    /// Opens the existing store named `filename` for reading and writing.
    pub fn open_modify(&self, w: &mut LibraryState, filename: &str) -> (r: CgnsResult<File<ModifiableFile>>)
        requires
            old(w).wf(),
            old(w).slots@.len() < i32::MAX,
        ensures
            final(w).wf(),
            final(w).cursor == old(w).cursor,
            final(w).lease_held == old(w).lease_held,
            r matches Ok(f) ==> f.id() == old(w).slots@.len() + 1 && final(w).slots@.len() == old(w).slots@.len() + 1 && final(w).file_open(f.id())
                && final(w).slot_at(f.id()).mode == CgnsOpenMode::Modify
                && final(w).stores == old(w).stores
                && crate::file::find_store(old(w).stores@, filename@) == Some(
                final(w).slot_at(f.id()).store as int,
            ),
            r is Ok <==> !crate::types::has_nul(filename@) && crate::file::find_store(
                old(w).stores@,
                filename@,
            ) is Some,
            r is Err ==> *final(w) == *old(w),
    {
        proof {
            crate::file::lemma_find_store_bounds(old(w).stores@, filename@, 0);
        }
        match File::<ModifiableFile>::open_raw(w, filename, CgnsOpenMode::Modify) {
            Ok(file_number) => Ok(File::from_number(file_number)),
            Err(e) => Err(e),
        }
    }

    /// Opens a store in a mode chosen at run time; the handle is tagged as
    /// having both capabilities.
    pub fn open_dynamic(&self, w: &mut LibraryState, filename: &str, mode: CgnsOpenMode) -> (r: CgnsResult<File<UnknownFile>>)
        requires
            old(w).wf(),
            old(w).slots@.len() < i32::MAX,
        ensures
            final(w).wf(),
            final(w).cursor == old(w).cursor,
            final(w).lease_held == old(w).lease_held,
            r matches Ok(f) ==> f.id() == old(w).slots@.len() + 1 && final(w).slots@.len() == old(w).slots@.len() + 1 && final(w).file_open(f.id())
                && final(w).slot_at(f.id()).mode == mode,
            r is Ok <==> !crate::types::has_nul(filename@) && (mode == CgnsOpenMode::Write
                || crate::file::find_store(old(w).stores@, filename@) is Some),
            r is Err ==> *final(w) == *old(w),
    {
        proof {
            crate::file::lemma_find_store_bounds(old(w).stores@, filename@, 0);
        }
        match File::<UnknownFile>::open_raw(w, filename, mode) {
            Ok(file_number) => Ok(File::from_number(file_number)),
            Err(e) => Err(e),
        }
    }

    /// Serializes a path and moves the external cursor to it; see
    /// `cursor::goto_path` for the full contract this repeats.
    pub fn goto(&self, w: &mut LibraryState, path: &CgnsPath) -> (r: CgnsResult<()>)
        requires
            old(w).wf(),
        ensures
            final(w).wf(),
            final(w).stores == old(w).stores,
            final(w).slots == old(w).slots,
            final(w).lease_held == old(w).lease_held,
            r is Ok <==> goto_ok(*old(w), *path),
            r is Ok ==> cursor_set_for(*final(w), *path),
            !(r is Ok) ==> final(w).cursor == old(w).cursor,
            path_has_nul(*path) ==> (r matches Err(e) && e.kind
                == CgnsErrorKind::ConversionError),
            !path_has_nul(*path) && !goto_ok(*old(w), *path) ==> (r matches Err(e) && e.kind
                == CgnsErrorKind::Library),
    {
        goto_path(w, path)
    }

    /// Reconstructs the presently active path from the external cursor.
    pub fn current_path(&self, w: &LibraryState) -> (r: CgnsResult<CgnsPath>)
        ensures
            w.cursor is None ==> (r matches Err(e) && e.kind == CgnsErrorKind::Library),
            w.cursor matches Some(c) ==> (r matches Ok(p) && p.file_number == c.file_number
                && p.base_index == c.base_index && p.nodes@ == parse_cursor_nodes(c.nodes@)),
    {
        current_path_from(w)
    }
}

} // verus!
