use vstd::prelude::*;
use core::marker::PhantomData;
use crate::errors::CgnsError;
use crate::errors::CgnsErrorKind;
use crate::errors::CgnsResult;
use crate::file::File;
use crate::node::NodeIter;
use crate::node::check_sibling_index;
use crate::open_modes::OpenMode;
use crate::open_modes::OpenModeRead;
use crate::open_modes::OpenModeWrite;
use crate::store::BaseNode;
use crate::store::LibraryState;
use crate::types::CgnsPath;
use crate::types::has_nul;
use crate::types::str_has_nul;

verus! {

/// The plain value of a base node: its name and its cell and physical
/// dimensions. A snapshot with no reference back to the store.
#[derive(Debug)]
pub struct BaseData {
    pub name: String,
    pub cell_dim: i32,
    pub phys_dim: i32,
}

impl PartialEq for BaseData {
    fn eq(&self, other: &Self) -> (r: bool) {
        self.name == other.name && self.cell_dim == other.cell_dim && self.phys_dim
            == other.phys_dim
    }
}

impl vstd::std_specs::cmp::PartialEqSpecImpl for BaseData {
    open spec fn obeys_eq_spec() -> bool {
        true
    }

    open spec fn eq_spec(&self, other: &Self) -> bool {
        self.name@ == other.name@ && self.cell_dim == other.cell_dim && self.phys_dim
            == other.phys_dim
    }
}

impl Clone for BaseData {
    fn clone(&self) -> (r: Self)
        ensures
            r == *self,
    {
        BaseData { name: self.name.clone(), cell_dim: self.cell_dim, phys_dim: self.phys_dim }
    }
}

/// The value a read of a base node returns.
pub open spec fn base_read_value(n: BaseNode) -> BaseData {
    BaseData { name: n.name, cell_dim: n.cell_dim, phys_dim: n.phys_dim }
}

/// True when `n` is the node a write of `data` creates: the value's fields,
/// and no children yet.
pub open spec fn base_node_for(n: BaseNode, data: BaseData) -> bool {
    &&& n.name == data.name
    &&& n.cell_dim == data.cell_dim
    &&& n.phys_dim == data.phys_dim
    &&& n.zones@.len() == 0
    &&& n.descriptors@.len() == 0
    &&& n.simulation_type is None
    &&& n.ordinal is None
}

/// What writing a base under the open file `fnum` does to the library
/// state: the node for `data` is appended to that store's bases; every
/// other store, every earlier base, and the rest of the state stay as
/// they were.
pub open spec fn base_appended(w: LibraryState, w2: LibraryState, fnum: i32, data: BaseData) -> bool {
    &&& w2.slots == w.slots
    &&& w2.cursor == w.cursor
    &&& w2.lease_held == w.lease_held
    &&& w2.stores@.len() == w.stores@.len()
    &&& forall|j: int| 0 <= j < w.stores@.len() && j != w.slot_at(fnum).store as int
        ==> w2.stores@[j] == w.stores@[j]
    &&& w2.store_at(fnum).name == w.store_at(fnum).name
    &&& w2.store_at(fnum).bases@.len() == w.store_at(fnum).bases@.len() + 1
    &&& forall|k: int| 0 <= k < w.store_at(fnum).bases@.len()
        ==> w2.store_at(fnum).bases@[k] == w.store_at(fnum).bases@[k]
    &&& base_node_for(w2.store_at(fnum).bases@.last(), data)
}

/// A non-owning handle to a base node: the handle number of the file it
/// lives in and its 1-based sibling index, validated at construction.
#[derive(Debug)]
pub struct Base<M: OpenMode> {
    file_number: i32,
    base_index: i32,
    _mode: PhantomData<M>,
}

impl<M: OpenMode> Base<M> {
    /// The handle number of the file this base lives in.
    pub closed spec fn file_id(&self) -> i32 {
        self.file_number
    }

    /// The 1-based sibling index of this base.
    pub closed spec fn sibling_index(&self) -> i32 {
        self.base_index
    }

    /// True when the handle still points at an existing base of an open
    /// file.
    pub open spec fn valid(&self, w: LibraryState) -> bool {
        w.base_ok(self.file_id(), self.sibling_index())
    }

    /// The base node this handle points at.
    pub open spec fn node_in(&self, w: LibraryState) -> BaseNode {
        w.base_at(self.file_id(), self.sibling_index())
    }

    /// The resolved location of this base node.
    pub open spec fn container(&self, w: LibraryState) -> crate::store::ContainerLoc {
        crate::store::ContainerLoc {
            store: w.slot_at(self.file_id()).store,
            base: (self.sibling_index() - 1) as usize,
            zone: None,
        }
    }

    /// Constructs a handle to the base at `base_index`, eagerly validated:
    /// the index must lie in `[1, n_bases]`, else the construction fails
    /// with an out-of-bounds error; a closed handle fails as the external
    /// count query would.
    pub fn new(file: &File<M>, w: &LibraryState, base_index: i32) -> (r: CgnsResult<Base<M>>)
        requires
            w.wf(),
        ensures
            r is Ok <==> w.base_ok(file.id(), base_index),
            r matches Ok(b) ==> b.file_id() == file.id() && b.sibling_index() == base_index,
            r matches Err(e) ==> (if w.file_open(file.id()) {
                e.kind == CgnsErrorKind::OutOfBounds
            } else {
                e.kind == CgnsErrorKind::Library
            }),
    {
        let n = n_bases_raw(file, w)?;
        check_sibling_index(n, base_index)?;
        Ok(Base { file_number: file.file_number(), base_index, _mode: PhantomData })
    }

    pub(crate) fn new_unchecked(file_number: i32, base_index: i32) -> (b: Base<M>)
        ensures
            b.file_id() == file_number,
            b.sibling_index() == base_index,
    {
        Base { file_number, base_index, _mode: PhantomData }
    }

    /// The 1-based sibling index of this base.
    pub fn index(&self) -> (r: i32)
        ensures
            r == self.sibling_index(),
    {
        self.base_index
    }

    /// The handle number of the file this base lives in.
    pub fn file_number(&self) -> (r: i32)
        ensures
            r == self.file_id(),
    {
        self.file_number
    }

    /// The path of the base node: it is identified by its file and its
    /// index alone, so the node list below the base is empty.
    pub fn path(&self) -> (p: CgnsPath)
        ensures
            p.file_number == self.file_id(),
            p.base_index == self.sibling_index(),
            p.nodes@.len() == 0,
    {
        CgnsPath { file_number: self.file_number, base_index: self.base_index, nodes: Vec::new() }
    }

    /// Reads the base's name and dimensions. The base identifies itself by
    /// file and index directly; no cursor move is needed.
    pub fn read(&self, w: &LibraryState) -> (r: CgnsResult<BaseData>) where M: OpenModeRead
        requires
            w.wf(),
            self.valid(*w),
        ensures
            r == Ok::<BaseData, CgnsError>(base_read_value(self.node_in(*w))),
    {
        let fi = self.file_number as usize - 1;
        let slot = w.slots[fi];
        let store = &w.stores[slot.store];
        let node = &store.bases[self.base_index as usize - 1];
        Ok(BaseData { name: node.name.clone(), cell_dim: node.cell_dim, phys_dim: node.phys_dim })
    }

    /// Creates a new base node under the file and returns its newly
    /// assigned 1-based index. A name with an embedded nul cannot be
    /// handed to the external library and is a conversion error.
    pub fn write(w: &mut LibraryState, parent: &File<M>, data: &BaseData) -> (r: CgnsResult<i32>) where M: OpenModeWrite
        requires
            old(w).wf(),
            old(w).file_open(parent.id()),
            old(w).store_at(parent.id()).bases@.len() < i32::MAX,
        ensures
            final(w).wf(),
            has_nul(data.name@) ==> (r matches Err(e) && e.kind == CgnsErrorKind::ConversionError)
                && *final(w) == *old(w),
            !has_nul(data.name@) ==> r == Ok::<i32, CgnsError>(
                (old(w).store_at(parent.id()).bases@.len() + 1) as i32,
            ) && base_appended(*old(w), *final(w), parent.id(), *data),
    {
        if str_has_nul(data.name.as_str()) {
            return Err(CgnsError::conversion_error());
        }
        let node = BaseNode {
            name: data.name.clone(),
            cell_dim: data.cell_dim,
            phys_dim: data.phys_dim,
            zones: Vec::new(),
            descriptors: Vec::new(),
            simulation_type: None,
            ordinal: None,
        };
        let fi = parent.file_number() as usize - 1;
        let slot = w.slots[fi];
        w.stores[slot.store].bases.push(node);
        Ok(w.stores[slot.store].bases.len() as i32)
    }

    /// The cell dimension of the base.
    pub fn dim(&self, w: &LibraryState) -> (r: CgnsResult<i32>) where M: OpenModeRead
        requires
            w.wf(),
            self.valid(*w),
        ensures
            r == Ok::<i32, CgnsError>(self.node_in(*w).cell_dim),
    {
        let fi = self.file_number as usize - 1;
        let slot = w.slots[fi];
        Ok(w.stores[slot.store].bases[self.base_index as usize - 1].cell_dim)
    }
}

/// Writing a base and reading it back at the returned index yields the
/// value that was written.
pub proof fn lemma_base_write_read_round_trip(w: LibraryState, w2: LibraryState, fnum: i32, data: BaseData, idx: i32)
    requires
        w.wf(),
        w.file_open(fnum),
        base_appended(w, w2, fnum, data),
        idx == w.store_at(fnum).bases@.len() + 1,
    ensures
        w2.base_ok(fnum, idx),
        base_read_value(w2.base_at(fnum, idx)) == data,
{
}

/// Reads the number of bases under the open file, or fails with a library
/// error when the handle is closed, as the external count query would.
fn n_bases_raw<M: OpenMode>(file: &File<M>, w: &LibraryState) -> (r: CgnsResult<i32>)
    requires
        w.wf(),
    ensures
        w.file_open(file.id()) ==> r == Ok::<i32, CgnsError>(
            w.store_at(file.id()).bases@.len() as i32,
        ),
        !w.file_open(file.id()) ==> (r matches Err(e) && e.kind == CgnsErrorKind::Library),
{
    let fnum = file.file_number();
    if fnum < 1 || fnum as usize > w.slots.len() {
        return Err(CgnsError::library(1, invalid_handle_message()));
    }
    let slot = w.slots[fnum as usize - 1];
    if !slot.open {
        return Err(CgnsError::library(1, invalid_handle_message()));
    }
    Ok(w.stores[slot.store].bases.len() as i32)
}

fn invalid_handle_message() -> String {
    <String as vstd::string::StringExecFns>::from_str("the file handle is not open")
}

/// A lazy walk over the bases of a file, in increasing index order. The
/// count is fixed when the walk starts.
#[derive(Debug)]
pub struct Bases<M: OpenMode> {
    file_number: i32,
    iter: NodeIter,
    _mode: PhantomData<M>,
}

impl<M: OpenMode> Bases<M> {
    /// The handle number of the file being walked.
    pub closed spec fn file_id(&self) -> i32 {
        self.file_number
    }

    /// How many siblings the walk has yielded so far.
    pub closed spec fn current(&self) -> i32 {
        self.iter.current
    }

    /// The child count fixed when the walk started.
    pub closed spec fn count(&self) -> i32 {
        self.iter.n_items
    }

    pub(crate) fn make(file_number: i32, n_items: i32) -> (r: Bases<M>)
        ensures
            r.file_id() == file_number,
            r.current() == 0,
            r.count() == n_items,
    {
        Bases { file_number, iter: NodeIter::new(n_items), _mode: PhantomData }
    }

    /// Yields a handle to the next base, or nothing once the count fixed
    /// at the start of the walk is exhausted.
    pub fn next(&mut self) -> (r: Option<Base<M>>)
        ensures
            final(self).file_id() == old(self).file_id(),
            final(self).count() == old(self).count(),
            old(self).current() < old(self).count() ==> (r matches Some(b)
                && b.file_id() == old(self).file_id()
                && b.sibling_index() == old(self).current() + 1
                && final(self).current() == old(self).current() + 1),
            old(self).current() >= old(self).count() ==> r is None && *final(self) == *old(
                self,
            ),
    {
        match self.iter.next() {
            Some(index) => Some(Base::new_unchecked(self.file_number, index)),
            None => None,
        }
    }
}

impl<M: OpenMode> File<M> {
    /// Reads the number of bases under this file.
    pub fn n_bases(&self, w: &LibraryState) -> (r: CgnsResult<i32>) where M: OpenModeRead
        requires
            w.wf(),
        ensures
            w.file_open(self.id()) ==> r == Ok::<i32, CgnsError>(
                w.store_at(self.id()).bases@.len() as i32,
            ),
            !w.file_open(self.id()) ==> (r matches Err(e) && e.kind == CgnsErrorKind::Library),
    {
        n_bases_raw(self, w)
    }

    /// A validated handle to the base at `base_index`.
    pub fn get_base(&self, w: &LibraryState, base_index: i32) -> (r: CgnsResult<Base<M>>) where M: OpenModeRead
        requires
            w.wf(),
        ensures
            r is Ok <==> w.base_ok(self.id(), base_index),
            r matches Ok(b) ==> b.file_id() == self.id() && b.sibling_index() == base_index,
            r matches Err(e) ==> (if w.file_open(self.id()) {
                e.kind == CgnsErrorKind::OutOfBounds
            } else {
                e.kind == CgnsErrorKind::Library
            }),
    {
        Base::new(self, w, base_index)
    }

    /// Starts a walk over this file's bases: it yields exactly the bases
    /// counted when the walk starts, in increasing index order.
    pub fn bases(&self, w: &LibraryState) -> (r: CgnsResult<Bases<M>>) where M: OpenModeRead
        requires
            w.wf(),
        ensures
            w.file_open(self.id()) ==> (r matches Ok(it) && it.file_id() == self.id()
                && it.current() == 0 && it.count() == w.store_at(
                self.id(),
            ).bases@.len() as i32),
            !w.file_open(self.id()) ==> (r matches Err(e) && e.kind == CgnsErrorKind::Library),
    {
        let n = n_bases_raw(self, w)?;
        Ok(Bases::make(self.file_number(), n))
    }
}

} // verus!
