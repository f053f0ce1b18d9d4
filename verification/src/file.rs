use vstd::prelude::*;
use vstd::string::StringExecFns;
use core::marker::PhantomData;
use crate::errors::CgnsError;
use crate::errors::CgnsErrorKind;
use crate::errors::CgnsResult;
use crate::open_modes::OpenMode;
use crate::store::FileSlot;
use crate::store::LibraryState;
use crate::store::StoredFile;
use crate::store::bases_like;
use crate::store::copy_bases;
use crate::store::lemma_bases_like_wf;
use crate::types::CgnsFileType;
use crate::types::CgnsOpenMode;
use crate::types::has_nul;
use crate::types::str_has_nul;

verus! {

/// The first store, from `from` on, whose name is spelled `name`.
pub open spec fn find_store_from(stores: Seq<StoredFile>, name: Seq<char>, from: int) -> Option<int>
    decreases stores.len() - from,
{
    if from < 0 || from >= stores.len() {
        None
    } else if stores[from].name@ == name {
        Some(from)
    } else {
        find_store_from(stores, name, from + 1)
    }
}

/// The first store whose name is spelled `name`.
pub open spec fn find_store(stores: Seq<StoredFile>, name: Seq<char>) -> Option<int> {
    find_store_from(stores, name, 0)
}

/// A found store index is in bounds and names a store spelled `name`.
pub proof fn lemma_find_store_bounds(stores: Seq<StoredFile>, name: Seq<char>, from: int)
    ensures
        match find_store_from(stores, name, from) {
            Option::Some(si) => from <= si < stores.len() && stores[si].name@ == name,
            Option::None => true,
        },
    decreases stores.len() - from,
{
    if from >= 0 && from < stores.len() && stores[from].name@ != name {
        lemma_find_store_bounds(stores, name, from + 1);
    }
}

/// Two store tables with the same names find the same store for any name.
pub proof fn lemma_find_store_same_names(a: Seq<StoredFile>, b: Seq<StoredFile>, name: Seq<char>, from: int)
    requires
        a.len() == b.len(),
        forall|i: int| 0 <= i < a.len() ==> (#[trigger] a[i]).name@ == b[i].name@,
    ensures
        find_store_from(a, name, from) == find_store_from(b, name, from),
    decreases a.len() - from,
{
    if from >= 0 && from < a.len() {
        lemma_find_store_same_names(a, b, name, from + 1);
    }
}

/// Appending a store of a name that no store carries makes it the one a
/// search finds.
pub proof fn lemma_find_store_appended(a: Seq<StoredFile>, s: StoredFile, name: Seq<char>, from: int)
    requires
        find_store_from(a, name, from) is None,
        s.name@ == name,
        0 <= from <= a.len(),
    ensures
        find_store_from(a.push(s), name, from) == Some(a.len() as int),
    decreases a.len() - from,
{
    if from < a.len() {
        lemma_find_store_appended(a, s, name, from + 1);
    }
}

/// What opening leaves in the open-file table: one new slot pointing at
/// store `si`, open, with the requested mode; nothing else in the table
/// moves. The new handle number is the table's new length.
pub open spec fn slot_appended(w: LibraryState, w2: LibraryState, si: int, mode: CgnsOpenMode) -> bool {
    w2.slots@ == w.slots@.push(FileSlot { store: si as usize, mode, open: true })
}

/// Finds the first store spelled like `name`, scanning in order.
#[verifier::loop_isolation(false)]
fn find_store_exec(stores: &Vec<StoredFile>, name: &String) -> (r: Option<usize>)
    ensures
        r is None <==> find_store(stores@, name@) is None,
        r matches Some(i) ==> i < stores@.len() && find_store(stores@, name@) == Some(i as int),
{
    let n = stores.len();
    let mut i: usize = 0;
    while i < n
        invariant
            0 <= i <= n,
            find_store(stores@, name@) == find_store_from(stores@, name@, i as int),
        decreases n - i,
    {
        if stores[i].name == *name {
            return Some(i);
        }
        i += 1;
    }
    None
}

/// A handle to an open store, tagged with the capability its open mode
/// grants. Closing consumes the handle, so no node derived from it can be
/// used afterwards.
#[derive(Debug)]
pub struct File<M: OpenMode> {
    file_number: i32,
    _mode: PhantomData<M>,
}

impl<M: OpenMode> File<M> {
    /// The external handle number this file was opened as.
    pub closed spec fn id(&self) -> i32 {
        self.file_number
    }

    /// Exposes the external library's handle number of this file.
    pub fn file_number(&self) -> (r: i32)
        ensures
            r == self.id(),
    {
        self.file_number
    }

    pub(crate) fn from_number(file_number: i32) -> (f: Self)
        ensures
            f.id() == file_number,
    {
        File { file_number, _mode: PhantomData }
    }

    /// Opens the store named `filename` in the given mode and appends a
    /// slot for it to the open-file table. Opening for writing creates the
    /// store, or replaces its contents when one of that name exists;
    /// reading and modifying need an existing store.
    pub(crate) fn open_raw(w: &mut LibraryState, filename: &str, mode: CgnsOpenMode) -> (r: CgnsResult<i32>)
        requires
            old(w).wf(),
            old(w).slots@.len() < i32::MAX,
        ensures
            final(w).wf(),
            final(w).cursor == old(w).cursor,
            final(w).lease_held == old(w).lease_held,
            has_nul(filename@) ==> (r matches Err(e) && e.kind == CgnsErrorKind::ConversionError)
                && final(w).stores == old(w).stores && final(w).slots == old(w).slots,
            !has_nul(filename@) && mode != CgnsOpenMode::Write ==> match find_store(
                old(w).stores@,
                filename@,
            ) {
                Option::None => (r matches Err(e) && e.kind == CgnsErrorKind::Library)
                    && final(w).stores == old(w).stores && final(w).slots == old(w).slots,
                Option::Some(si) => r == Ok::<i32, CgnsError>((old(w).slots@.len() + 1) as i32)
                    && final(w).stores == old(w).stores && slot_appended(*old(w), *final(w), si, mode)
                    && final(w).slots@.last().store as int == si,
            },
            !has_nul(filename@) && mode == CgnsOpenMode::Write ==> {
                &&& r == Ok::<i32, CgnsError>((old(w).slots@.len() + 1) as i32)
                &&& match find_store(old(w).stores@, filename@) {
                    Option::Some(si) => {
                        &&& final(w).stores@.len() == old(w).stores@.len()
                        &&& forall|j: int| 0 <= j < old(w).stores@.len() && j != si
                            ==> final(w).stores@[j] == old(w).stores@[j]
                        &&& final(w).stores@[si].name == old(w).stores@[si].name
                        &&& final(w).stores@[si].bases@.len() == 0
                        &&& slot_appended(*old(w), *final(w), si, mode)
                        &&& final(w).slots@.last().store as int == si
                    },
                    Option::None => {
                        &&& final(w).stores@.len() == old(w).stores@.len() + 1
                        &&& forall|j: int| 0 <= j < old(w).stores@.len()
                            ==> final(w).stores@[j] == old(w).stores@[j]
                        &&& final(w).stores@.last().name@ == filename@
                        &&& final(w).stores@.last().bases@.len() == 0
                        &&& slot_appended(*old(w), *final(w), old(w).stores@.len() as int, mode)
                        &&& final(w).slots@.last().store as int == old(w).stores@.len()
                    },
                }
            },
    {
        if str_has_nul(filename) {
            return Err(CgnsError::conversion_error());
        }
        let name = String::from_str(filename);
        let found = find_store_exec(&w.stores, &name);
        let si: usize = match found {
            Some(si) => {
                if mode == CgnsOpenMode::Write {
                    w.stores[si].bases = Vec::new();
                }
                si
            },
            None => {
                if mode != CgnsOpenMode::Write {
                    return Err(
                        CgnsError::library(1, String::from_str("no store of that name exists")),
                    );
                }
                w.stores.push(StoredFile { name, bases: Vec::new() });
                w.stores.len() - 1
            },
        };
        w.slots.push(FileSlot { store: si, mode, open: true });
        Ok(w.slots.len() as i32)
    }

    /// Saves a snapshot of this store's contents under the name
    /// `filename`, creating that store or replacing its contents. The
    /// chosen on-disk encoding and whether links are followed only matter
    /// to the external library's writer; the stored values do not depend
    /// on them.
    pub fn save_as(&self, w: &mut LibraryState, filename: &str, file_type: CgnsFileType, follow_links: bool) -> (r: CgnsResult<()>)
        requires
            old(w).wf(),
            old(w).file_open(self.id()),
        ensures
            final(w).wf(),
            final(w).slots == old(w).slots,
            final(w).cursor == old(w).cursor,
            final(w).lease_held == old(w).lease_held,
            r is Ok <==> !has_nul(filename@),
            r is Err ==> *final(w) == *old(w) && (r matches Err(e) && e.kind
                == CgnsErrorKind::ConversionError),
            r is Ok ==> match find_store(old(w).stores@, filename@) {
                Option::Some(si) => {
                    &&& final(w).stores@.len() == old(w).stores@.len()
                    &&& forall|j: int| 0 <= j < old(w).stores@.len() && j != si
                        ==> final(w).stores@[j] == old(w).stores@[j]
                    &&& final(w).stores@[si].name == old(w).stores@[si].name
                    &&& bases_like(
                        final(w).stores@[si].bases@,
                        old(w).store_at(self.id()).bases@,
                    )
                },
                Option::None => {
                    &&& final(w).stores@.len() == old(w).stores@.len() + 1
                    &&& forall|j: int| 0 <= j < old(w).stores@.len()
                        ==> final(w).stores@[j] == old(w).stores@[j]
                    &&& final(w).stores@.last().name@ == filename@
                    &&& bases_like(
                        final(w).stores@.last().bases@,
                        old(w).store_at(self.id()).bases@,
                    )
                },
            },
    {
        let _ = file_type;
        let _ = follow_links;
        if str_has_nul(filename) {
            return Err(CgnsError::conversion_error());
        }
        let slot = w.slots[self.file_number as usize - 1];
        let copied = copy_bases(&w.stores[slot.store].bases);
        proof {
            lemma_bases_like_wf(copied@, old(w).store_at(self.id()).bases@);
        }
        let name = String::from_str(filename);
        match find_store_exec(&w.stores, &name) {
            Some(si) => {
                w.stores[si].bases = copied;
            },
            None => {
                w.stores.push(StoredFile { name, bases: copied });
            },
        }
        Ok(())
    }

    /// Closes the handle, marking its slot closed; the handle is consumed,
    /// so it cannot be closed twice. The store's contents persist.
    pub fn close(self, w: &mut LibraryState) -> (r: CgnsResult<()>)
        requires
            old(w).wf(),
            old(w).file_open(self.id()),
        ensures
            final(w).wf(),
            r is Ok,
            final(w).stores == old(w).stores,
            final(w).cursor == old(w).cursor,
            final(w).lease_held == old(w).lease_held,
            final(w).slots@ == old(w).slots@.update(
                self.id() - 1,
                FileSlot {
                    store: old(w).slot_at(self.id()).store,
                    mode: old(w).slot_at(self.id()).mode,
                    open: false,
                },
            ),
            !final(w).file_open(self.id()),
    {
        let i = self.file_number as usize - 1;
        let slot = w.slots[i];
        w.slots[i] = FileSlot { store: slot.store, mode: slot.mode, open: false };
        Ok(())
    }
}

} // verus!
