use vstd::prelude::*;
use vstd::string::StringExecFns;
use crate::errors::CgnsError;
use crate::errors::CgnsErrorKind;
use crate::errors::CgnsResult;
use crate::store::Cursor;
use crate::store::LibraryState;
use crate::store::nodes_strs;
use crate::store::resolve_nodes;
use crate::store::resolve_nodes_spec;
use crate::types::CG_MAX_GOTO_DEPTH;
use crate::types::CgnsNodeLabel;
use crate::types::CgnsPath;
use crate::types::has_nul;
use crate::types::label_str;
use crate::types::str_has_nul;

verus! {

/// The labels of a path's node list, rendered to their characters.
pub open spec fn path_label_strs(p: CgnsPath) -> Seq<(Seq<char>, i32)> {
    p.nodes@.map_values(|n: (CgnsNodeLabel, i32)| (label_str(n.0), n.1))
}

/// How many of a path's nodes the cursor call takes: everything up to the
/// greatest supported depth; the rest is silently truncated.
pub open spec fn goto_depth(p: CgnsPath) -> int {
    if p.nodes@.len() <= CG_MAX_GOTO_DEPTH {
        p.nodes@.len() as int
    } else {
        CG_MAX_GOTO_DEPTH as int
    }
}

/// True when some label of the path cannot be rendered as a C string.
pub open spec fn path_has_nul(p: CgnsPath) -> bool {
    exists|i: int| 0 <= i < p.nodes@.len() && has_nul(label_str(#[trigger] p.nodes@[i].0))
}

/// True when setting the cursor to this path succeeds: every label renders
/// as a C string, and the truncated serialized path resolves to a node.
pub open spec fn goto_ok(w: LibraryState, p: CgnsPath) -> bool {
    &&& !path_has_nul(p)
    &&& resolve_nodes_spec(
        w,
        p.file_number,
        p.base_index,
        path_label_strs(p).take(goto_depth(p)),
    ) is Some
}

/// What a successful cursor move leaves behind: the cursor holds the
/// path's file and base, and its serialized nodes up to the supported
/// depth; a custom label's own string is stored unchanged.
pub open spec fn cursor_set_for(w2: LibraryState, p: CgnsPath) -> bool {
    w2.cursor matches Some(c) && {
        &&& c.file_number == p.file_number
        &&& c.base_index == p.base_index
        &&& c.nodes@.len() == goto_depth(p)
        &&& nodes_strs(c.nodes@) == path_label_strs(p).take(goto_depth(p))
        &&& forall|i: int| 0 <= i < goto_depth(p)
            ==> ((#[trigger] p.nodes@[i]).0 matches CgnsNodeLabel::Custom(s) ==> c.nodes@[i].0 == s)
    }
}

/// Serializes a path and issues it as the new cursor position. The store,
/// the open-file table and the lease are untouched; on failure the cursor
/// keeps its previous position.
#[verifier::loop_isolation(false)]
pub fn goto_path(w: &mut LibraryState, path: &CgnsPath) -> (r: CgnsResult<()>)
    requires
        old(w).wf(),
    ensures
        final(w).wf(),
        final(w).stores == old(w).stores,
        final(w).slots == old(w).slots,
        final(w).lease_held == old(w).lease_held,
        r is Ok <==> goto_ok(*old(w), *path),
        r is Ok ==> cursor_set_for(*final(w), *path),
        !(r is Ok) ==> final(w).cursor == old(w).cursor,
        path_has_nul(*path) ==> (r matches Err(e) && e.kind == CgnsErrorKind::ConversionError),
        !path_has_nul(*path) && !goto_ok(*old(w), *path) ==> (r matches Err(e)
            && e.kind == CgnsErrorKind::Library),
{
    let n = path.nodes.len();
    let depth = if n < CG_MAX_GOTO_DEPTH {
        n
    } else {
        CG_MAX_GOTO_DEPTH
    };
    let mut i: usize = 0;
    while i < n
        invariant
            *w == *old(w),
            0 <= i <= n,
            n == path.nodes@.len(),
            forall|j: int| 0 <= j < i ==> !has_nul(label_str(#[trigger] path.nodes@[j].0)),
        decreases n - i,
    {
        let node = &path.nodes[i];
        let rendered = node.0.as_string();
        if str_has_nul(rendered.as_str()) {
            assert(path_has_nul(*path));
            return Err(CgnsError::conversion_error());
        }
        i += 1;
    }
    assert(!path_has_nul(*path));
    let mut cnodes: Vec<(String, i32)> = Vec::new();
    let mut j: usize = 0;
    while j < depth
        invariant
            *w == *old(w),
            0 <= j <= depth,
            depth == goto_depth(*path),
            depth <= path.nodes@.len(),
            cnodes@.len() == j,
            forall|k: int| 0 <= k < j ==> (#[trigger] cnodes@[k]).0@ == label_str(path.nodes@[k].0)
                && cnodes@[k].1 == path.nodes@[k].1,
            forall|k: int| 0 <= k < j
                ==> ((#[trigger] path.nodes@[k]).0 matches CgnsNodeLabel::Custom(s)
                    ==> cnodes@[k].0 == s),
        decreases depth - j,
    {
        let node = &path.nodes[j];
        cnodes.push((node.0.as_string(), node.1));
        j += 1;
    }
    proof {
        assert(nodes_strs(cnodes@) =~= path_label_strs(*path).take(goto_depth(*path)));
    }
    match resolve_nodes(w, path.file_number, path.base_index, &cnodes) {
        None => Err(
            CgnsError::library(1, String::from_str("the path does not resolve to a node")),
        ),
        Some(_) => {
            w.cursor = Some(
                Cursor {
                    file_number: path.file_number,
                    base_index: path.base_index,
                    nodes: cnodes,
                },
            );
            Ok(())
        },
    }
}


/// True when the cursor stands at the given file, base and serialized
/// node list.
pub open spec fn cursor_at(w: LibraryState, fnum: i32, bidx: i32, nodes: Seq<(Seq<char>, i32)>) -> bool {
    w.cursor matches Some(c) && c.file_number == fnum && c.base_index == bidx && nodes_strs(
        c.nodes@,
    ) == nodes
}

/// The node list a stored cursor reads back as: each stored label parsed,
/// reserved spellings back to their variant, anything else custom.
pub open spec fn parse_cursor_nodes(ns: Seq<(String, i32)>) -> Seq<(CgnsNodeLabel, i32)> {
    ns.map_values(|n: (String, i32)| (CgnsNodeLabel::parse_spec(n.0), n.1))
}

/// Reconstructs the presently active path from the cursor. Fails with a
/// library error when no cursor position has been set.
pub fn current_path_from(w: &LibraryState) -> (r: CgnsResult<CgnsPath>)
    ensures
        w.cursor is None ==> (r matches Err(e) && e.kind == CgnsErrorKind::Library),
        w.cursor matches Some(c) ==> (r matches Ok(p)
            && p.file_number == c.file_number
            && p.base_index == c.base_index
            && p.nodes@ == parse_cursor_nodes(c.nodes@)),
{
    match &w.cursor {
        None => Err(
            CgnsError::library(1, String::from_str("no cursor position has been set")),
        ),
        Some(c) => {
            let mut nodes: Vec<(CgnsNodeLabel, i32)> = Vec::new();
            let n = c.nodes.len();
            let mut i: usize = 0;
            while i < n
                invariant
                    0 <= i <= n,
                    n == c.nodes@.len(),
                    nodes@.len() == i,
                    forall|j: int| 0 <= j < i
                        ==> #[trigger] nodes@[j] == (CgnsNodeLabel::parse_spec(c.nodes@[j].0), c.nodes@[j].1),
                decreases n - i,
            {
                let node = &c.nodes[i];
                nodes.push((CgnsNodeLabel::parse(node.0.clone()), node.1));
                i += 1;
            }
            proof {
                assert(nodes@ =~= parse_cursor_nodes(c.nodes@));
            }
            Ok(CgnsPath { file_number: c.file_number, base_index: c.base_index, nodes })
        },
    }
}

/// Cursor round trip: a path each of whose labels is canonical, and which
/// is no deeper than the cursor call supports, reads back exactly as it
/// was set. One input outside these bounds fails it: a custom label
/// spelled like a reserved one is read back as the reserved variant.
pub proof fn lemma_cursor_round_trip(w2: LibraryState, p: CgnsPath, c: Cursor)
    requires
        p.nodes@.len() <= CG_MAX_GOTO_DEPTH,
        forall|i: int| 0 <= i < p.nodes@.len() ==> (#[trigger] p.nodes@[i]).0.canonical(),
        cursor_set_for(w2, p),
        w2.cursor == Some(c),
    ensures
        c.file_number == p.file_number,
        c.base_index == p.base_index,
        parse_cursor_nodes(c.nodes@) == p.nodes@,
{
    assert(goto_depth(p) == p.nodes@.len());
    assert(path_label_strs(p).take(goto_depth(p)) =~= path_label_strs(p));
    assert forall|i: int| 0 <= i < p.nodes@.len()
        implies #[trigger] parse_cursor_nodes(c.nodes@)[i] == p.nodes@[i] by {
        let stored = c.nodes@[i].0;
        assert(nodes_strs(c.nodes@)[i] == path_label_strs(p)[i]);
        assert(stored@ == label_str(p.nodes@[i].0));
        assert(c.nodes@[i].1 == p.nodes@[i].1);
        crate::types::lemma_label_parse_render(p.nodes@[i].0, stored);
    }
    assert(parse_cursor_nodes(c.nodes@) =~= p.nodes@);
}

} // verus!
