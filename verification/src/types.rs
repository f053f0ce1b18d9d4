use vstd::prelude::*;
use vstd::string::StrSliceExecFns;
use vstd::string::StringExecFns;

verus! {

/// Greatest path depth the external cursor call accepts; elements beyond it
/// are silently truncated when the cursor is set.
pub const CG_MAX_GOTO_DEPTH: usize = 20;

/// True when the character sequence holds an embedded nul, which the
/// external library's C strings cannot carry.
pub open spec fn has_nul(s: Seq<char>) -> bool {
    exists|i: int| 0 <= i < s.len() && s[i] == '\0'
}

/// Checks a string for an embedded nul character.
pub fn str_has_nul(s: &str) -> (b: bool)
    ensures
        b == has_nul(s@),
{
    let n = s.unicode_len();
    let mut i: usize = 0;
    while i < n
        invariant
            0 <= i <= n,
            n == s@.len(),
            forall|j: int| 0 <= j < i ==> s@[j] != '\0',
        decreases n - i,
    {
        if s.get_char(i) == '\0' {
            return true;
        }
        i += 1;
    }
    false
}

/// The label of a node kind, as the external library spells it.
#[derive(Debug)]
pub enum CgnsNodeLabel {
    Zone,
    Base,
    SimulationType,
    Descriptor,
    Ordinal,
    Custom(String),
}

/// The character sequence a label is rendered as.
pub open spec fn label_str(l: CgnsNodeLabel) -> Seq<char> {
    match l {
        CgnsNodeLabel::Zone => "Zone_t"@,
        CgnsNodeLabel::Base => "CGNSBase_t"@,
        CgnsNodeLabel::SimulationType => "SimulationType_t"@,
        CgnsNodeLabel::Descriptor => "Descriptor_t"@,
        CgnsNodeLabel::Ordinal => "Ordinal_t"@,
        CgnsNodeLabel::Custom(s) => s@,
    }
}

/// True when the character sequence is the rendering of one of the
/// non-custom labels.
pub open spec fn is_reserved_label_str(s: Seq<char>) -> bool {
    ||| s == "Zone_t"@
    ||| s == "CGNSBase_t"@
    ||| s == "SimulationType_t"@
    ||| s == "Descriptor_t"@
    ||| s == "Ordinal_t"@
}

/// Label equivalence: the same variant, with custom labels compared by
/// their characters. This is what `==` on labels means in contracts.
pub open spec fn label_eqv(a: CgnsNodeLabel, b: CgnsNodeLabel) -> bool {
    match (a, b) {
        (CgnsNodeLabel::Zone, CgnsNodeLabel::Zone) => true,
        (CgnsNodeLabel::Base, CgnsNodeLabel::Base) => true,
        (CgnsNodeLabel::SimulationType, CgnsNodeLabel::SimulationType) => true,
        (CgnsNodeLabel::Descriptor, CgnsNodeLabel::Descriptor) => true,
        (CgnsNodeLabel::Ordinal, CgnsNodeLabel::Ordinal) => true,
        (CgnsNodeLabel::Custom(x), CgnsNodeLabel::Custom(y)) => x@ == y@,
        _ => false,
    }
}

impl CgnsNodeLabel {
    /// What parsing a rendered label yields: reserved renderings map back to
    /// their variant, anything else stays custom.
    pub open spec fn parse_spec(s: String) -> CgnsNodeLabel {
        if s@ == "Zone_t"@ {
            CgnsNodeLabel::Zone
        } else if s@ == "CGNSBase_t"@ {
            CgnsNodeLabel::Base
        } else if s@ == "SimulationType_t"@ {
            CgnsNodeLabel::SimulationType
        } else if s@ == "Descriptor_t"@ {
            CgnsNodeLabel::Descriptor
        } else if s@ == "Ordinal_t"@ {
            CgnsNodeLabel::Ordinal
        } else {
            CgnsNodeLabel::Custom(s)
        }
    }

    /// A label is canonical when parsing its rendering gives it back: a
    /// custom label must not be spelled like a reserved one.
    pub open spec fn canonical(&self) -> bool {
        self matches CgnsNodeLabel::Custom(s) ==> !is_reserved_label_str(s@)
    }

    /// Renders the label as the external library spells it.
    pub fn as_string(&self) -> (r: String)
        ensures
            r@ == label_str(*self),
            self matches CgnsNodeLabel::Custom(s) ==> r == s,
    {
        match self {
            CgnsNodeLabel::Zone => String::from_str("Zone_t"),
            CgnsNodeLabel::Base => String::from_str("CGNSBase_t"),
            CgnsNodeLabel::SimulationType => String::from_str("SimulationType_t"),
            CgnsNodeLabel::Descriptor => String::from_str("Descriptor_t"),
            CgnsNodeLabel::Ordinal => String::from_str("Ordinal_t"),
            CgnsNodeLabel::Custom(s) => s.clone(),
        }
    }

    /// Parses a rendered label back into a label value.
    pub fn parse(s: String) -> (r: Self)
        ensures
            r == Self::parse_spec(s),
    {
        if s == String::from_str("Zone_t") {
            CgnsNodeLabel::Zone
        } else if s == String::from_str("CGNSBase_t") {
            CgnsNodeLabel::Base
        } else if s == String::from_str("SimulationType_t") {
            CgnsNodeLabel::SimulationType
        } else if s == String::from_str("Descriptor_t") {
            CgnsNodeLabel::Descriptor
        } else if s == String::from_str("Ordinal_t") {
            CgnsNodeLabel::Ordinal
        } else {
            CgnsNodeLabel::Custom(s)
        }
    }
}

/// No reserved label rendering holds an embedded nul, so every
/// non-custom label can be handed to the external library.
pub proof fn lemma_reserved_labels_nul_free()
    ensures
        !has_nul("Zone_t"@),
        !has_nul("CGNSBase_t"@),
        !has_nul("SimulationType_t"@),
        !has_nul("Descriptor_t"@),
        !has_nul("Ordinal_t"@),
{
    reveal_strlit("Zone_t");
    reveal_strlit("CGNSBase_t");
    reveal_strlit("SimulationType_t");
    reveal_strlit("Descriptor_t");
    reveal_strlit("Ordinal_t");
}

/// Parsing undoes rendering for every canonical label: the five reserved
/// renderings are pairwise distinct, and a canonical custom label is not
/// spelled like any of them.
pub proof fn lemma_label_parse_render(l: CgnsNodeLabel, r: String)
    requires
        r@ == label_str(l),
        l matches CgnsNodeLabel::Custom(s) ==> r == s,
        l.canonical(),
    ensures
        CgnsNodeLabel::parse_spec(r) == l,
{
    reveal_strlit("Zone_t");
    reveal_strlit("CGNSBase_t");
    reveal_strlit("SimulationType_t");
    reveal_strlit("Descriptor_t");
    reveal_strlit("Ordinal_t");
    assert("Zone_t"@.len() == 6);
    assert("CGNSBase_t"@.len() == 10);
    assert("SimulationType_t"@.len() == 16);
    assert("Descriptor_t"@.len() == 12);
    assert("Ordinal_t"@.len() == 9);
    assert("Descriptor_t"@[0] == 'D');
    assert("SimulationType_t"@[0] == 'S');
}

impl Clone for CgnsNodeLabel {
    fn clone(&self) -> (r: Self)
        ensures
            r == *self,
    {
        match self {
            CgnsNodeLabel::Zone => CgnsNodeLabel::Zone,
            CgnsNodeLabel::Base => CgnsNodeLabel::Base,
            CgnsNodeLabel::SimulationType => CgnsNodeLabel::SimulationType,
            CgnsNodeLabel::Descriptor => CgnsNodeLabel::Descriptor,
            CgnsNodeLabel::Ordinal => CgnsNodeLabel::Ordinal,
            CgnsNodeLabel::Custom(s) => CgnsNodeLabel::Custom(s.clone()),
        }
    }
}

impl PartialEq for CgnsNodeLabel {
    fn eq(&self, other: &Self) -> (r: bool) {
        match (self, other) {
            (CgnsNodeLabel::Zone, CgnsNodeLabel::Zone) => true,
            (CgnsNodeLabel::Base, CgnsNodeLabel::Base) => true,
            (CgnsNodeLabel::SimulationType, CgnsNodeLabel::SimulationType) => true,
            (CgnsNodeLabel::Descriptor, CgnsNodeLabel::Descriptor) => true,
            (CgnsNodeLabel::Ordinal, CgnsNodeLabel::Ordinal) => true,
            (CgnsNodeLabel::Custom(x), CgnsNodeLabel::Custom(y)) => *x == *y,
            _ => false,
        }
    }
}

impl vstd::std_specs::cmp::PartialEqSpecImpl for CgnsNodeLabel {
    open spec fn obeys_eq_spec() -> bool {
        true
    }

    open spec fn eq_spec(&self, other: &Self) -> bool {
        label_eqv(*self, *other)
    }
}

/// The node list of a path: root-to-leaf order, each element a label and a
/// 1-based sibling index (0 for singleton children).
pub type CgnsPathNodes = Vec<(CgnsNodeLabel, i32)>;

/// The location of a node: the file it lives in, the base under that file,
/// and the labeled, indexed steps below the base. An empty node list
/// denotes the base node itself.
#[derive(Debug)]
pub struct CgnsPath {
    pub file_number: i32,
    pub base_index: i32,
    pub nodes: CgnsPathNodes,
}

/// Node-list equivalence: same length, and label-equivalent steps with
/// equal indices throughout.
pub open spec fn path_nodes_eqv(a: Seq<(CgnsNodeLabel, i32)>, b: Seq<(CgnsNodeLabel, i32)>) -> bool {
    a.len() == b.len() && forall|i: int|
        0 <= i < a.len() ==> label_eqv(#[trigger] a[i].0, b[i].0) && a[i].1 == b[i].1
}

/// Structural path equality, with custom labels compared by their
/// characters. This is what `==` on paths means in contracts.
pub open spec fn path_eqv(a: CgnsPath, b: CgnsPath) -> bool {
    &&& a.file_number == b.file_number
    &&& a.base_index == b.base_index
    &&& path_nodes_eqv(a.nodes@, b.nodes@)
}

impl CgnsPath {
    /// The path of the node's parent: the same path with the last element
    /// removed, or nothing when the path already denotes the base node.
    pub fn parent(&self) -> (r: Option<CgnsPath>)
        ensures
            self.nodes@.len() == 0 ==> r is None,
            self.nodes@.len() > 0 ==> (r matches Some(p)
                && p.file_number == self.file_number
                && p.base_index == self.base_index
                && p.nodes@ == self.nodes@.drop_last()),
    {
        if self.nodes.len() == 0 {
            None
        } else {
            let mut parent = self.clone();
            parent.nodes.pop();
            proof {
                assert(parent.nodes@ =~= self.nodes@.drop_last());
            }
            Some(parent)
        }
    }
}

impl Clone for CgnsPath {
    fn clone(&self) -> (r: Self)
        ensures
            r.file_number == self.file_number,
            r.base_index == self.base_index,
            r.nodes@ == self.nodes@,
    {
        let mut nodes: Vec<(CgnsNodeLabel, i32)> = Vec::new();
        let mut i: usize = 0;
        while i < self.nodes.len()
            invariant
                0 <= i <= self.nodes@.len(),
                nodes@ == self.nodes@.subrange(0, i as int),
            decreases self.nodes@.len() - i,
        {
            let (l, x) = &self.nodes[i];
            nodes.push((l.clone(), *x));
            proof {
                assert(nodes@ =~= self.nodes@.subrange(0, i + 1 as int));
            }
            i += 1;
        }
        proof {
            assert(nodes@ =~= self.nodes@);
        }
        CgnsPath { file_number: self.file_number, base_index: self.base_index, nodes }
    }
}

impl PartialEq for CgnsPath {
    fn eq(&self, other: &Self) -> (r: bool) {
        if self.file_number != other.file_number || self.base_index != other.base_index {
            return false;
        }
        if self.nodes.len() != other.nodes.len() {
            return false;
        }
        let n = self.nodes.len();
        let mut i: usize = 0;
        while i < n
            invariant
                0 <= i <= n,
                n == self.nodes@.len() == other.nodes@.len(),
                self.file_number == other.file_number,
                self.base_index == other.base_index,
                forall|j: int| 0 <= j < i ==> label_eqv(#[trigger] self.nodes@[j].0, other.nodes@[j].0)
                    && self.nodes@[j].1 == other.nodes@[j].1,
            decreases n - i,
        {
            let (la, xa) = &self.nodes[i];
            let (lb, xb) = &other.nodes[i];
            if !(la == lb) || *xa != *xb {
                return false;
            }
            i += 1;
        }
        true
    }
}

impl vstd::std_specs::cmp::PartialEqSpecImpl for CgnsPath {
    open spec fn obeys_eq_spec() -> bool {
        true
    }

    open spec fn eq_spec(&self, other: &Self) -> bool {
        path_eqv(*self, *other)
    }
}

/// The mode a file is opened with.
#[derive(Clone, Copy, Debug, PartialEq, Eq, Structural)]
pub enum CgnsOpenMode {
    Read,
    Write,
    Modify,
}

/// The on-disk encoding a store is saved under. The encoding itself
/// belongs to the external library; this layer only passes the choice
/// along.
#[derive(Clone, Copy, Debug, PartialEq, Eq, Structural)]
pub enum CgnsFileType {
    ADF,
    ADF2,
    HDF5,
    NONE,
}

} // verus!
