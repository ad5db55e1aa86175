//! How the nodes of the memory are linked.

use vstd::prelude::*;

verus! {

/// What a node is to the one that it is linked from.
#[derive(Debug)]
pub struct Link {
    pub relationship: String,
    /// How strong the link is, as the bits of a double.
    pub strength: u64,
}

/// The bits of the double 1.
pub const CONTAINS_STRENGTH: u64 = 0x3ff0_0000_0000_0000;

/// The bits of the double 0.72.
pub const IMPORTS_STRENGTH: u64 = 0x3fe7_0a3d_70a3_d70a;

/// The bits of the double 0.3.
pub const RELATES_STRENGTH: u64 = 0x3fd3_3333_3333_3333;

/// What a project has to its tasks, and a file to its chunks.
pub const CONTAINS: &'static str = "contains";

/// What a file has to what it needs.
pub const IMPORTS: &'static str = "imports";

/// What nodes have to each other that were used together.
pub const RELATES_TO: &'static str = "relates_to";

impl Link {
    /// The link has a relationship and a strength.
    pub open spec fn is_link(&self, relationship: Seq<char>, strength: u64) -> bool {
        self.relationship@ == relationship && self.strength == strength
    }

    /// The link to a part.
    pub fn contains() -> (r: Link)
        ensures
            r.is_link(CONTAINS@, CONTAINS_STRENGTH),
    {
        Link { relationship: CONTAINS.to_owned(), strength: CONTAINS_STRENGTH }
    }

    /// The link to what is needed.
    pub fn imports() -> (r: Link)
        ensures
            r.is_link(IMPORTS@, IMPORTS_STRENGTH),
    {
        Link { relationship: IMPORTS.to_owned(), strength: IMPORTS_STRENGTH }
    }

    /// The link to what was used too.
    pub fn relates_to() -> (r: Link)
        ensures
            r.is_link(RELATES_TO@, RELATES_STRENGTH),
    {
        Link { relationship: RELATES_TO.to_owned(), strength: RELATES_STRENGTH }
    }
}

} // verus!
