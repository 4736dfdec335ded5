//! Typed shapes of the two JSON payloads the package index serves: the
//! package-detail document and the search-result document. Values are built
//! by the caller from a decoded response and read by the formatter.

use vstd::prelude::*;

verus! {

/// One version entry of a repository's version listing. An entry is shown to
/// the user only when it claims to carry a version and that version string is
/// non-empty.
pub struct Meta {
    pub hasmeta: bool,
    pub version: String,
}

/// The version listing of one repository/branch: its identifier and the
/// entries in the order the service returned them. Order matters: only the
/// first displayable entry is ever rendered.
pub struct Version {
    pub repo: String,
    pub meta: Vec<Meta>,
}

/// A package-detail document: name, description, and the per-repository
/// version matrix in service order.
pub struct Pkg {
    pub name: String,
    pub description: String,
    pub version_matrix: Vec<Version>,
}

/// One package reference inside a search result.
pub struct SearchPackage {
    pub name: String,
}

/// A search-result document: the matching packages in service order. No
/// re-sorting happens anywhere in this crate.
pub struct SearchResult {
    pub packages: Vec<SearchPackage>,
}

impl SearchResult {
    /// True exactly when the search matched nothing; the router uses this to
    /// send a "no matches" message instead of rendering an empty listing.
    pub fn is_empty(&self) -> (r: bool)
        ensures
            r == (self.packages@.len() == 0),
    {
        self.packages.len() == 0
    }
}

/// A version entry is displayable when it claims a version and the version
/// string is non-empty.
pub open spec fn shows(m: Meta) -> bool {
    m.hasmeta && m.version@.len() > 0
}

} // verus!
