//! The data model of the lockfile: one record per installed package,
//! and the collection of all records keyed by installation path.

use vstd::prelude::*;

verus! {

/// One entry of the lockfile mapping: a package descriptor. The
/// dependency maps carry name-to-version-range pairs; the download
/// core reads only `version` and `resolved`.
#[derive(Debug, Clone)]
pub struct Package {
    pub name: Option<String>,
    pub version: String,
    pub license: Option<String>,
    pub dependencies: Option<Vec<(String, String)>>,
    pub dev_dependencies: Option<Vec<(String, String)>>,
    /// The tarball download location; every non-root record that a
    /// download task runs for must carry one.
    pub resolved: Option<String>,
    pub integrity: Option<String>,
    pub dev: Option<bool>,
    pub peer_dependencies: Option<Vec<(String, String)>>,
    pub optional_dependencies: Option<Vec<(String, String)>>,
    pub peer: Option<bool>,
}

/// The decoded lockfile: its header fields and the mapping from path
/// key to package record. The entry with the empty path key is the
/// synthetic root record.
#[derive(Debug, Clone)]
pub struct PackageLock {
    pub name: String,
    pub version: String,
    pub lockfile_version: i64,
    pub requires_flag: bool,
    /// The package mapping, as a sequence of key-record pairs; a
    /// well-formed lockfile binds each path key once, and iteration
    /// order carries no meaning.
    pub packages: Vec<(String, Package)>,
}

impl PackageLock {
    /// Well-formedness: path keys identify records uniquely.
    pub open spec fn wf(self) -> bool {
        forall|i: int, j: int|
            0 <= i < j < self.packages@.len() ==> (#[trigger] self.packages@[i]).0@ != (
            #[trigger] self.packages@[j]).0@
    }
}

/// Engine version requirements a record may declare; carried through,
/// never read by the download core.
#[derive(Debug, Clone)]
pub struct Engines {
    pub node: String,
    pub npm: Option<String>,
    pub iojs: Option<String>,
}

} // verus!
