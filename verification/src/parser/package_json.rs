//! The manifest shape handed to the engine by the loading collaborator.

use vstd::prelude::*;

verus! {

/// A parsed package manifest. Every field is optional; map-shaped fields
/// are held as key/value pairs in their original order, keys unique.
/// Only the `scripts` entries named `preinstall`, `install` or
/// `postinstall` are read by the engine.
#[derive(Debug, Clone)]
pub struct PackageJson {
    pub name: Option<String>,
    pub version: Option<String>,
    pub scripts: Option<Vec<(String, String)>>,
    pub dependencies: Option<Vec<(String, String)>>,
    pub dev_dependencies: Option<Vec<(String, String)>>,
}

} // verus!
