//! Package references: opaque identifiers for build-time dependencies, and
//! the pinned package-archive revision used when a newer toolchain release is
//! requested by configuration.

use vstd::prelude::*;

verus! {

/// The package-archive revision that carries the latest Deno release; a
/// truthy archive-pin flag makes the setup phase override its default archive
/// with this one.
pub const NIXPACKS_ARCHIVE_LATEST_DENO: &'static str =
    "bc8f8d1be58e8c8383e683a06e1e1e57893fff87";

/// A build-time package requirement, identified by name alone; two references
/// are equal exactly when their names are.
#[derive(Debug)]
pub struct Pkg {
    pub name: String,
}

impl Pkg {
    pub fn new(name: &str) -> (p: Pkg)
        ensures
            p.name@ == name@,
    {
        Pkg { name: name.to_owned() }
    }
}

impl PartialEq for Pkg {
    fn eq(&self, other: &Pkg) -> (r: bool) {
        self.name == other.name
    }
}

impl vstd::std_specs::cmp::PartialEqSpecImpl for Pkg {
    open spec fn obeys_eq_spec() -> bool {
        true
    }

    open spec fn eq_spec(&self, other: &Pkg) -> bool {
        self.name@ == other.name@
    }
}

/// The set of packages one provider asks the build environment for.
#[derive(Debug)]
pub struct NixConfig {
    pub pkgs: Vec<Pkg>,
}

impl NixConfig {
    pub fn new(pkgs: Vec<Pkg>) -> (c: NixConfig)
        ensures
            c.pkgs == pkgs,
    {
        NixConfig { pkgs }
    }
}

} // verus!
