//! The packages that a project can build.

use vstd::prelude::*;

verus! {

/// A package that can be built.
#[derive(Debug, PartialEq, Eq)]
pub struct PackageTarget {
    pub name: String,
    pub kind: PackageTargetKind,
}

/// What a package is built from.
#[derive(Debug, PartialEq, Eq)]
pub enum PackageTargetKind {
    /// A Nix expression.
    ExpressionBuild(ExpressionBuildMetadata),
    /// A command in the manifest, with the sandbox mode that it declares, if any.
    ManifestBuild { sandbox: Option<String> },
}

/// Where the expression of a package is.
#[derive(Debug, PartialEq, Eq)]
pub struct ExpressionBuildMetadata {
    /// The expression file, relative to the directory of the expressions.
    pub rel_file_path: Vec<u8>,
}

impl PackageTargetKind {
    /// Whether the package is built by a command in the manifest.
    pub fn is_manifest_build(&self) -> (manifest: bool)
        ensures
            manifest == (self is ManifestBuild),
    {
        match self {
            PackageTargetKind::ManifestBuild { .. } => true,
            PackageTargetKind::ExpressionBuild(_) => false,
        }
    }
}

} // verus!
