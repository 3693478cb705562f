//! The catalog data model: OS entries and their acquirable
//! configurations.
//!
//! Catalog data is supplied by an external provider and is immutable
//! once loaded.

use vstd::prelude::*;
use crate::arch::Arch;

verus! {

/// One concrete (release, edition, architecture) combination that can
/// be acquired for an OS entry.
#[derive(Debug)]
pub struct ReleaseConfig {
    pub release: String,
    pub edition: Option<String>,
    pub arch: Arch,
}

/// Mathematical image of a [`ReleaseConfig`].
pub struct ReleaseConfigView {
    pub release: Seq<char>,
    pub edition: Option<Seq<char>>,
    pub arch: Arch,
}

impl DeepView for ReleaseConfig {
    type V = ReleaseConfigView;

    open spec fn deep_view(&self) -> ReleaseConfigView {
        (ReleaseConfigView {
            release: self.release.deep_view(),
            edition: self.edition.deep_view(),
            arch: self.arch,
        })
    }
}

impl ReleaseConfig {
    /// A copy whose contents equal this configuration's.
    pub fn duplicate(&self) -> (r: ReleaseConfig)
        ensures
            r.deep_view() == self.deep_view(),
    {
        ReleaseConfig {
            release: self.release.clone(),
            edition: crate::text::opt_string_clone(&self.edition),
            arch: self.arch,
        }
    }
}

/// One catalog item: an operating system together with all its
/// acquirable configuration variants.
#[derive(Debug)]
pub struct OsEntry {
    pub name: String,
    pub pretty_name: String,
    pub homepage: Option<String>,
    pub releases: Vec<ReleaseConfig>,
}

/// Mathematical image of an [`OsEntry`].
pub struct OsEntryView {
    pub name: Seq<char>,
    pub pretty_name: Seq<char>,
    pub homepage: Option<Seq<char>>,
    pub releases: Seq<ReleaseConfigView>,
}

impl DeepView for OsEntry {
    type V = OsEntryView;

    open spec fn deep_view(&self) -> OsEntryView {
        (OsEntryView {
            name: self.name.deep_view(),
            pretty_name: self.pretty_name.deep_view(),
            homepage: self.homepage.deep_view(),
            releases: self.releases.deep_view(),
        })
    }
}

} // verus!
