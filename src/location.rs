use vstd::prelude::*;
use crate::features::FeatureSet;

verus! {

/// Where a native artifact's headers and binaries live.
#[derive(Clone, Debug)]
pub struct LibraryLocation {
    /// Directory of the C headers.
    pub inc_dir: Option<String>,
    /// Directory of the compiled libraries.
    pub lib_dir: Option<String>,
}

impl LibraryLocation {
    /// A location that knows neither directory.
    pub fn unknown() -> (r: LibraryLocation)
        ensures
            r.inc_dir is None,
            r.lib_dir is None,
    {
        LibraryLocation { inc_dir: None, lib_dir: None }
    }
}

/// Copies an optional directory.
pub fn copy_dir(d: &Option<String>) -> (r: Option<String>)
    ensures
        r == *d,
{
    match d {
        Some(s) => Some(s.clone()),
        None => None,
    }
}

/// Standard header directory of the sparse solver on Debian-like systems,
/// tried when nothing else named one.
pub fn sparse_header_fallback() -> (r: String)
    ensures
        r@ == "/usr/include/suitesparse"@,
{
    String::from_str("/usr/include/suitesparse")
}

/// Standard library directory of the sparse solver on Debian-like systems,
/// tried when nothing else named one.
pub fn sparse_library_fallback() -> (r: String)
    ensures
        r@ == "/usr/lib/x86_64-linux-gnu"@,
{
    String::from_str("/usr/lib/x86_64-linux-gnu")
}

/// What the sparse-solver locator wants to learn next.
#[derive(Clone, Copy, Debug, PartialEq, Eq, Structural)]
pub enum SparseStep {
    /// Ask the package-metadata tool for the solver's paths.
    QueryPackage,
    /// Read the explicit override variables.
    ReadOverrides,
    /// Test whether the standard header directory exists.
    CheckHeaderFallback,
    /// Test whether the standard library directory exists.
    CheckLibraryFallback,
    /// Nothing more to learn.
    Done,
}

/// Discovery of the sparse-direct solver's directories, one probe at a time.
/// The caller performs the probe that `step` names and reports its outcome.
#[derive(Clone, Debug)]
pub struct SparseLocator {
    /// Whether sparse-solver support was requested at all.
    pub enabled: bool,
    pub step: SparseStep,
    /// What has been found so far.
    pub found: LibraryLocation,
}

pub open spec fn first_of(s: Seq<String>) -> Option<String> {
    if s.len() > 0 {
        Some(s[0])
    } else {
        None
    }
}

/// The probe that follows once the overrides are known.
pub open spec fn step_after(found: LibraryLocation) -> SparseStep {
    if found.inc_dir is None {
        SparseStep::CheckHeaderFallback
    } else if found.lib_dir is None {
        SparseStep::CheckLibraryFallback
    } else {
        SparseStep::Done
    }
}

pub open spec fn initial_locator(f: FeatureSet) -> SparseLocator {
    SparseLocator {
        enabled: f.klu,
        step: if f.klu {
            SparseStep::QueryPackage
        } else {
            SparseStep::Done
        },
        found: LibraryLocation { inc_dir: None, lib_dir: None },
    }
}

pub open spec fn after_package(l: SparseLocator, incs: Seq<String>, links: Seq<String>) -> SparseLocator {
    SparseLocator {
        enabled: l.enabled,
        step: SparseStep::ReadOverrides,
        found: LibraryLocation { inc_dir: first_of(incs), lib_dir: first_of(links) },
    }
}

pub open spec fn after_overrides(l: SparseLocator, inc: Option<String>, lib: Option<String>) -> SparseLocator {
    let found = LibraryLocation {
        inc_dir: if inc is Some { inc } else { l.found.inc_dir },
        lib_dir: if lib is Some { lib } else { l.found.lib_dir },
    };
    SparseLocator { enabled: l.enabled, step: step_after(found), found }
}

pub open spec fn after_header_fallback(l: SparseLocator, path: String, exists: bool) -> SparseLocator {
    SparseLocator {
        enabled: l.enabled,
        step: if l.found.lib_dir is None {
            SparseStep::CheckLibraryFallback
        } else {
            SparseStep::Done
        },
        found: LibraryLocation {
            inc_dir: if exists { Some(path) } else { l.found.inc_dir },
            lib_dir: l.found.lib_dir,
        },
    }
}

pub open spec fn after_library_fallback(l: SparseLocator, path: String, exists: bool) -> SparseLocator {
    SparseLocator {
        enabled: l.enabled,
        step: SparseStep::Done,
        found: LibraryLocation {
            inc_dir: l.found.inc_dir,
            lib_dir: if exists { Some(path) } else { l.found.lib_dir },
        },
    }
}

pub open spec fn needs_warning_spec(l: SparseLocator) -> bool {
    l.enabled && l.step == SparseStep::Done && l.found.inc_dir is None
}

impl SparseLocator {
    /// Starts discovery; with sparse support off there is nothing to probe.
    pub fn start(f: &FeatureSet) -> (r: SparseLocator)
        ensures
            r == initial_locator(*f),
    {
        SparseLocator {
            enabled: f.klu,
            step: if f.klu {
                SparseStep::QueryPackage
            } else {
                SparseStep::Done
            },
            found: LibraryLocation::unknown(),
        }
    }

    /// Records the package-metadata answer: the first reported header and link
    /// paths, if any (a failed query reports none).
    pub fn record_package(&mut self, incs: &Vec<String>, links: &Vec<String>)
        requires
            old(self).step == SparseStep::QueryPackage,
        ensures
            *final(self) == after_package(*old(self), incs@, links@),
    {
        let inc_dir = if incs.len() > 0 {
            Some(incs[0].clone())
        } else {
            None
        };
        let lib_dir = if links.len() > 0 {
            Some(links[0].clone())
        } else {
            None
        };
        self.found = LibraryLocation { inc_dir, lib_dir };
        self.step = SparseStep::ReadOverrides;
    }

    /// Records the explicit override variables; each one that is set replaces
    /// what the package metadata said.
    pub fn record_overrides(&mut self, inc: Option<String>, lib: Option<String>)
        requires
            old(self).step == SparseStep::ReadOverrides,
        ensures
            *final(self) == after_overrides(*old(self), inc, lib),
    {
        if inc.is_some() {
            self.found.inc_dir = inc;
        }
        if lib.is_some() {
            self.found.lib_dir = lib;
        }
        self.step = if self.found.inc_dir.is_none() {
            SparseStep::CheckHeaderFallback
        } else if self.found.lib_dir.is_none() {
            SparseStep::CheckLibraryFallback
        } else {
            SparseStep::Done
        };
    }

    /// Records whether the standard header directory `path` exists.
    pub fn record_header_fallback(&mut self, path: String, exists: bool)
        requires
            old(self).step == SparseStep::CheckHeaderFallback,
        ensures
            *final(self) == after_header_fallback(*old(self), path, exists),
    {
        if exists {
            self.found.inc_dir = Some(path);
        }
        self.step = if self.found.lib_dir.is_none() {
            SparseStep::CheckLibraryFallback
        } else {
            SparseStep::Done
        };
    }

    /// Records whether the standard library directory `path` exists.
    pub fn record_library_fallback(&mut self, path: String, exists: bool)
        requires
            old(self).step == SparseStep::CheckLibraryFallback,
        ensures
            *final(self) == after_library_fallback(*old(self), path, exists),
    {
        if exists {
            self.found.lib_dir = Some(path);
        }
        self.step = SparseStep::Done;
    }

    /// Whether discovery ended without a header directory, which deserves a
    /// warning that points at the override variable.
    pub fn needs_warning(&self) -> (r: bool)
        ensures
            r == needs_warning_spec(*self),
    {
        self.enabled && self.step == SparseStep::Done && self.found.inc_dir.is_none()
    }

    /// The directories found so far.
    pub fn location(&self) -> (r: LibraryLocation)
        ensures
            r == self.found,
    {
        LibraryLocation {
            inc_dir: copy_dir(&self.found.inc_dir),
            lib_dir: copy_dir(&self.found.lib_dir),
        }
    }
}

/// With sparse support off, discovery starts finished: nothing is probed,
/// nothing is found and no warning is due.
pub proof fn lemma_sparse_disabled_probes_nothing(f: FeatureSet)
    requires
        !f.klu,
    ensures
        initial_locator(f).step == SparseStep::Done,
        initial_locator(f).found.inc_dir is None,
        initial_locator(f).found.lib_dir is None,
        !needs_warning_spec(initial_locator(f)),
{
}

/// Explicit overrides win over whatever the package metadata reported.
pub proof fn lemma_overrides_take_precedence(
    f: FeatureSet,
    incs: Seq<String>,
    links: Seq<String>,
    inc: String,
    lib: String,
)
    requires
        f.klu,
    ensures
        after_overrides(after_package(initial_locator(f), incs, links), Some(inc), None).found.inc_dir
            == Some(inc),
        after_overrides(after_package(initial_locator(f), incs, links), None, Some(lib)).found.lib_dir
            == Some(lib),
        after_overrides(after_package(initial_locator(f), incs, links), Some(inc), Some(lib)).found
            == (LibraryLocation { inc_dir: Some(inc), lib_dir: Some(lib) }),
        after_overrides(after_package(initial_locator(f), incs, links), Some(inc), Some(lib)).step
            == SparseStep::Done,
{
}

} // verus!
