use vstd::prelude::*;
use crate::features::{FeatureSet, LibraryKind, kind_of};
use crate::location::LibraryLocation;

verus! {

/// Oldest major version of the native library whose bindings are accepted.
pub const MIN_ACCEPTED_VERSION: u32 = 6;

/// Where the first attempt takes the native library from.
#[derive(Clone, Copy, Debug, PartialEq, Eq, Structural)]
pub enum SystemSource {
    /// Build the bundled sources right away.
    Vendor,
    /// Use the directories named explicitly (possibly none).
    Explicit,
    /// Ask the platform's package manager.
    PackageManager,
}

pub open spec fn system_source_spec(
    f: FeatureSet,
    vendoring_target: bool,
    explicit: LibraryLocation,
    has_package_manager: bool,
) -> SystemSource {
    if f.build_libraries || vendoring_target {
        SystemSource::Vendor
    } else if explicit.inc_dir is None && explicit.lib_dir is None && has_package_manager {
        SystemSource::PackageManager
    } else {
        SystemSource::Explicit
    }
}

/// Chooses where to look for the native library first: the bundled sources
/// when they are forced (by feature or by a target that needs them), the
/// package manager when nothing was named and the platform has one, else the
/// explicitly named directories.
pub fn system_source(
    f: &FeatureSet,
    vendoring_target: bool,
    explicit: &LibraryLocation,
    has_package_manager: bool,
) -> (r: SystemSource)
    ensures
        r == system_source_spec(*f, vendoring_target, *explicit, has_package_manager),
{
    if f.build_libraries || vendoring_target {
        SystemSource::Vendor
    } else if explicit.inc_dir.is_none() && explicit.lib_dir.is_none() && has_package_manager {
        SystemSource::PackageManager
    } else {
        SystemSource::Explicit
    }
}

pub open spec fn first_kind_spec(f: FeatureSet, source: SystemSource) -> LibraryKind {
    if source == SystemSource::Vendor {
        kind_of(f)
    } else {
        LibraryKind::Dynamic
    }
}

/// The linking mode assumed for the first attempt: a vendor build follows the
/// static-library switch, a system library is taken as dynamic.
pub fn first_kind(f: &FeatureSet, source: SystemSource) -> (r: LibraryKind)
    ensures
        r == first_kind_spec(*f, source),
{
    if source == SystemSource::Vendor {
        crate::features::library_kind(f)
    } else {
        LibraryKind::Dynamic
    }
}

/// Progress of the resolution.
#[derive(Clone, Copy, Debug, PartialEq, Eq, Structural)]
pub enum Stage {
    /// Bindings are being made from the system (or first) location.
    ProbingSystem,
    /// The bundled sources are being built and bindings made from them.
    BuildingVendor,
    /// Bindings of an accepted major version exist.
    Resolved { version: u32 },
    /// Even the bundled sources gave no usable bindings.
    Unrecoverable,
}

/// What one attempt at generating bindings gave.
#[derive(Clone, Copy, Debug, PartialEq, Eq, Structural)]
pub enum Attempt {
    /// The binding generator failed.
    GenerationFailed,
    /// Bindings were written; the major version read from them, if any.
    Generated { version: Option<u32> },
}

pub open spec fn accepted(a: Attempt) -> bool {
    match a {
        Attempt::Generated { version: Some(v) } => v >= MIN_ACCEPTED_VERSION,
        _ => false,
    }
}

pub open spec fn next_stage_spec(stage: Stage, a: Attempt) -> Stage {
    match a {
        Attempt::Generated { version: Some(v) } if v >= MIN_ACCEPTED_VERSION => Stage::Resolved {
            version: v,
        },
        _ => if stage == Stage::ProbingSystem {
            Stage::BuildingVendor
        } else {
            Stage::Unrecoverable
        },
    }
}

/// The stage after an attempt: an accepted version resolves; otherwise the
/// first attempt falls back to the bundled sources and the second one fails
/// for good.
pub fn next_stage(stage: Stage, a: Attempt) -> (r: Stage)
    requires
        stage == Stage::ProbingSystem || stage == Stage::BuildingVendor,
    ensures
        r == next_stage_spec(stage, a),
{
    match a {
        Attempt::Generated { version: Some(v) } if v >= MIN_ACCEPTED_VERSION => Stage::Resolved {
            version: v,
        },
        _ => if stage == Stage::ProbingSystem {
            Stage::BuildingVendor
        } else {
            Stage::Unrecoverable
        },
    }
}

/// A system library whose bindings are missing, unreadable or older than
/// version 6 always leads to a vendor build, and the outcome is then exactly
/// what the vendor bindings give: their version, if it is at least 6, or a
/// fatal stop.
pub proof fn lemma_rejected_system_defers_to_vendor(first: Attempt, vendor: Attempt)
    requires
        !accepted(first),
    ensures
        next_stage_spec(Stage::ProbingSystem, first) == Stage::BuildingVendor,
        match next_stage_spec(Stage::BuildingVendor, vendor) {
            Stage::Resolved { version } => vendor == (Attempt::Generated { version: Some(version) })
                && version >= MIN_ACCEPTED_VERSION,
            Stage::Unrecoverable => !accepted(vendor),
            _ => false,
        },
{
}

/// Resolution never needs more than two attempts, and it resolves only to an
/// accepted version.
pub proof fn lemma_resolution_ends_after_two_attempts(first: Attempt, second: Attempt)
    ensures
        match next_stage_spec(Stage::ProbingSystem, first) {
            Stage::Resolved { version } => version >= MIN_ACCEPTED_VERSION,
            Stage::BuildingVendor => match next_stage_spec(Stage::BuildingVendor, second) {
                Stage::Resolved { version } => version >= MIN_ACCEPTED_VERSION,
                Stage::Unrecoverable => true,
                _ => false,
            },
            _ => false,
        },
{
}

} // verus!
