use sundials_build::features::{library_kind, FeatureSet, LibraryKind};
use sundials_build::link::{link_libraries, NativeLib};
use sundials_build::location::{
    sparse_header_fallback, sparse_library_fallback, LibraryLocation, SparseLocator, SparseStep,
};
use sundials_build::resolve::{first_kind, next_stage, system_source, Attempt, Stage, SystemSource};
use sundials_build::sniff::sniff_version_major;
use sundials_build::codegen::{
    classify_integer_constant, should_ignore_macro, binding_args, IntegerKind,
};
use sundials_build::vendor::{vendor_config, vendor_location};

fn no_features() -> FeatureSet {
    FeatureSet {
        arkode: false,
        cvode: false,
        cvodes: false,
        ida: false,
        idas: false,
        kinsol: false,
        klu: false,
        nvecopenmp: false,
        nvecpthreads: false,
        static_libraries: false,
        build_libraries: false,
    }
}

fn strings(v: &[&str]) -> Vec<String> {
    v.iter().map(|s| s.to_string()).collect()
}

#[test]
fn kind_follows_static_switch() {
    let mut f = no_features();
    assert_eq!(library_kind(&f), LibraryKind::Dynamic);
    assert_eq!(library_kind(&f).link_word(), "dylib");
    f.static_libraries = true;
    assert_eq!(library_kind(&f), LibraryKind::Static);
    assert_eq!(library_kind(&f).link_word(), "static");
    f.cvode = true;
    f.klu = true;
    assert_eq!(library_kind(&f), LibraryKind::Static);
}

#[test]
fn sniff_finds_version_after_false_starts() {
    let text = b"// SUN SUNDIALS_VERSION SUNDIALS_X\npub const SUNDIALS_VERSION_MAJOR : u32 = 7 ;\npub const SUNDIALS_VERSION_MINOR : u32 = 1 ;";
    assert_eq!(sniff_version_major(text), Some(7));
}

#[test]
fn sniff_without_marker_is_none() {
    assert_eq!(sniff_version_major(b"pub const CV_ADAMS : u32 = 1 ;"), None);
    assert_eq!(sniff_version_major(b""), None);
    assert_eq!(sniff_version_major(b"SUNDIALS_VERSION_MAJO"), None);
}

#[test]
fn sniff_marker_without_digits_is_none() {
    assert_eq!(sniff_version_major(b"SUNDIALS_VERSION_MAJOR : abc ; xyz"), None);
    assert_eq!(sniff_version_major(b"SUNDIALS_VERSION_MAJOR = ;"), None);
    assert_eq!(sniff_version_major(b"SUNDIALS_VERSION_MAJOR 7"), None);
}

#[test]
fn sniff_ignores_padding_before_digits() {
    assert_eq!(sniff_version_major(b"SUNDIALS_VERSION_MAJOR=6"), Some(6));
    assert_eq!(sniff_version_major(b"SUNDIALS_VERSION_MAJOR : u32 =\n\t  (12);"), Some(12));
    assert_eq!(sniff_version_major(b"SUNDIALS_VERSION_MAJOR: i32 = -x 0005 ;"), Some(5));
}

#[test]
fn sniff_restarts_after_mismatched_byte() {
    // The `S` that broke the first attempt is consumed with it.
    assert_eq!(sniff_version_major(b"SUNDISUNDIALS_VERSION_MAJOR = 5"), None);
    assert_eq!(sniff_version_major(b"SUNDIXSUNDIALS_VERSION_MAJOR = 5"), Some(5));
}

#[test]
fn sniff_rejects_version_beyond_u32() {
    assert_eq!(sniff_version_major(b"SUNDIALS_VERSION_MAJOR = 4294967295;"), Some(4294967295));
    assert_eq!(sniff_version_major(b"SUNDIALS_VERSION_MAJOR = 4294967296;"), None);
}

#[test]
fn sparse_locator_disabled_probes_nothing() {
    let l = SparseLocator::start(&no_features());
    assert_eq!(l.step, SparseStep::Done);
    assert!(!l.needs_warning());
    let loc = l.location();
    assert_eq!(loc.inc_dir, None);
    assert_eq!(loc.lib_dir, None);
}

#[test]
fn sparse_overrides_beat_package_metadata() {
    let mut f = no_features();
    f.klu = true;
    let mut l = SparseLocator::start(&f);
    assert_eq!(l.step, SparseStep::QueryPackage);
    l.record_package(&strings(&["/pkg/inc", "/pkg/inc2"]), &strings(&["/pkg/lib"]));
    assert_eq!(l.step, SparseStep::ReadOverrides);
    assert_eq!(l.found.inc_dir.as_deref(), Some("/pkg/inc"));
    l.record_overrides(Some("/env/inc".to_string()), Some("/env/lib".to_string()));
    assert_eq!(l.step, SparseStep::Done);
    assert_eq!(l.found.inc_dir.as_deref(), Some("/env/inc"));
    assert_eq!(l.found.lib_dir.as_deref(), Some("/env/lib"));
    assert!(!l.needs_warning());
}

#[test]
fn sparse_falls_back_to_standard_paths() {
    let mut f = no_features();
    f.klu = true;
    let mut l = SparseLocator::start(&f);
    l.record_package(&Vec::new(), &strings(&["/pkg/lib"]));
    l.record_overrides(None, None);
    assert_eq!(l.step, SparseStep::CheckHeaderFallback);
    l.record_header_fallback(sparse_header_fallback(), true);
    assert_eq!(l.step, SparseStep::Done);
    assert_eq!(l.found.inc_dir.as_deref(), Some("/usr/include/suitesparse"));
    assert_eq!(l.found.lib_dir.as_deref(), Some("/pkg/lib"));
}

#[test]
fn sparse_warns_when_headers_stay_unknown() {
    let mut f = no_features();
    f.klu = true;
    let mut l = SparseLocator::start(&f);
    l.record_package(&Vec::new(), &Vec::new());
    l.record_overrides(None, None);
    l.record_header_fallback(sparse_header_fallback(), false);
    assert_eq!(l.step, SparseStep::CheckLibraryFallback);
    assert!(!l.needs_warning());
    l.record_library_fallback(sparse_library_fallback(), true);
    assert_eq!(l.step, SparseStep::Done);
    assert!(l.needs_warning());
    assert_eq!(l.found.inc_dir, None);
    assert_eq!(l.found.lib_dir.as_deref(), Some("/usr/lib/x86_64-linux-gnu"));
}

#[test]
fn vendor_config_follows_features() {
    let mut f = no_features();
    f.cvode = true;
    f.static_libraries = true;
    let sparse = LibraryLocation { inc_dir: Some("/klu/inc".to_string()), lib_dir: None };
    let c = vendor_config(&f, &sparse);
    let got: Vec<(&str, &str)> = c.iter().map(|(k, v)| (k.as_str(), v.as_str())).collect();
    assert_eq!(
        got,
        vec![
            ("CMAKE_INSTALL_LIBDIR", "lib"),
            ("BUILD_STATIC_LIBS", "ON"),
            ("BUILD_SHARED_LIBS", "OFF"),
            ("BUILD_TESTING", "OFF"),
            ("EXAMPLES_INSTALL", "OFF"),
            ("EXAMPLES_ENABLE_C", "OFF"),
            ("BUILD_ARKODE", "OFF"),
            ("BUILD_CVODE", "ON"),
            ("BUILD_CVODES", "OFF"),
            ("BUILD_IDA", "OFF"),
            ("BUILD_IDAS", "OFF"),
            ("BUILD_KINSOL", "OFF"),
            ("ENABLE_KLU", "OFF"),
            ("OPENMP_ENABLE", "OFF"),
            ("PTHREAD_ENABLE", "OFF"),
            ("KLU_INCLUDE_DIR", "/klu/inc"),
        ]
    );
    let shared = vendor_config(&no_features(), &LibraryLocation::unknown());
    assert_eq!(shared.len(), 15);
    assert_eq!(shared[1].1, "OFF");
    assert_eq!(shared[2].1, "ON");
}

#[test]
fn vendor_location_under_install_root() {
    let loc = vendor_location("/out/build");
    assert_eq!(loc.inc_dir.as_deref(), Some("/out/build/include"));
    assert_eq!(loc.lib_dir.as_deref(), Some("/out/build/lib"));
}

#[test]
fn signed_constant_policy() {
    assert_eq!(classify_integer_constant("CV_ADAMS"), Some(IntegerKind::Int));
    assert_eq!(classify_integer_constant("IDA_SUCCESS"), Some(IntegerKind::Int));
    assert_eq!(classify_integer_constant("KIN_LINESEARCH"), Some(IntegerKind::Int));
    assert_eq!(classify_integer_constant("SUN_PREC_NONE"), Some(IntegerKind::Int));
    assert_eq!(classify_integer_constant("SUN"), Some(IntegerKind::Int));
    assert_eq!(classify_integer_constant("CVLS_SUCCESS"), None);
    assert_eq!(classify_integer_constant("SUNDIALS_VERSION_MAJOR"), None);
    assert_eq!(classify_integer_constant("_CV"), None);
    assert_eq!(classify_integer_constant(""), None);
}

#[test]
fn macro_ignore_policy() {
    assert!(should_ignore_macro("FE_DIVBYZERO"));
    assert!(should_ignore_macro("FP_INT_TONEARESTFROMZERO"));
    assert!(should_ignore_macro("FP_ZERO"));
    assert!(!should_ignore_macro("FP_ZER"));
    assert!(!should_ignore_macro("CV_ADAMS"));
    assert!(!should_ignore_macro(""));
}

#[test]
fn binding_args_search_dirs_then_defines() {
    let mut f = no_features();
    f.cvode = true;
    f.nvecpthreads = true;
    let dirs = vec![Some("/sys/inc".to_string()), None, Some("/klu/inc".to_string())];
    let args = binding_args(&f, &dirs);
    assert_eq!(
        args,
        strings(&[
            "-I/sys/inc",
            "-I/klu/inc",
            "-DUSE_ARKODE=0",
            "-DUSE_CVODE=1",
            "-DUSE_CVODES=0",
            "-DUSE_IDA=0",
            "-DUSE_IDAS=0",
            "-DUSE_KINSOL=0",
            "-DUSE_KLU=0",
            "-DUSE_OPENMP=0",
            "-DUSE_PTHREADS=1",
        ])
    );
}

#[test]
fn link_list_core_only_from_version_seven() {
    let f = no_features();
    let v6 = link_libraries(&f, 6);
    assert_eq!(v6.len(), 13);
    assert!(!v6.contains(&NativeLib::Core));
    let v7 = link_libraries(&f, 7);
    assert_eq!(v7.len(), 14);
    assert_eq!(v7[13], NativeLib::Core);
    assert_eq!(v7[0].name(), "sundials_nvecserial");
    assert_eq!(v7[13].name(), "sundials_core");
}

#[test]
fn link_list_follows_features() {
    let mut f = no_features();
    f.cvode = true;
    f.kinsol = true;
    f.nvecopenmp = true;
    let names: Vec<&str> = link_libraries(&f, 6).iter().map(|l| l.name()).collect();
    assert_eq!(&names[13..], &["sundials_cvode", "sundials_kinsol", "sundials_nvecopenmp"]);
    assert!(!names.contains(&"sundials_ida"));
    assert!(!names.contains(&"sundials_core"));
}

#[test]
fn old_system_version_falls_back_to_vendor() {
    let s = next_stage(Stage::ProbingSystem, Attempt::Generated { version: Some(5) });
    assert_eq!(s, Stage::BuildingVendor);
    assert_eq!(
        next_stage(s, Attempt::Generated { version: Some(7) }),
        Stage::Resolved { version: 7 }
    );
    assert_eq!(next_stage(s, Attempt::Generated { version: Some(5) }), Stage::Unrecoverable);
    assert_eq!(next_stage(s, Attempt::Generated { version: None }), Stage::Unrecoverable);
    assert_eq!(next_stage(s, Attempt::GenerationFailed), Stage::Unrecoverable);
}

#[test]
fn accepted_system_version_resolves_at_once() {
    assert_eq!(
        next_stage(Stage::ProbingSystem, Attempt::Generated { version: Some(6) }),
        Stage::Resolved { version: 6 }
    );
    assert_eq!(
        next_stage(Stage::ProbingSystem, Attempt::Generated { version: None }),
        Stage::BuildingVendor
    );
    assert_eq!(next_stage(Stage::ProbingSystem, Attempt::GenerationFailed), Stage::BuildingVendor);
}

#[test]
fn system_source_choice() {
    let mut f = no_features();
    let none = LibraryLocation::unknown();
    assert_eq!(system_source(&f, false, &none, true), SystemSource::PackageManager);
    assert_eq!(system_source(&f, false, &none, false), SystemSource::Explicit);
    assert_eq!(system_source(&f, true, &none, true), SystemSource::Vendor);
    let named = LibraryLocation { inc_dir: Some("/opt/inc".to_string()), lib_dir: None };
    assert_eq!(system_source(&f, false, &named, true), SystemSource::Explicit);
    f.build_libraries = true;
    f.static_libraries = true;
    assert_eq!(system_source(&f, false, &named, true), SystemSource::Vendor);
    assert_eq!(first_kind(&f, SystemSource::Vendor), LibraryKind::Static);
    assert_eq!(first_kind(&f, SystemSource::Explicit), LibraryKind::Dynamic);
}

#[test]
fn vendor_only_scenario_with_dense_solver() {
    // Only the integrator with its dense solver and the serial vector; no
    // sparse support, no overrides, no package manager, nothing installed.
    let mut f = no_features();
    f.cvode = true;
    let sparse = SparseLocator::start(&f);
    assert_eq!(sparse.step, SparseStep::Done);
    let source = system_source(&f, false, &LibraryLocation::unknown(), false);
    assert_eq!(source, SystemSource::Explicit);
    let s = next_stage(Stage::ProbingSystem, Attempt::GenerationFailed);
    assert_eq!(s, Stage::BuildingVendor);
    let s = next_stage(s, Attempt::Generated { version: Some(7) });
    assert_eq!(s, Stage::Resolved { version: 7 });
    let libs = link_libraries(&f, 7);
    assert!(libs.contains(&NativeLib::SunlinsolDense));
    assert!(libs.contains(&NativeLib::NvecSerial));
    assert!(libs.contains(&NativeLib::Cvode));
    assert!(libs.contains(&NativeLib::Core));
    assert_eq!(libs.len(), 15);
}
