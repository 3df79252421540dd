use vstd::prelude::*;
use crate::features::FeatureSet;
use crate::location::LibraryLocation;

verus! {

pub open spec fn on_off_spec(b: bool) -> Seq<char> {
    if b {
        "ON"@
    } else {
        "OFF"@
    }
}

/// The value the native build tool takes for a boolean switch.
pub fn on_off(b: bool) -> (r: &'static str)
    ensures
        r@ == on_off_spec(b),
{
    if b {
        "ON"
    } else {
        "OFF"
    }
}

/// The key/value pairs as text.
pub open spec fn entries_view(v: Seq<(String, String)>) -> Seq<(Seq<char>, Seq<char>)> {
    v.map_values(|p: (String, String)| (p.0@, p.1@))
}

/// Configuration of the bundled source tree: modules and vector backends as
/// selected, exactly one of static or shared libraries, no tests or examples,
/// and the sparse solver's directories where they are known.
pub open spec fn vendor_config_spec(f: FeatureSet, sparse: LibraryLocation) -> Seq<(Seq<char>, Seq<char>)> {
    let base = switch_config_spec(f);
    let with_inc = match sparse.inc_dir {
        Some(d) => base.push(("KLU_INCLUDE_DIR"@, d@)),
        None => base,
    };
    match sparse.lib_dir {
        Some(d) => with_inc.push(("KLU_LIBRARY_DIR"@, d@)),
        None => with_inc,
    }
}

/// The switches alone, which do not depend on the sparse solver's location.
pub open spec fn switch_config_spec(f: FeatureSet) -> Seq<(Seq<char>, Seq<char>)> {
    seq![
        ("CMAKE_INSTALL_LIBDIR"@, "lib"@),
        ("BUILD_STATIC_LIBS"@, on_off_spec(f.static_libraries)),
        ("BUILD_SHARED_LIBS"@, on_off_spec(!f.static_libraries)),
        ("BUILD_TESTING"@, "OFF"@),
        ("EXAMPLES_INSTALL"@, "OFF"@),
        ("EXAMPLES_ENABLE_C"@, "OFF"@),
        ("BUILD_ARKODE"@, on_off_spec(f.arkode)),
        ("BUILD_CVODE"@, on_off_spec(f.cvode)),
        ("BUILD_CVODES"@, on_off_spec(f.cvodes)),
        ("BUILD_IDA"@, on_off_spec(f.ida)),
        ("BUILD_IDAS"@, on_off_spec(f.idas)),
        ("BUILD_KINSOL"@, on_off_spec(f.kinsol)),
        ("ENABLE_KLU"@, on_off_spec(f.klu)),
        ("OPENMP_ENABLE"@, on_off_spec(f.nvecopenmp)),
        ("PTHREAD_ENABLE"@, on_off_spec(f.nvecpthreads)),
    ]
}

fn push_entry(v: &mut Vec<(String, String)>, key: &str, value: &str)
    ensures
        entries_view(final(v)@) == entries_view(old(v)@).push((key@, value@)),
{
    v.push((String::from_str(key), String::from_str(value)));
    assert(entries_view(v@) =~= entries_view(old(v)@).push((key@, value@)));
}

#[verifier::rlimit(40)]
fn switch_config(f: &FeatureSet) -> (r: Vec<(String, String)>)
    ensures
        entries_view(r@) == switch_config_spec(*f),
{
    let mut v: Vec<(String, String)> = Vec::new();
    assert(entries_view(v@) =~= Seq::empty());
    push_entry(&mut v, "CMAKE_INSTALL_LIBDIR", "lib");
    push_entry(&mut v, "BUILD_STATIC_LIBS", on_off(f.static_libraries));
    push_entry(&mut v, "BUILD_SHARED_LIBS", on_off(!f.static_libraries));
    push_entry(&mut v, "BUILD_TESTING", "OFF");
    push_entry(&mut v, "EXAMPLES_INSTALL", "OFF");
    push_entry(&mut v, "EXAMPLES_ENABLE_C", "OFF");
    push_entry(&mut v, "BUILD_ARKODE", on_off(f.arkode));
    push_entry(&mut v, "BUILD_CVODE", on_off(f.cvode));
    push_entry(&mut v, "BUILD_CVODES", on_off(f.cvodes));
    push_entry(&mut v, "BUILD_IDA", on_off(f.ida));
    push_entry(&mut v, "BUILD_IDAS", on_off(f.idas));
    push_entry(&mut v, "BUILD_KINSOL", on_off(f.kinsol));
    push_entry(&mut v, "ENABLE_KLU", on_off(f.klu));
    push_entry(&mut v, "OPENMP_ENABLE", on_off(f.nvecopenmp));
    push_entry(&mut v, "PTHREAD_ENABLE", on_off(f.nvecpthreads));
    v
}

/// The configuration handed to the native build tool for the bundled sources.
pub fn vendor_config(f: &FeatureSet, sparse: &LibraryLocation) -> (r: Vec<(String, String)>)
    ensures
        entries_view(r@) == vendor_config_spec(*f, *sparse),
{
    let mut v = switch_config(f);
    if let Some(d) = &sparse.inc_dir {
        push_entry(&mut v, "KLU_INCLUDE_DIR", d.as_str());
    }
    if let Some(d) = &sparse.lib_dir {
        push_entry(&mut v, "KLU_LIBRARY_DIR", d.as_str());
    }
    v
}

/// Header and library directories of the install tree rooted at `root`.
pub fn vendor_location(root: &str) -> (r: LibraryLocation)
    ensures
        r.inc_dir matches Some(d) && d@ == root@ + "/include"@,
        r.lib_dir matches Some(d) && d@ == root@ + "/lib"@,
{
    let inc = String::from_str(root).concat("/include");
    let lib = String::from_str(root).concat("/lib");
    LibraryLocation { inc_dir: Some(inc), lib_dir: Some(lib) }
}

} // verus!
