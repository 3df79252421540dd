use vstd::prelude::*;
use crate::features::FeatureSet;

verus! {

/// Version from which the native library splits out a separate core library.
pub const CORE_LIBRARY_VERSION: u32 = 7;

/// The native sub-libraries that may be linked.
#[derive(Clone, Copy, Debug, PartialEq, Eq, Structural)]
pub enum NativeLib {
    NvecSerial,
    SunlinsolBand,
    SunlinsolDense,
    SunlinsolPcg,
    SunlinsolSpbcgs,
    SunlinsolSpfgmr,
    SunlinsolSpgmr,
    SunlinsolSptfqmr,
    SunmatrixBand,
    SunmatrixDense,
    SunmatrixSparse,
    SunnonlinsolFixedpoint,
    SunnonlinsolNewton,
    Core,
    Arkode,
    Cvode,
    Cvodes,
    Ida,
    Idas,
    Kinsol,
    NvecOpenmp,
    NvecPthreads,
}

pub open spec fn lib_name_spec(l: NativeLib) -> Seq<char> {
    match l {
        NativeLib::NvecSerial => "sundials_nvecserial"@,
        NativeLib::SunlinsolBand => "sundials_sunlinsolband"@,
        NativeLib::SunlinsolDense => "sundials_sunlinsoldense"@,
        NativeLib::SunlinsolPcg => "sundials_sunlinsolpcg"@,
        NativeLib::SunlinsolSpbcgs => "sundials_sunlinsolspbcgs"@,
        NativeLib::SunlinsolSpfgmr => "sundials_sunlinsolspfgmr"@,
        NativeLib::SunlinsolSpgmr => "sundials_sunlinsolspgmr"@,
        NativeLib::SunlinsolSptfqmr => "sundials_sunlinsolsptfqmr"@,
        NativeLib::SunmatrixBand => "sundials_sunmatrixband"@,
        NativeLib::SunmatrixDense => "sundials_sunmatrixdense"@,
        NativeLib::SunmatrixSparse => "sundials_sunmatrixsparse"@,
        NativeLib::SunnonlinsolFixedpoint => "sundials_sunnonlinsolfixedpoint"@,
        NativeLib::SunnonlinsolNewton => "sundials_sunnonlinsolnewton"@,
        NativeLib::Core => "sundials_core"@,
        NativeLib::Arkode => "sundials_arkode"@,
        NativeLib::Cvode => "sundials_cvode"@,
        NativeLib::Cvodes => "sundials_cvodes"@,
        NativeLib::Ida => "sundials_ida"@,
        NativeLib::Idas => "sundials_idas"@,
        NativeLib::Kinsol => "sundials_kinsol"@,
        NativeLib::NvecOpenmp => "sundials_nvecopenmp"@,
        NativeLib::NvecPthreads => "sundials_nvecpthreads"@,
    }
}

impl NativeLib {
    /// The name the linker is given for this library.
    pub fn name(&self) -> (r: &'static str)
        ensures
            r@ == lib_name_spec(*self),
    {
        match self {
            NativeLib::NvecSerial => "sundials_nvecserial",
            NativeLib::SunlinsolBand => "sundials_sunlinsolband",
            NativeLib::SunlinsolDense => "sundials_sunlinsoldense",
            NativeLib::SunlinsolPcg => "sundials_sunlinsolpcg",
            NativeLib::SunlinsolSpbcgs => "sundials_sunlinsolspbcgs",
            NativeLib::SunlinsolSpfgmr => "sundials_sunlinsolspfgmr",
            NativeLib::SunlinsolSpgmr => "sundials_sunlinsolspgmr",
            NativeLib::SunlinsolSptfqmr => "sundials_sunlinsolsptfqmr",
            NativeLib::SunmatrixBand => "sundials_sunmatrixband",
            NativeLib::SunmatrixDense => "sundials_sunmatrixdense",
            NativeLib::SunmatrixSparse => "sundials_sunmatrixsparse",
            NativeLib::SunnonlinsolFixedpoint => "sundials_sunnonlinsolfixedpoint",
            NativeLib::SunnonlinsolNewton => "sundials_sunnonlinsolnewton",
            NativeLib::Core => "sundials_core",
            NativeLib::Arkode => "sundials_arkode",
            NativeLib::Cvode => "sundials_cvode",
            NativeLib::Cvodes => "sundials_cvodes",
            NativeLib::Ida => "sundials_ida",
            NativeLib::Idas => "sundials_idas",
            NativeLib::Kinsol => "sundials_kinsol",
            NativeLib::NvecOpenmp => "sundials_nvecopenmp",
            NativeLib::NvecPthreads => "sundials_nvecpthreads",
        }
    }
}

/// Libraries linked whatever the features.
pub open spec fn base_libs() -> Seq<NativeLib> {
    seq![
        NativeLib::NvecSerial,
        NativeLib::SunlinsolBand,
        NativeLib::SunlinsolDense,
        NativeLib::SunlinsolPcg,
        NativeLib::SunlinsolSpbcgs,
        NativeLib::SunlinsolSpfgmr,
        NativeLib::SunlinsolSpgmr,
        NativeLib::SunlinsolSptfqmr,
        NativeLib::SunmatrixBand,
        NativeLib::SunmatrixDense,
        NativeLib::SunmatrixSparse,
        NativeLib::SunnonlinsolFixedpoint,
        NativeLib::SunnonlinsolNewton,
    ]
}

pub open spec fn only_if(on: bool, l: NativeLib) -> Seq<NativeLib> {
    if on {
        seq![l]
    } else {
        Seq::empty()
    }
}

/// Everything to link: the fixed libraries, the core library from version 7
/// on, then each optional module and vector backend that is enabled.
pub open spec fn link_libs_spec(f: FeatureSet, version: u32) -> Seq<NativeLib> {
    base_libs() + only_if(version >= CORE_LIBRARY_VERSION, NativeLib::Core) + only_if(f.arkode, NativeLib::Arkode)
        + only_if(f.cvode, NativeLib::Cvode) + only_if(f.cvodes, NativeLib::Cvodes) + only_if(f.ida, NativeLib::Ida)
        + only_if(f.idas, NativeLib::Idas) + only_if(f.kinsol, NativeLib::Kinsol)
        + only_if(f.nvecopenmp, NativeLib::NvecOpenmp) + only_if(f.nvecpthreads, NativeLib::NvecPthreads)
}

fn push_only_if(v: &mut Vec<NativeLib>, on: bool, l: NativeLib)
    ensures
        final(v)@ == old(v)@ + only_if(on, l),
{
    if on {
        v.push(l);
    }
    assert(v@ =~= old(v)@ + only_if(on, l));
}

/// The native libraries to link for the features and the resolved major version.
pub fn link_libraries(f: &FeatureSet, version: u32) -> (r: Vec<NativeLib>)
    ensures
        r@ == link_libs_spec(*f, version),
{
    let mut v: Vec<NativeLib> = vec![
        NativeLib::NvecSerial,
        NativeLib::SunlinsolBand,
        NativeLib::SunlinsolDense,
        NativeLib::SunlinsolPcg,
        NativeLib::SunlinsolSpbcgs,
        NativeLib::SunlinsolSpfgmr,
        NativeLib::SunlinsolSpgmr,
        NativeLib::SunlinsolSptfqmr,
        NativeLib::SunmatrixBand,
        NativeLib::SunmatrixDense,
        NativeLib::SunmatrixSparse,
        NativeLib::SunnonlinsolFixedpoint,
        NativeLib::SunnonlinsolNewton,
    ];
    assert(v@ =~= base_libs());
    push_only_if(&mut v, version >= CORE_LIBRARY_VERSION, NativeLib::Core);
    push_only_if(&mut v, f.arkode, NativeLib::Arkode);
    push_only_if(&mut v, f.cvode, NativeLib::Cvode);
    push_only_if(&mut v, f.cvodes, NativeLib::Cvodes);
    push_only_if(&mut v, f.ida, NativeLib::Ida);
    push_only_if(&mut v, f.idas, NativeLib::Idas);
    push_only_if(&mut v, f.kinsol, NativeLib::Kinsol);
    push_only_if(&mut v, f.nvecopenmp, NativeLib::NvecOpenmp);
    push_only_if(&mut v, f.nvecpthreads, NativeLib::NvecPthreads);
    v
}


proof fn lemma_contains_add(a: Seq<NativeLib>, b: Seq<NativeLib>, x: NativeLib)
    ensures
        (a + b).contains(x) <==> (a.contains(x) || b.contains(x)),
{
    if (a + b).contains(x) {
        let i = choose|i: int| 0 <= i < (a + b).len() && (a + b)[i] == x;
        if i < a.len() {
            assert(a[i] == x);
        } else {
            assert(b[i - a.len()] == x);
        }
    }
    if a.contains(x) {
        let i = choose|i: int| 0 <= i < a.len() && a[i] == x;
        assert((a + b)[i] == x);
    }
    if b.contains(x) {
        let i = choose|i: int| 0 <= i < b.len() && b[i] == x;
        assert((a + b)[a.len() + i] == x);
    }
}

proof fn lemma_only_if_contains(on: bool, l: NativeLib, x: NativeLib)
    ensures
        only_if(on, l).contains(x) <==> (on && l == x),
{
    if on {
        assert(only_if(on, l)[0] == l);
    }
}

/// Whether the optional library `x` is called for; every fixed library is.
pub open spec fn selected(f: FeatureSet, version: u32, x: NativeLib) -> bool {
    match x {
        NativeLib::Core => version >= CORE_LIBRARY_VERSION,
        NativeLib::Arkode => f.arkode,
        NativeLib::Cvode => f.cvode,
        NativeLib::Cvodes => f.cvodes,
        NativeLib::Ida => f.ida,
        NativeLib::Idas => f.idas,
        NativeLib::Kinsol => f.kinsol,
        NativeLib::NvecOpenmp => f.nvecopenmp,
        NativeLib::NvecPthreads => f.nvecpthreads,
        _ => true,
    }
}

pub open spec fn is_optional(x: NativeLib) -> bool {
    x is Core || x is Arkode || x is Cvode || x is Cvodes || x is Ida || x is Idas || x is Kinsol
        || x is NvecOpenmp || x is NvecPthreads
}

proof fn lemma_base_lacks_optional(x: NativeLib)
    requires
        is_optional(x),
    ensures
        !base_libs().contains(x),
{
    let b = base_libs();
    assert forall|i: int| 0 <= i < b.len() implies !is_optional(#[trigger] b[i]) by {
        assert(!is_optional(b[0]));
        assert(!is_optional(b[1]));
        assert(!is_optional(b[2]));
        assert(!is_optional(b[3]));
        assert(!is_optional(b[4]));
        assert(!is_optional(b[5]));
        assert(!is_optional(b[6]));
        assert(!is_optional(b[7]));
        assert(!is_optional(b[8]));
        assert(!is_optional(b[9]));
        assert(!is_optional(b[10]));
        assert(!is_optional(b[11]));
        assert(!is_optional(b[12]));
    }
}

proof fn lemma_optional_contained(f: FeatureSet, version: u32, x: NativeLib)
    requires
        is_optional(x),
    ensures
        link_libs_spec(f, version).contains(x) <==> selected(f, version, x),
{
    let b = base_libs();
    let s1 = b + only_if(version >= CORE_LIBRARY_VERSION, NativeLib::Core);
    let s2 = s1 + only_if(f.arkode, NativeLib::Arkode);
    let s3 = s2 + only_if(f.cvode, NativeLib::Cvode);
    let s4 = s3 + only_if(f.cvodes, NativeLib::Cvodes);
    let s5 = s4 + only_if(f.ida, NativeLib::Ida);
    let s6 = s5 + only_if(f.idas, NativeLib::Idas);
    let s7 = s6 + only_if(f.kinsol, NativeLib::Kinsol);
    let s8 = s7 + only_if(f.nvecopenmp, NativeLib::NvecOpenmp);
    lemma_base_lacks_optional(x);
    lemma_contains_add(b, only_if(version >= CORE_LIBRARY_VERSION, NativeLib::Core), x);
    lemma_contains_add(s1, only_if(f.arkode, NativeLib::Arkode), x);
    lemma_contains_add(s2, only_if(f.cvode, NativeLib::Cvode), x);
    lemma_contains_add(s3, only_if(f.cvodes, NativeLib::Cvodes), x);
    lemma_contains_add(s4, only_if(f.ida, NativeLib::Ida), x);
    lemma_contains_add(s5, only_if(f.idas, NativeLib::Idas), x);
    lemma_contains_add(s6, only_if(f.kinsol, NativeLib::Kinsol), x);
    lemma_contains_add(s7, only_if(f.nvecopenmp, NativeLib::NvecOpenmp), x);
    lemma_contains_add(s8, only_if(f.nvecpthreads, NativeLib::NvecPthreads), x);
    lemma_only_if_contains(version >= CORE_LIBRARY_VERSION, NativeLib::Core, x);
    lemma_only_if_contains(f.arkode, NativeLib::Arkode, x);
    lemma_only_if_contains(f.cvode, NativeLib::Cvode, x);
    lemma_only_if_contains(f.cvodes, NativeLib::Cvodes, x);
    lemma_only_if_contains(f.ida, NativeLib::Ida, x);
    lemma_only_if_contains(f.idas, NativeLib::Idas, x);
    lemma_only_if_contains(f.kinsol, NativeLib::Kinsol, x);
    lemma_only_if_contains(f.nvecopenmp, NativeLib::NvecOpenmp, x);
    lemma_only_if_contains(f.nvecpthreads, NativeLib::NvecPthreads, x);
}

/// The core library is linked exactly from version 7 on, and each optional
/// module or vector backend exactly when its feature is enabled.
pub proof fn lemma_link_list_follows_version_and_features(f: FeatureSet, version: u32)
    ensures
        link_libs_spec(f, version).contains(NativeLib::Core) <==> version >= CORE_LIBRARY_VERSION,
        link_libs_spec(f, version).contains(NativeLib::Arkode) <==> f.arkode,
        link_libs_spec(f, version).contains(NativeLib::Cvode) <==> f.cvode,
        link_libs_spec(f, version).contains(NativeLib::Cvodes) <==> f.cvodes,
        link_libs_spec(f, version).contains(NativeLib::Ida) <==> f.ida,
        link_libs_spec(f, version).contains(NativeLib::Idas) <==> f.idas,
        link_libs_spec(f, version).contains(NativeLib::Kinsol) <==> f.kinsol,
        link_libs_spec(f, version).contains(NativeLib::NvecOpenmp) <==> f.nvecopenmp,
        link_libs_spec(f, version).contains(NativeLib::NvecPthreads) <==> f.nvecpthreads,
{
    lemma_optional_contained(f, version, NativeLib::Core);
    lemma_optional_contained(f, version, NativeLib::Arkode);
    lemma_optional_contained(f, version, NativeLib::Cvode);
    lemma_optional_contained(f, version, NativeLib::Cvodes);
    lemma_optional_contained(f, version, NativeLib::Ida);
    lemma_optional_contained(f, version, NativeLib::Idas);
    lemma_optional_contained(f, version, NativeLib::Kinsol);
    lemma_optional_contained(f, version, NativeLib::NvecOpenmp);
    lemma_optional_contained(f, version, NativeLib::NvecPthreads);
}

} // verus!
