use vstd::prelude::*;
use crate::features::FeatureSet;

verus! {

/// Integer type forced on a generated constant.
#[derive(Clone, Copy, Debug, PartialEq, Eq, Structural)]
pub enum IntegerKind {
    /// The C `int`, a signed 32-bit integer.
    Int,
}

/// Character-wise equality of two strings.
pub fn str_eq(a: &str, b: &str) -> (r: bool)
    ensures
        r == (a@ == b@),
{
    let n = a.unicode_len();
    if n != b.unicode_len() {
        return false;
    }
    let mut i: usize = 0;
    while i < n
        invariant
            n == a@.len(),
            n == b@.len(),
            i <= n,
            forall|j: int| 0 <= j < i ==> a@[j] == b@[j],
        decreases n - i,
    {
        if a.get_char(i) != b.get_char(i) {
            return false;
        }
        i = i + 1;
    }
    assert(a@ =~= b@);
    true
}

/// Index of the first `_` at or after `i`; the length when there is none.
pub open spec fn underscore_from(s: Seq<char>, i: int) -> int
    decreases s.len() - i,
{
    if i >= s.len() {
        s.len() as int
    } else if s[i] == '_' {
        i
    } else {
        underscore_from(s, i + 1)
    }
}

/// Everything before the first `_`, or the whole name when it has none.
pub open spec fn first_segment(s: Seq<char>) -> Seq<char> {
    s.take(underscore_from(s, 0))
}

/// The module prefixes whose constants the native API types as `int`.
pub open spec fn is_signed_tag(seg: Seq<char>) -> bool {
    seg == "CV"@ || seg == "IDA"@ || seg == "KIN"@ || seg == "SUN"@
}

proof fn lemma_underscore_bounds(s: Seq<char>, i: int)
    requires
        0 <= i <= s.len(),
    ensures
        i <= underscore_from(s, i) <= s.len(),
    decreases s.len() - i,
{
    if i < s.len() && s[i] != '_' {
        lemma_underscore_bounds(s, i + 1);
    }
}

fn prefix_is(name: &str, p: usize, tag: &str) -> (r: bool)
    requires
        p <= name@.len(),
    ensures
        r == (name@.take(p as int) == tag@),
{
    if p != tag.unicode_len() {
        return false;
    }
    let mut i: usize = 0;
    while i < p
        invariant
            p <= name@.len(),
            p == tag@.len(),
            i <= p,
            forall|j: int| 0 <= j < i ==> name@[j] == tag@[j],
        decreases p - i,
    {
        if name.get_char(i) != tag.get_char(i) {
            assert(name@.take(p as int)[i as int] != tag@[i as int]);
            return false;
        }
        i = i + 1;
    }
    assert(name@.take(p as int) =~= tag@);
    true
}

/// Integer constants of the solver modules are typed as `int`: those whose
/// name, up to the first underscore, is `CV`, `IDA`, `KIN` or `SUN`.
pub fn classify_integer_constant(name: &str) -> (r: Option<IntegerKind>)
    ensures
        r == (if is_signed_tag(first_segment(name@)) {
            Some(IntegerKind::Int)
        } else {
            None
        }),
{
    let n = name.unicode_len();
    let mut p: usize = 0;
    while p < n && name.get_char(p) != '_'
        invariant
            n == name@.len(),
            p <= n,
            underscore_from(name@, 0) == underscore_from(name@, p as int),
        decreases n - p,
    {
        p = p + 1;
    }
    assert(underscore_from(name@, p as int) == p);
    if prefix_is(name, p, "CV") || prefix_is(name, p, "IDA") || prefix_is(name, p, "KIN")
        || prefix_is(name, p, "SUN") {
        Some(IntegerKind::Int)
    } else {
        None
    }
}

/// Floating-point environment and classification macros of `<fenv.h>` and
/// `<math.h>`, which the binding generator cannot express as integer constants.
pub open spec fn ignored_macros() -> Seq<Seq<char>> {
    seq![
        "FE_DIVBYZERO"@,
        "FE_DOWNWARD"@,
        "FE_INEXACT"@,
        "FE_INVALID"@,
        "FE_OVERFLOW"@,
        "FE_TONEAREST"@,
        "FE_TOWARDZERO"@,
        "FE_UNDERFLOW"@,
        "FE_UPWARD"@,
        "FP_INFINITE"@,
        "FP_INT_DOWNWARD"@,
        "FP_INT_TONEAREST"@,
        "FP_INT_TONEARESTFROMZERO"@,
        "FP_INT_TOWARDZERO"@,
        "FP_INT_UPWARD"@,
        "FP_NAN"@,
        "FP_NORMAL"@,
        "FP_SUBNORMAL"@,
        "FP_ZERO"@,
    ]
}

/// Whether the binding generator should leave the macro `name` out entirely.
pub fn should_ignore_macro(name: &str) -> (r: bool)
    ensures
        r == ignored_macros().contains(name@),
{
    let list: Vec<&str> = vec![
        "FE_DIVBYZERO",
        "FE_DOWNWARD",
        "FE_INEXACT",
        "FE_INVALID",
        "FE_OVERFLOW",
        "FE_TONEAREST",
        "FE_TOWARDZERO",
        "FE_UNDERFLOW",
        "FE_UPWARD",
        "FP_INFINITE",
        "FP_INT_DOWNWARD",
        "FP_INT_TONEAREST",
        "FP_INT_TONEARESTFROMZERO",
        "FP_INT_TOWARDZERO",
        "FP_INT_UPWARD",
        "FP_NAN",
        "FP_NORMAL",
        "FP_SUBNORMAL",
        "FP_ZERO",
    ];
    assert(list@.map_values(|s: &str| s@) =~= ignored_macros());
    let mut i: usize = 0;
    while i < list.len()
        invariant
            list@.map_values(|s: &str| s@) == ignored_macros(),
            i <= list@.len(),
            forall|j: int| 0 <= j < i ==> ignored_macros()[j] != name@,
        decreases list@.len() - i,
    {
        if str_eq(list[i], name) {
            assert(ignored_macros()[i as int] == name@);
            return true;
        }
        i = i + 1;
    }
    false
}

/// The strings as text.
pub open spec fn texts(v: Seq<String>) -> Seq<Seq<char>> {
    v.map_values(|s: String| s@)
}

/// One `-I` search argument for each directory that is known, in order.
pub open spec fn search_args(dirs: Seq<Option<String>>) -> Seq<Seq<char>>
    decreases dirs.len(),
{
    if dirs.len() == 0 {
        Seq::empty()
    } else {
        let rest = search_args(dirs.drop_last());
        match dirs.last() {
            Some(d) => rest.push("-I"@ + d@),
            None => rest,
        }
    }
}

pub open spec fn flag_spec(b: bool) -> Seq<char> {
    if b {
        "1"@
    } else {
        "0"@
    }
}

/// One preprocessor define per feature, which the wrapper header reads to
/// pull in the optional sub-headers.
pub open spec fn define_args(f: FeatureSet) -> Seq<Seq<char>> {
    seq![
        "-DUSE_ARKODE="@ + flag_spec(f.arkode),
        "-DUSE_CVODE="@ + flag_spec(f.cvode),
        "-DUSE_CVODES="@ + flag_spec(f.cvodes),
        "-DUSE_IDA="@ + flag_spec(f.ida),
        "-DUSE_IDAS="@ + flag_spec(f.idas),
        "-DUSE_KINSOL="@ + flag_spec(f.kinsol),
        "-DUSE_KLU="@ + flag_spec(f.klu),
        "-DUSE_OPENMP="@ + flag_spec(f.nvecopenmp),
        "-DUSE_PTHREADS="@ + flag_spec(f.nvecpthreads),
    ]
}

fn flag(b: bool) -> (r: &'static str)
    ensures
        r@ == flag_spec(b),
{
    if b {
        "1"
    } else {
        "0"
    }
}

fn push_define(v: &mut Vec<String>, prefix: &str, on: bool)
    ensures
        texts(final(v)@) == texts(old(v)@).push(prefix@ + flag_spec(on)),
{
    v.push(String::from_str(prefix).concat(flag(on)));
    assert(texts(v@) =~= texts(old(v)@).push(prefix@ + flag_spec(on)));
}

/// Arguments for the binding generator: the header search directories in the
/// order given, then the feature defines.
pub fn binding_args(f: &FeatureSet, dirs: &Vec<Option<String>>) -> (r: Vec<String>)
    ensures
        texts(r@) == search_args(dirs@) + define_args(*f),
{
    let mut v: Vec<String> = Vec::new();
    let mut i: usize = 0;
    while i < dirs.len()
        invariant
            i <= dirs@.len(),
            texts(v@) == search_args(dirs@.take(i as int)),
        decreases dirs@.len() - i,
    {
        assert(dirs@.take(i + 1).drop_last() =~= dirs@.take(i as int));
        if let Some(d) = &dirs[i] {
            let arg = String::from_str("-I").concat(d.as_str());
            v.push(arg);
            assert(texts(v@) =~= search_args(dirs@.take(i as int)).push("-I"@ + d@));
        }
        i = i + 1;
    }
    assert(dirs@.take(dirs@.len() as int) =~= dirs@);
    let ghost searched = texts(v@);
    push_define(&mut v, "-DUSE_ARKODE=", f.arkode);
    push_define(&mut v, "-DUSE_CVODE=", f.cvode);
    push_define(&mut v, "-DUSE_CVODES=", f.cvodes);
    push_define(&mut v, "-DUSE_IDA=", f.ida);
    push_define(&mut v, "-DUSE_IDAS=", f.idas);
    push_define(&mut v, "-DUSE_KINSOL=", f.kinsol);
    push_define(&mut v, "-DUSE_KLU=", f.klu);
    push_define(&mut v, "-DUSE_OPENMP=", f.nvecopenmp);
    push_define(&mut v, "-DUSE_PTHREADS=", f.nvecpthreads);
    assert(texts(v@) =~= searched + define_args(*f));
    v
}

} // verus!
