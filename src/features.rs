use vstd::prelude::*;

verus! {

/// The fixed set of build switches, read once when the build starts.
#[derive(Clone, Copy, Debug, PartialEq, Eq, Structural)]
pub struct FeatureSet {
    pub arkode: bool,
    pub cvode: bool,
    pub cvodes: bool,
    pub ida: bool,
    pub idas: bool,
    pub kinsol: bool,
    /// Sparse-direct solver (KLU) support.
    pub klu: bool,
    /// OpenMP parallel vector backend.
    pub nvecopenmp: bool,
    /// Pthreads parallel vector backend.
    pub nvecpthreads: bool,
    /// Link the native libraries statically rather than dynamically.
    pub static_libraries: bool,
    /// Always build the bundled sources instead of looking for a system copy.
    pub build_libraries: bool,
}

/// How the resolved native libraries are linked.
#[derive(Clone, Copy, Debug, PartialEq, Eq, Structural)]
pub enum LibraryKind {
    Static,
    Dynamic,
}

pub open spec fn kind_of(f: FeatureSet) -> LibraryKind {
    if f.static_libraries {
        LibraryKind::Static
    } else {
        LibraryKind::Dynamic
    }
}

/// The linking mode follows the static-library switch alone.
pub fn library_kind(f: &FeatureSet) -> (r: LibraryKind)
    ensures
        r == kind_of(*f),
        (r is Static) <==> f.static_libraries,
        (r is Dynamic) <==> !f.static_libraries,
{
    if f.static_libraries {
        LibraryKind::Static
    } else {
        LibraryKind::Dynamic
    }
}

/// Whichever switches are set, the linking mode is exactly one of the two
/// kinds, and it is static precisely when static libraries are requested.
pub proof fn lemma_kind_static_iff_switch(f: FeatureSet)
    ensures
        (kind_of(f) is Static) <==> f.static_libraries,
        !((kind_of(f) is Static) && (kind_of(f) is Dynamic)),
{
}

impl LibraryKind {
    /// The word the linker directive uses for this kind.
    pub fn link_word(&self) -> (r: &'static str)
        ensures
            r@ == link_word_spec(*self),
    {
        proof {
            reveal_strlit("static");
            reveal_strlit("dylib");
        }
        match self {
            LibraryKind::Static => "static",
            LibraryKind::Dynamic => "dylib",
        }
    }
}

pub open spec fn link_word_spec(k: LibraryKind) -> Seq<char> {
    match k {
        LibraryKind::Static => seq!['s', 't', 'a', 't', 'i', 'c'],
        LibraryKind::Dynamic => seq!['d', 'y', 'l', 'i', 'b'],
    }
}

} // verus!
