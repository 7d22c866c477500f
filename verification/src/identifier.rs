//! Identifiers of the native libraries the registry can load.
//!
//! Each identifier maps deterministically to a dense code, used to index the
//! registry, and to the canonical filename of the library on disk.

use vstd::prelude::*;

verus! {

/// Names a native library that a caller may ask the registry to load.
#[derive(Debug, Clone, Copy, PartialEq, Eq, Structural)]
pub enum ACBrLibType {
    Esocial,
}

/// Number of library identifiers; every identifier code lies below it.
pub open spec fn lib_kind_count() -> int {
    1
}

impl ACBrLibType {
    /// The dense code of this identifier, used as its registry slot.
    pub open spec fn code_spec(&self) -> int {
        match *self {
            ACBrLibType::Esocial => 0,
        }
    }

    /// Every identifier's code is a valid registry slot.
    pub proof fn lemma_code_in_range(&self)
        ensures
            0 <= self.code_spec() < lib_kind_count(),
    {
    }

    /// The canonical filename of the library this identifier names.
    pub open spec fn filename_spec(&self) -> Seq<char> {
        match *self {
            ACBrLibType::Esocial => "ACBreSocial32.dll"@,
        }
    }

    pub fn code(&self) -> (c: usize)
        ensures
            c == self.code_spec(),
    {
        match *self {
            ACBrLibType::Esocial => 0,
        }
    }

    pub fn filename(&self) -> (r: &'static str)
        ensures
            r@ == self.filename_spec(),
    {
        match *self {
            ACBrLibType::Esocial => "ACBreSocial32.dll",
        }
    }
}

pub fn lib_kinds() -> (n: usize)
    ensures
        n == lib_kind_count(),
{
    1
}

} // verus!
