//! Account addresses in the two forms the host knows.

use vstd::prelude::*;

verus! {

/// An address as people write it.
#[derive(Debug, PartialEq, Eq)]
pub struct HumanAddr(pub String);

/// An address in the host's binary form, the one by which accounts are compared.
#[derive(Debug, PartialEq, Eq)]
pub struct CanonicalAddr(pub Vec<u8>);

impl View for HumanAddr {
    type V = Seq<char>;

    open spec fn view(&self) -> Seq<char> {
        self.0@
    }
}

impl View for CanonicalAddr {
    type V = Seq<u8>;

    open spec fn view(&self) -> Seq<u8> {
        self.0@
    }
}

impl Clone for HumanAddr {
    /// A second address with the same characters.
    fn clone(&self) -> (copy: HumanAddr)
        ensures
            copy@ == self@,
    {
        HumanAddr(self.0.clone())
    }
}

impl Clone for CanonicalAddr {
    /// A second address with the same bytes.
    fn clone(&self) -> (copy: CanonicalAddr)
        ensures
            copy@ == self@,
    {
        CanonicalAddr(self.0.clone())
    }
}

impl CanonicalAddr {
    /// Whether two addresses name the same account: byte for byte.
    pub fn same_as(&self, other: &CanonicalAddr) -> (same: bool)
        ensures
            same == (self@ == other@),
    {
        let same = self.0 == other.0;
        proof {
            if same {
                assert(self.0@ =~= other.0@);
            }
        }
        same
    }
}

} // verus!
