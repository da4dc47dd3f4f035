//! An address paired with the kind of protocol it belongs to.

use vstd::prelude::*;

verus! {

#[derive(Debug, Clone, PartialEq, Eq)]
pub enum IpAddrKind {
    V4,
    V6,
}

#[derive(Debug, Clone, PartialEq, Eq)]
pub struct IpAddr {
    addr: String,
    kind: IpAddrKind,
}

impl IpAddr {
    /// The address text, as seen by specifications.
    pub closed spec fn spec_addr(self) -> Seq<char> {
        self.addr@
    }

    /// The protocol kind, as seen by specifications.
    pub closed spec fn spec_kind(self) -> IpAddrKind {
        self.kind
    }

    pub fn new(addr: String, kind: IpAddrKind) -> (ip: Self)
        ensures
            ip.spec_addr() == addr@,
            ip.spec_kind() == kind,
    {
        IpAddr { addr, kind }
    }
}

} // verus!
