//! The caller's network address, as far as the guard reads it.
use vstd::prelude::*;

verus! {

/// An IP address: four octets, or eight 16-bit segments.
#[derive(Clone, Copy, Debug, PartialEq, Eq)]
pub enum IpAddress {
    V4([u8; 4]),
    V6([u16; 8]),
}

/// The loopback addresses: `127.0.0.0/8` for IPv4 and `::1` for IPv6.
pub open spec fn is_loopback_address(a: IpAddress) -> bool {
    match a {
        IpAddress::V4(o) => o[0] == 127,
        IpAddress::V6(s) => {
            &&& forall|i: int| 0 <= i < 7 ==> s[i] == 0
            &&& s[7] == 1
        },
    }
}

impl IpAddress {
    /// Whether the address refers to the local host.
    pub fn is_loopback(&self) -> (r: bool)
        ensures
            r == is_loopback_address(*self),
    {
        match self {
            IpAddress::V4(o) => o[0] == 127,
            IpAddress::V6(s) => {
                let mut i: usize = 0;
                while i < 7
                    invariant
                        0 <= i <= 7,
                        *self == IpAddress::V6(*s),
                        forall|j: int| 0 <= j < i ==> s[j] == 0,
                    decreases 7 - i,
                {
                    if s[i] != 0 {
                        assert(s[i as int] != 0);
                        return false;
                    }
                    i = i + 1;
                }
                s[7] == 1
            },
        }
    }
}

} // verus!
