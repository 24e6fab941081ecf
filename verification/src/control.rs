//! The agent's control channel: which endpoint it talks to and how it is kept alive.

use vstd::prelude::*;

pub mod address_selector;
pub mod maintained_control;

verus! {

/// The address of a control endpoint or of a client.
#[derive(Clone, Copy, Debug, PartialEq, Eq, Structural)]
pub struct SocketAddress {
    pub is_ipv6: bool,
    /// The IP address as a number.
    pub ip: u128,
    pub port: u16,
    pub flow_info: u32,
    pub scope_id: u32,
}

impl SocketAddress {
    /// Two addresses with one IP address.
    pub open spec fn same_ip_as(self, other: SocketAddress) -> bool {
        self.is_ipv6 == other.is_ipv6 && self.ip == other.ip
    }

    /// Whether two addresses have one IP address.
    pub fn same_ip(&self, other: &SocketAddress) -> (r: bool)
        ensures
            r == self.same_ip_as(*other),
    {
        self.is_ipv6 == other.is_ipv6 && self.ip == other.ip
    }
}

/// The port, the flow and the scope do not count when IP addresses are compared; the number
/// and the kind do.
pub proof fn ip_addresses_have_a_kind_and_a_number(a: SocketAddress, b: SocketAddress)
    ensures
        a.same_ip_as(b) <==> a.ip == b.ip && (a.is_ipv6 <==> b.is_ipv6),
{
}

/// Whether two lists of addresses are the same.
pub fn same_addresses(a: &Vec<SocketAddress>, b: &Vec<SocketAddress>) -> (r: bool)
    ensures
        r == (a@ == b@),
{
    if a.len() != b.len() {
        return false;
    }
    let mut i: usize = 0;
    while i < a.len()
        invariant
            i <= a.len(),
            a@.len() == b@.len(),
            a@.take(i as int) == b@.take(i as int),
        decreases a.len() - i,
    {
        if a[i] != b[i] {
            assert(a@[i as int] != b@[i as int]);
            return false;
        }
        i = i + 1;
        assert(a@.take(i as int) =~= b@.take(i as int)) by {
            assert forall|k: int| 0 <= k < i implies a@[k] == b@[k] by {
                if k < i - 1 {
                    assert(a@.take(i - 1)[k] == b@.take(i - 1)[k]);
                }
            }
        }
    }
    assert(a@.take(a@.len() as int) == a@);
    assert(b@.take(b@.len() as int) == b@);
    true
}

} // verus!
