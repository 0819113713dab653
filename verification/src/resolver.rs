//! Choosing a socket address among those that a host resolved to.

use vstd::prelude::*;

verus! {

/// Which address families a caller accepts.
#[derive(Clone, Copy, Debug, PartialEq, Eq, Structural)]
pub enum IpVersion {
    V4,
    V6,
    Both,
}

/// An IP address as a number, most significant byte first.
#[derive(Clone, Copy, Debug, PartialEq, Eq, Structural)]
pub enum IpAddress {
    V4(u32),
    V6(u128),
}

/// A concrete socket address.
#[derive(Clone, Copy, Debug, PartialEq, Eq, Structural)]
pub struct SocketAddress {
    pub ip: IpAddress,
    pub port: u16,
}

impl SocketAddress {
    pub open spec fn spec_is_ipv4(&self) -> bool {
        self.ip is V4
    }

    /// Whether the address is of the IPv4 family.
    #[verifier::when_used_as_spec(spec_is_ipv4)]
    pub fn is_ipv4(&self) -> (b: bool)
        ensures
            b == self.spec_is_ipv4(),
    {
        match self.ip {
            IpAddress::V4(_) => true,
            IpAddress::V6(_) => false,
        }
    }
}

/// Whether an address is of a family that the preference accepts.
pub open spec fn family_accepted(preference: IpVersion, addr: SocketAddress) -> bool {
    match preference {
        IpVersion::V4 => addr.ip is V4,
        IpVersion::V6 => addr.ip is V6,
        IpVersion::Both => true,
    }
}

/// Whether `i` is the place of the first candidate that the preference accepts.
pub open spec fn is_first_accepted(
    candidates: Seq<SocketAddress>,
    preference: IpVersion,
    i: int,
) -> bool {
    &&& 0 <= i < candidates.len()
    &&& family_accepted(preference, candidates[i])
    &&& forall|j: int| 0 <= j < i ==> !family_accepted(preference, #[trigger] candidates[j])
}

/// The first candidate of an accepted family; `None` where there is none.
pub open spec fn selected(candidates: Seq<SocketAddress>, preference: IpVersion) -> Option<
    SocketAddress,
> {
    if exists|i: int| is_first_accepted(candidates, preference, i) {
        Some(candidates[choose|i: int| is_first_accepted(candidates, preference, i)])
    } else {
        None
    }
}

/// Whether one address is of an accepted family.
pub fn accepts(preference: IpVersion, addr: &SocketAddress) -> (b: bool)
    ensures
        b == family_accepted(preference, *addr),
{
    match preference {
        IpVersion::V4 => addr.is_ipv4(),
        IpVersion::V6 => !addr.is_ipv4(),
        IpVersion::Both => true,
    }
}

/// Picks the socket address to use among the candidates that resolution gave,
/// in the order in which it gave them: the first of an accepted family.
pub fn select_address(candidates: &Vec<SocketAddress>, preference: IpVersion) -> (r: Option<
    SocketAddress,
>)
    ensures
        r == selected(candidates@, preference),
        match r {
            Some(addr) => exists|i: int|
                is_first_accepted(candidates@, preference, i) && candidates@[i] == addr,
            None => forall|i: int|
                0 <= i < candidates@.len() ==> !family_accepted(
                    preference,
                    #[trigger] candidates@[i],
                ),
        },
{
    let mut i: usize = 0;
    while i < candidates.len()
        invariant
            i <= candidates@.len(),
            forall|j: int| 0 <= j < i ==> !family_accepted(preference, #[trigger] candidates@[j]),
        decreases candidates@.len() - i,
    {
        if accepts(preference, &candidates[i]) {
            proof {
                lemma_first_accepted_is_selected(candidates@, preference, i as int);
            }
            return Some(candidates[i]);
        }
        i += 1;
    }
    None
}

/// There is one first accepted candidate at most, so knowing its place gives
/// what is selected.
pub proof fn lemma_first_accepted_is_selected(
    candidates: Seq<SocketAddress>,
    preference: IpVersion,
    i: int,
)
    requires
        is_first_accepted(candidates, preference, i),
    ensures
        selected(candidates, preference) == Some(candidates[i]),
{
    let k = choose|k: int| is_first_accepted(candidates, preference, k);
    assert(is_first_accepted(candidates, preference, k));
    if k < i {
        assert(!family_accepted(preference, candidates[k]));
    }
    if i < k {
        assert(!family_accepted(preference, candidates[i]));
    }
}

} // verus!
