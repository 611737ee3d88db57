//! Choice of the host address that WebRTC sockets bind to when none is
//! configured.

use vstd::prelude::*;

verus! {

/// The address is in the loopback range 127.0.0.0/8.
pub open spec fn is_loopback(octets: [u8; 4]) -> bool {
    octets[0] == 127
}

/// The address is in the link-local range 169.254.0.0/16.
pub open spec fn is_link_local(octets: [u8; 4]) -> bool {
    octets[0] == 169 && octets[1] == 254
}

/// The address is the broadcast address 255.255.255.255.
pub open spec fn is_broadcast(octets: [u8; 4]) -> bool {
    octets[0] == 255 && octets[1] == 255 && octets[2] == 255 && octets[3] == 255
}

/// An IPv4 address that peers can reach the host at.
pub open spec fn usable_host_v4(octets: [u8; 4]) -> bool {
    !is_loopback(octets) && !is_link_local(octets) && !is_broadcast(octets)
}

/// Whether the candidate at `i` is a usable IPv4 address.
pub open spec fn usable_at(candidates: Seq<Option<[u8; 4]>>, i: int) -> bool {
    match candidates[i] {
        Some(octets) => usable_host_v4(octets),
        None => false,
    }
}

/// Whether an IPv4 address, given by its octets, is usable as host address.
pub fn is_usable_host_v4(octets: [u8; 4]) -> (usable: bool)
    ensures
        usable == usable_host_v4(octets),
        usable <==> (octets[0] != 127 && !(octets[0] == 169 && octets[1] == 254) && octets != [
            255u8,
            255u8,
            255u8,
            255u8,
        ]),
{
    proof {
        lemma_usable_host_v4(octets);
    }
    let loopback = octets[0] == 127;
    let link_local = octets[0] == 169 && octets[1] == 254;
    let broadcast = octets[0] == 255 && octets[1] == 255 && octets[2] == 255 && octets[3] == 255;
    !loopback && !link_local && !broadcast
}

/// An IPv4 address is usable exactly when it is outside 127.0.0.0/8, outside
/// 169.254.0.0/16, and not 255.255.255.255; in particular every private
/// address (10.0.0.0/8, 172.16.0.0/12, 192.168.0.0/16) is usable.
pub proof fn lemma_usable_host_v4(octets: [u8; 4])
    ensures
        usable_host_v4(octets) <==> (octets[0] != 127 && !(octets[0] == 169 && octets[1] == 254)
            && octets != [255u8, 255u8, 255u8, 255u8]),
        octets[0] == 10 ==> usable_host_v4(octets),
        octets[0] == 192 && octets[1] == 168 ==> usable_host_v4(octets),
        octets[0] == 172 && 16 <= octets[1] < 32 ==> usable_host_v4(octets),
        octets[0] == 127 ==> !usable_host_v4(octets),
{
    if octets[0] == 255 && octets[1] == 255 && octets[2] == 255 && octets[3] == 255 {
        assert(octets =~= [255u8, 255u8, 255u8, 255u8]);
    }
}

/// Select the first usable IPv4 address among the host's interface
/// addresses, in the order given; `None` stands for an address that is not
/// IPv4.
pub fn select_host_address(candidates: &[Option<[u8; 4]>]) -> (chosen: Option<[u8; 4]>)
    ensures
        match chosen {
            Some(octets) => exists|i: int|
                0 <= i < candidates@.len() && candidates@[i] == Some(octets) && usable_host_v4(
                    octets,
                ) && forall|j: int| 0 <= j < i ==> !usable_at(candidates@, j),
            None => forall|j: int| 0 <= j < candidates@.len() ==> !usable_at(candidates@, j),
        },
{
    let mut i: usize = 0;
    while i < candidates.len()
        invariant
            i <= candidates@.len(),
            forall|j: int| 0 <= j < i ==> !usable_at(candidates@, j),
        decreases candidates@.len() - i,
    {
        match candidates[i] {
            Some(octets) => {
                if is_usable_host_v4(octets) {
                    assert(usable_at(candidates@, i as int));
                    return Some(octets);
                }
            },
            None => {},
        }
        i = i + 1;
    }
    None
}

} // verus!
