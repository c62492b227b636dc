//! Which transport two peers use.

use vstd::prelude::*;

use crate::text::{lists_str, lists_string};

verus! {

/// The first of the preferred transports that is also supported.
pub open spec fn first_supported(
    preferred: Seq<Seq<char>>,
    supported: Seq<Seq<char>>,
) -> Option<Seq<char>>
    decreases preferred.len(),
{
    if preferred.len() == 0 {
        None
    } else if supported.contains(preferred[0]) {
        Some(preferred[0])
    } else {
        first_supported(preferred.drop_first(), supported)
    }
}

/// The transport that a peer settles on: the host's preference decides, among what
/// the client supports.
pub open spec fn chosen_transport(
    is_host: bool,
    own: Seq<Seq<char>>,
    peer: Seq<Seq<char>>,
) -> Option<Seq<char>> {
    if is_host {
        first_supported(own, peer)
    } else {
        first_supported(peer, own)
    }
}

/// Selects the first transport in the host's preference that the client supports.
pub fn select_transport_id<'a>(
    is_host: bool,
    own_transports: &'a [&'a str],
    peer_transports: &'a [String],
) -> (selected: Option<&'a str>)
    ensures
        chosen_transport(
            is_host,
            crate::text::str_texts(own_transports@),
            crate::text::string_texts(peer_transports@),
        ) == (match selected {
            Some(transport) => Some(transport@),
            None => None,
        }),
{
    let ghost own = crate::text::str_texts(own_transports@);
    let ghost peer = crate::text::string_texts(peer_transports@);
    let mut i: usize = 0;
    if is_host {
        assert(own.skip(0) =~= own);
        while i < own_transports.len()
            invariant
                is_host,
                i <= own_transports@.len(),
                own == crate::text::str_texts(own_transports@),
                peer == crate::text::string_texts(peer_transports@),
                first_supported(own, peer) == first_supported(own.skip(i as int), peer),
            decreases own_transports@.len() - i,
        {
            assert(own.skip(i as int)[0] == own_transports@[i as int]@);
            assert(own.skip(i as int).drop_first() =~= own.skip(i + 1));
            if lists_string(peer_transports, own_transports[i]) {
                return Some(own_transports[i]);
            }
            i = i + 1;
        }
    } else {
        assert(peer.skip(0) =~= peer);
        while i < peer_transports.len()
            invariant
                !is_host,
                i <= peer_transports@.len(),
                own == crate::text::str_texts(own_transports@),
                peer == crate::text::string_texts(peer_transports@),
                first_supported(peer, own) == first_supported(peer.skip(i as int), own),
            decreases peer_transports@.len() - i,
        {
            assert(peer.skip(i as int)[0] == peer_transports@[i as int]@);
            assert(peer.skip(i as int).drop_first() =~= peer.skip(i + 1));
            if lists_str(own_transports, peer_transports[i].as_str()) {
                return Some(peer_transports[i].as_str());
            }
            i = i + 1;
        }
    }
    None
}

/// The choice is the first preference that is supported: it is supported, and no
/// preference before it is.
pub proof fn law_choice_is_first_supported(preferred: Seq<Seq<char>>, supported: Seq<Seq<char>>)
    ensures
        match first_supported(preferred, supported) {
            Some(transport) => exists|i: int|
                0 <= i < preferred.len() && #[trigger] preferred[i] == transport
                    && supported.contains(transport) && forall|j: int|
                    0 <= j < i ==> !supported.contains(#[trigger] preferred[j]),
            None => forall|i: int|
                0 <= i < preferred.len() ==> !supported.contains(#[trigger] preferred[i]),
        },
    decreases preferred.len(),
{
    if preferred.len() > 0 && !supported.contains(preferred[0]) {
        let rest = preferred.drop_first();
        law_choice_is_first_supported(rest, supported);
        match first_supported(rest, supported) {
            Some(transport) => {
                let k = choose|i: int|
                    0 <= i < rest.len() && #[trigger] rest[i] == transport && supported.contains(
                        transport,
                    ) && forall|j: int|
                        0 <= j < i ==> !supported.contains(#[trigger] rest[j]);
                assert(preferred[k + 1] == transport);
                assert forall|j: int| 0 <= j < k + 1 implies !supported.contains(
                    #[trigger] preferred[j],
                ) by {
                    if j > 0 {
                        assert(rest[j - 1] == preferred[j]);
                    }
                }
            },
            None => {
                assert forall|i: int| 0 <= i < preferred.len() implies !supported.contains(
                    #[trigger] preferred[i],
                ) by {
                    if i > 0 {
                        assert(rest[i - 1] == preferred[i]);
                    }
                }
            },
        }
    }
}

/// Both peers settle on the same transport: what the host picks from its own list
/// and the client's is what the client picks from its own list and the host's.
pub proof fn law_peers_agree_on_transport(host: Seq<Seq<char>>, client: Seq<Seq<char>>)
    ensures
        chosen_transport(true, host, client) == chosen_transport(false, client, host),
{
}

/// No transport is chosen exactly when the two lists have none in common.
pub proof fn law_no_transport_iff_disjoint(
    is_host: bool,
    own: Seq<Seq<char>>,
    peer: Seq<Seq<char>>,
)
    ensures
        chosen_transport(is_host, own, peer) is None <==> forall|transport: Seq<char>| !(
        own.contains(transport) && #[trigger] peer.contains(transport)),
{
    law_choice_is_first_supported(own, peer);
    law_choice_is_first_supported(peer, own);
    if chosen_transport(is_host, own, peer) is None {
        assert forall|transport: Seq<char>| !(own.contains(transport)
            && #[trigger] peer.contains(transport)) by {
            if own.contains(transport) && peer.contains(transport) {
                let i = choose|i: int| 0 <= i < own.len() && own[i] == transport;
                let j = choose|j: int| 0 <= j < peer.len() && peer[j] == transport;
                assert(own[i] == transport && peer[j] == transport);
            }
        }
    } else {
        let transport = chosen_transport(is_host, own, peer)->0;
        assert(own.contains(transport) && peer.contains(transport));
    }
}

/// The transport of two peers is the first in the host's list that the client's list has
/// too, whichever of them asks, and there is none exactly if the lists have none in
/// common.
pub proof fn law_host_preference_decides<'a>(
    is_host: bool,
    own: &'a [&'a str],
    peer: &'a [String],
    selected: Option<&'a str>,
)
    requires
        call_ensures(select_transport_id, (is_host, own, peer), selected),
    ensures
        match selected {
            Some(transport) => {
                &&& exists|i: int| 0 <= i < own@.len() && (#[trigger] own@[i])@ == transport@
                &&& exists|j: int| 0 <= j < peer@.len() && (#[trigger] peer@[j])@ == transport@
                &&& is_host ==> exists|i: int|
                    0 <= i < own@.len() && (#[trigger] own@[i])@ == transport@ && forall|k: int, j: int|
                        0 <= k < i && 0 <= j < peer@.len() ==> (#[trigger] own@[k])@ != (
                        #[trigger] peer@[j])@
                &&& !is_host ==> exists|j: int|
                    0 <= j < peer@.len() && (#[trigger] peer@[j])@ == transport@ && forall|
                        k: int,
                        i: int,
                    |
                        0 <= k < j && 0 <= i < own@.len() ==> (#[trigger] peer@[k])@ != (
                        #[trigger] own@[i])@
            },
            None => forall|i: int, j: int|
                0 <= i < own@.len() && 0 <= j < peer@.len() ==> (#[trigger] own@[i])@ != (
                #[trigger] peer@[j])@,
        },
{
    let owns = crate::text::str_texts(own@);
    let peers = crate::text::string_texts(peer@);
    assert forall|i: int, j: int|
        0 <= i < own@.len() && 0 <= j < peer@.len() && (#[trigger] own@[i])@ == (
        #[trigger] peer@[j])@ implies owns.contains(peers[j]) && peers.contains(owns[i]) by {
        assert(owns[i] == peers[j]);
    }
    law_choice_is_first_supported(owns, peers);
    law_choice_is_first_supported(peers, owns);
    match selected {
        Some(transport) => {
            if is_host {
                let i = choose|i: int|
                    0 <= i < owns.len() && #[trigger] owns[i] == transport@ && peers.contains(
                        transport@,
                    ) && forall|j: int| 0 <= j < i ==> !peers.contains(#[trigger] owns[j]);
                assert(own@[i]@ == transport@);
                let j = choose|j: int| 0 <= j < peers.len() && peers[j] == transport@;
                assert(peer@[j]@ == transport@);
                assert forall|k: int, j: int| 0 <= k < i && 0 <= j < peer@.len() implies (
                #[trigger] own@[k])@ != (#[trigger] peer@[j])@ by {
                    assert(!peers.contains(owns[k]));
                }
            } else {
                let j = choose|j: int|
                    0 <= j < peers.len() && #[trigger] peers[j] == transport@ && owns.contains(
                        transport@,
                    ) && forall|k: int| 0 <= k < j ==> !owns.contains(#[trigger] peers[k]);
                assert(peer@[j]@ == transport@);
                let i = choose|i: int| 0 <= i < owns.len() && owns[i] == transport@;
                assert(own@[i]@ == transport@);
                assert forall|k: int, i: int| 0 <= k < j && 0 <= i < own@.len() implies (
                #[trigger] peer@[k])@ != (#[trigger] own@[i])@ by {
                    assert(!owns.contains(peers[k]));
                }
            }
        },
        None => {
            assert forall|i: int, j: int| 0 <= i < own@.len() && 0 <= j < peer@.len() implies (
            #[trigger] own@[i])@ != (#[trigger] peer@[j])@ by {
                if is_host {
                    assert(!peers.contains(owns[i]));
                } else {
                    assert(!owns.contains(peers[j]));
                }
            }
        },
    }
}

} // verus!
