//! What holds of the lifecycle over sequences of operations, stated over the
//! same transitions that the contracts of the controller and of the service
//! speak of.

use vstd::prelude::*;
use crate::block_range::BlockRange;
use crate::controller::{
    activated, consistent, is_insertion_index, may_activate, may_retire, may_rotate_keys, retired,
    with_expiry_window, with_key, with_missed_range, with_peers, ControllerView, NodeState,
};

verus! {

/// Activation succeeds once: on an idle node it is legal, it makes the node
/// active and records the height, and on the node that it leaves behind a
/// second activation is illegal, whatever height it is given.
pub proof fn law_activate_once(v: ControllerView, first_height: u64, second_height: u64)
    requires
        consistent(v),
        v.summary.state == NodeState::Idle,
    ensures
        may_activate(v),
        activated(v, first_height).summary.state == NodeState::Active,
        activated(v, first_height).summary.activation_height == Some(first_height),
        consistent(activated(v, first_height)),
        !may_activate(activated(v, first_height)),
{
}

/// Retirement is legal from the active state and from no other.
pub proof fn law_retire_only_from_active(v: ControllerView)
    ensures
        may_retire(v) <==> v.summary.state == NodeState::Active,
        v.summary.state == NodeState::Idle ==> !may_retire(v),
        v.summary.state == NodeState::Retiring ==> !may_retire(v),
{
}

/// Retirement is final: a retired node can neither be activated nor retired
/// again, and it keeps the height at which it was activated.
pub proof fn law_retired_is_terminal(v: ControllerView)
    requires
        consistent(v),
        may_retire(v),
    ensures
        consistent(retired(v)),
        retired(v).summary.state == NodeState::Retiring,
        retired(v).summary.activation_height == v.summary.activation_height,
        !may_activate(retired(v)),
        !may_retire(retired(v)),
        !may_rotate_keys(retired(v)),
{
}

/// No operation brings a node back to the idle state: a node that is not
/// idle is not idle after any transition.
pub proof fn law_never_idle_again(
    v: ControllerView,
    height: u64,
    key: Seq<u8>,
    window: u64,
    peers: Seq<Seq<u8>>,
    k: int,
    range: BlockRange,
)
    requires
        v.summary.state != NodeState::Idle,
    ensures
        retired(v).summary.state != NodeState::Idle,
        with_expiry_window(v, window).summary.state == v.summary.state,
        with_peers(v, peers).summary.state == v.summary.state,
        with_missed_range(v, k, range).summary.state == v.summary.state,
        !may_activate(v),
        !may_rotate_keys(v),
{
}

/// Keys are rotated only while the node is idle, and two rotations in a row
/// that both succeed report two different keys.
pub proof fn law_successive_keys_differ(v: ControllerView, first: Seq<u8>, second: Seq<u8>)
    requires
        may_rotate_keys(v),
        first != v.summary.ingress_pubkey,
        second != with_key(v, first).summary.ingress_pubkey,
    ensures
        may_rotate_keys(with_key(v, first)),
        with_key(with_key(v, first), second).summary.ingress_pubkey != with_key(
            v,
            first,
        ).summary.ingress_pubkey,
        with_key(v, first).summary.ingress_pubkey != v.summary.ingress_pubkey,
        !may_rotate_keys(activated(v, 0)),
{
}

/// The ingress key and the expiry window change by key rotation and by
/// setting the window, and by nothing else.
pub proof fn law_keys_change_only_by_their_operations(
    v: ControllerView,
    height: u64,
    peers: Seq<Seq<u8>>,
    k: int,
    range: BlockRange,
)
    ensures
        activated(v, height).summary.ingress_pubkey == v.summary.ingress_pubkey,
        activated(v, height).summary.pubkey_expiry_window == v.summary.pubkey_expiry_window,
        retired(v).summary.ingress_pubkey == v.summary.ingress_pubkey,
        retired(v).summary.pubkey_expiry_window == v.summary.pubkey_expiry_window,
        with_peers(v, peers).summary.ingress_pubkey == v.summary.ingress_pubkey,
        with_peers(v, peers).summary.pubkey_expiry_window == v.summary.pubkey_expiry_window,
        with_missed_range(v, k, range).summary == v.summary,
{
}

/// Setting the peers replaces the whole set: what was there before has no
/// part in what is there afterwards.
pub proof fn law_set_peers_replaces(v: ControllerView, first: Seq<Seq<u8>>, second: Seq<Seq<u8>>)
    ensures
        with_peers(with_peers(v, first), second) == with_peers(v, second),
        with_peers(v, second).summary.peers == second,
        with_peers(v, second).missed == v.missed,
{
}

/// Recording a missed range keeps every range that was there, in its order,
/// puts the new one at its place, and leaves the listing in ascending order of
/// the first block.
pub proof fn law_missed_ranges_grow(v: ControllerView, k: int, range: BlockRange)
    requires
        consistent(v),
        range.valid(),
        is_insertion_index(v.missed, range.start_block, k),
    ensures
        consistent(with_missed_range(v, k, range)),
        with_missed_range(v, k, range).summary == v.summary,
        with_missed_range(v, k, range).missed.len() == v.missed.len() + 1,
        with_missed_range(v, k, range).missed[k] == range,
        forall|i: int| 0 <= i < k ==> with_missed_range(v, k, range).missed[i] == v.missed[i],
        forall|i: int|
            k <= i < v.missed.len() ==> with_missed_range(v, k, range).missed[i + 1] == v.missed[i],
{
    let after = with_missed_range(v, k, range).missed;
    assert forall|i: int| 0 <= i < after.len() implies (#[trigger] after[i]).valid() by {
        if i < k {
            assert(after[i] == v.missed[i]);
        } else if i > k {
            assert(after[i] == v.missed[i - 1]);
        }
    }
    assert forall|i: int, j: int| 0 <= i < j < after.len() implies after[i].start_block
        <= after[j].start_block by {
        if i < k {
            assert(after[i] == v.missed[i]);
        } else if i > k {
            assert(after[i] == v.missed[i - 1]);
        }
        if j < k {
            assert(after[j] == v.missed[j]);
        } else if j > k {
            assert(after[j] == v.missed[j - 1]);
        }
    }
}

/// The place of a new missed range is determined by the ranges that are
/// there and by its first block.
pub proof fn law_insertion_index_unique(s: Seq<BlockRange>, start: u64, k1: int, k2: int)
    requires
        is_insertion_index(s, start, k1),
        is_insertion_index(s, start, k2),
    ensures
        k1 == k2,
{
    if k1 < k2 {
        assert(s[k1].start_block > start);
    } else if k2 < k1 {
        assert(s[k2].start_block > start);
    }
}

} // verus!
