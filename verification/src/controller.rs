//! The lifecycle controller of an ingest node: its state machine, its keys,
//! its peer set and the ranges of blocks that the fleet missed.

use vstd::prelude::*;
use crate::block_range::BlockRange;
use crate::error::IngestServiceError;
use crate::laws::law_missed_ranges_grow;
use crate::peer_uri::{peers_view, PeerUri};

verus! {

/// The lifecycle states of a node. A node starts idle, is activated once and
/// retired once; it never becomes idle again.
#[derive(Clone, Copy, Debug, PartialEq, Eq, Structural)]
pub enum NodeState {
    Idle,
    Active,
    Retiring,
}

/// What a node tells of itself.
#[derive(Clone, Debug, PartialEq, Eq)]
pub struct IngestSummary {
    /// The lifecycle state.
    pub state: NodeState,
    /// The current ingress public key.
    pub ingress_pubkey: Vec<u8>,
    /// For how many blocks a retired key stays valid.
    pub pubkey_expiry_window: u64,
    /// The sibling nodes, in the order in which they were set.
    pub peers: Vec<PeerUri>,
    /// The ledger height at which the node became active.
    pub activation_height: Option<u64>,
}

/// The mathematical value of an [`IngestSummary`].
pub ghost struct SummaryView {
    pub state: NodeState,
    pub ingress_pubkey: Seq<u8>,
    pub pubkey_expiry_window: u64,
    pub peers: Seq<Seq<u8>>,
    pub activation_height: Option<u64>,
}

/// The mathematical value of an [`IngestController`].
pub ghost struct ControllerView {
    pub summary: SummaryView,
    pub missed: Seq<BlockRange>,
}

impl View for IngestSummary {
    type V = SummaryView;

    open spec fn view(&self) -> SummaryView {
        SummaryView {
            state: self.state,
            ingress_pubkey: self.ingress_pubkey@,
            pubkey_expiry_window: self.pubkey_expiry_window,
            peers: peers_view(self.peers@),
            activation_height: self.activation_height,
        }
    }
}

/// Whether the ranges come in ascending order of their first block.
pub open spec fn sorted_by_start(s: Seq<BlockRange>) -> bool {
    forall|i: int, j: int| 0 <= i < j < s.len() ==> s[i].start_block <= s[j].start_block
}

/// Whether `k` is the place of a new range that starts at `start`: behind the
/// ranges that start no later, before those that start later.
pub open spec fn is_insertion_index(s: Seq<BlockRange>, start: u64, k: int) -> bool {
    &&& 0 <= k <= s.len()
    &&& forall|i: int| 0 <= i < k ==> (#[trigger] s[i]).start_block <= start
    &&& forall|i: int| k <= i < s.len() ==> (#[trigger] s[i]).start_block > start
}

/// What holds of a controller in every state: an activation height is
/// recorded exactly when the node has left the idle state, every missed range
/// holds a block, and the ranges are listed in ascending order of their start.
pub open spec fn consistent(v: ControllerView) -> bool {
    &&& (v.summary.state == NodeState::Idle <==> v.summary.activation_height is None)
    &&& forall|i: int| 0 <= i < v.missed.len() ==> (#[trigger] v.missed[i]).valid()
    &&& sorted_by_start(v.missed)
}

/// Whether the node may be activated.
pub open spec fn may_activate(v: ControllerView) -> bool {
    v.summary.state == NodeState::Idle
}

/// Whether the node may be retired.
pub open spec fn may_retire(v: ControllerView) -> bool {
    v.summary.state == NodeState::Active
}

/// Whether the node may take `key` as its new ingress key.
pub open spec fn may_rotate_keys(v: ControllerView) -> bool {
    v.summary.state == NodeState::Idle
}

/// The controller after activation at the ledger height `height`.
pub open spec fn activated(v: ControllerView, height: u64) -> ControllerView {
    ControllerView {
        summary: SummaryView {
            state: NodeState::Active,
            activation_height: Some(height),
            ..v.summary
        },
        ..v
    }
}

/// The controller after retirement.
pub open spec fn retired(v: ControllerView) -> ControllerView {
    ControllerView { summary: SummaryView { state: NodeState::Retiring, ..v.summary }, ..v }
}

/// The controller with `key` as its ingress key.
pub open spec fn with_key(v: ControllerView, key: Seq<u8>) -> ControllerView {
    ControllerView { summary: SummaryView { ingress_pubkey: key, ..v.summary }, ..v }
}

/// The controller with the expiry window `window`.
pub open spec fn with_expiry_window(v: ControllerView, window: u64) -> ControllerView {
    ControllerView { summary: SummaryView { pubkey_expiry_window: window, ..v.summary }, ..v }
}

/// The controller with `peers` in place of its peer set.
pub open spec fn with_peers(v: ControllerView, peers: Seq<Seq<u8>>) -> ControllerView {
    ControllerView { summary: SummaryView { peers, ..v.summary }, ..v }
}

/// The controller with `range` recorded at place `k` of its missed ranges.
pub open spec fn with_missed_range(v: ControllerView, k: int, range: BlockRange) -> ControllerView {
    ControllerView { missed: v.missed.insert(k, range), ..v }
}

/// A copy of a byte string.
pub fn copy_bytes(v: &Vec<u8>) -> (r: Vec<u8>)
    ensures
        r@ == v@,
{
    let mut r: Vec<u8> = Vec::new();
    let mut i: usize = 0;
    while i < v.len()
        invariant
            i <= v@.len(),
            r@ == v@.subrange(0, i as int),
        decreases v@.len() - i,
    {
        r.push(v[i]);
        i = i + 1;
        assert(r@ =~= v@.subrange(0, i as int));
    }
    assert(r@ =~= v@);
    r
}

/// Tells whether two byte strings are equal.
pub fn bytes_equal(a: &Vec<u8>, b: &Vec<u8>) -> (r: bool)
    ensures
        r == (a@ == b@),
{
    if a.len() != b.len() {
        return false;
    }
    let mut i: usize = 0;
    while i < a.len()
        invariant
            a@.len() == b@.len(),
            i <= a@.len(),
            forall|k: int| 0 <= k < i ==> a@[k] == b@[k],
        decreases a@.len() - i,
    {
        if a[i] != b[i] {
            return false;
        }
        i = i + 1;
    }
    assert(a@ =~= b@);
    true
}

/// A copy of a list of peers.
pub fn copy_peers(v: &Vec<PeerUri>) -> (r: Vec<PeerUri>)
    ensures
        peers_view(r@) == peers_view(v@),
{
    let mut r: Vec<PeerUri> = Vec::new();
    let mut i: usize = 0;
    while i < v.len()
        invariant
            i <= v@.len(),
            r@.len() == i,
            forall|k: int| 0 <= k < i ==> (#[trigger] r@[k])@ == v@[k]@,
        decreases v@.len() - i,
    {
        r.push(v[i].duplicate());
        i = i + 1;
    }
    assert(peers_view(r@) =~= peers_view(v@));
    r
}

/// A copy of a list of block ranges.
pub fn copy_ranges(v: &Vec<BlockRange>) -> (r: Vec<BlockRange>)
    ensures
        r@ == v@,
{
    let mut r: Vec<BlockRange> = Vec::new();
    let mut i: usize = 0;
    while i < v.len()
        invariant
            i <= v@.len(),
            r@ == v@.subrange(0, i as int),
        decreases v@.len() - i,
    {
        r.push(v[i]);
        i = i + 1;
        assert(r@ =~= v@.subrange(0, i as int));
    }
    assert(r@ =~= v@);
    r
}

/// Where a node stands in its lifecycle, with the ledger height at which it
/// left the idle state.
#[derive(Clone, Copy, Debug)]
enum Lifecycle {
    Idle,
    Active(u64),
    Retiring(u64),
}

/// The state of one ingest node.
#[derive(Debug)]
pub struct IngestController {
    lifecycle: Lifecycle,
    ingress_pubkey: Vec<u8>,
    pubkey_expiry_window: u64,
    peers: Vec<PeerUri>,
    missed: Vec<BlockRange>,
}

impl View for IngestController {
    type V = ControllerView;

    closed spec fn view(&self) -> ControllerView {
        ControllerView {
            summary: SummaryView {
                state: match self.lifecycle {
                    Lifecycle::Idle => NodeState::Idle,
                    Lifecycle::Active(_) => NodeState::Active,
                    Lifecycle::Retiring(_) => NodeState::Retiring,
                },
                ingress_pubkey: self.ingress_pubkey@,
                pubkey_expiry_window: self.pubkey_expiry_window,
                peers: peers_view(self.peers@),
                activation_height: match self.lifecycle {
                    Lifecycle::Idle => None,
                    Lifecycle::Active(h) => Some(h),
                    Lifecycle::Retiring(h) => Some(h),
                },
            },
            missed: self.missed@,
        }
    }
}

impl IngestController {
    /// Every controller is consistent, at every moment.
    #[verifier::type_invariant]
    spec fn inv(self) -> bool {
        consistent(self@)
    }

    /// An idle node with the ingress key `ingress_pubkey`, the expiry window
    /// `pubkey_expiry_window`, no peers and no missed ranges.
    pub fn new(ingress_pubkey: Vec<u8>, pubkey_expiry_window: u64) -> (c: IngestController)
        ensures
            consistent(c@),
            c@.summary.state == NodeState::Idle,
            c@.summary.ingress_pubkey == ingress_pubkey@,
            c@.summary.pubkey_expiry_window == pubkey_expiry_window,
            c@.summary.peers == Seq::<Seq<u8>>::empty(),
            c@.summary.activation_height == None::<u64>,
            c@.missed == Seq::<BlockRange>::empty(),
    {
        let c = IngestController {
            lifecycle: Lifecycle::Idle,
            ingress_pubkey,
            pubkey_expiry_window,
            peers: Vec::new(),
            missed: Vec::new(),
        };
        assert(c@.summary.peers =~= Seq::<Seq<u8>>::empty());
        c
    }

    /// The lifecycle state of the node.
    pub fn state(&self) -> (s: NodeState)
        ensures
            s == self@.summary.state,
    {
        match self.lifecycle {
            Lifecycle::Idle => NodeState::Idle,
            Lifecycle::Active(_) => NodeState::Active,
            Lifecycle::Retiring(_) => NodeState::Retiring,
        }
    }

    /// The ledger height at which the node became active, if it has.
    pub fn activation_height(&self) -> (h: Option<u64>)
        ensures
            h == self@.summary.activation_height,
    {
        match self.lifecycle {
            Lifecycle::Idle => None,
            Lifecycle::Active(h) => Some(h),
            Lifecycle::Retiring(h) => Some(h),
        }
    }

    /// What holds of every controller.
    pub fn check_consistent(&self)
        ensures
            consistent(self@),
    {
        proof {
            use_type_invariant(self);
        }
    }

    /// The node's summary, as it is now.
    pub fn get_ingest_summary(&self) -> (s: IngestSummary)
        ensures
            s@ == self@.summary,
    {
        IngestSummary {
            state: self.state(),
            ingress_pubkey: copy_bytes(&self.ingress_pubkey),
            pubkey_expiry_window: self.pubkey_expiry_window,
            peers: copy_peers(&self.peers),
            activation_height: self.activation_height(),
        }
    }

    /// A copy of the whole controller.
    pub fn snapshot(&self) -> (c: IngestController)
        ensures
            c@ == self@,
    {
        proof {
            use_type_invariant(self);
        }
        IngestController {
            lifecycle: self.lifecycle,
            ingress_pubkey: copy_bytes(&self.ingress_pubkey),
            pubkey_expiry_window: self.pubkey_expiry_window,
            peers: copy_peers(&self.peers),
            missed: copy_ranges(&self.missed),
        }
    }

    /// Makes an idle node active and records the ledger height at which it
    /// became so. In any other state nothing changes.
    pub fn activate(&mut self, current_ledger_height: u64) -> (res: Result<(), IngestServiceError>)
        ensures
            consistent(final(self)@),
            may_activate(old(self)@) ==> res is Ok && final(self)@ == activated(
                old(self)@,
                current_ledger_height,
            ),
            !may_activate(old(self)@) ==> res == Err::<(), IngestServiceError>(
                IngestServiceError::NotIdle,
            ) && *final(self) == *old(self),
    {
        proof {
            use_type_invariant(&*self);
        }
        match self.lifecycle {
            Lifecycle::Idle => {
                self.lifecycle = Lifecycle::Active(current_ledger_height);
                Ok(())
            },
            _ => Err(IngestServiceError::NotIdle),
        }
    }

    /// Retires an active node. In any other state nothing changes.
    pub fn retire(&mut self) -> (res: Result<IngestSummary, IngestServiceError>)
        ensures
            consistent(final(self)@),
            may_retire(old(self)@) ==> final(self)@ == retired(old(self)@) && (res matches Ok(s)
                && s@ == final(self)@.summary),
            !may_retire(old(self)@) ==> (res matches Err(e) && e == IngestServiceError::NotActive)
                && *final(self) == *old(self),
    {
        proof {
            use_type_invariant(&*self);
        }
        match self.lifecycle {
            Lifecycle::Active(height) => {
                self.lifecycle = Lifecycle::Retiring(height);
                Ok(self.get_ingest_summary())
            },
            _ => Err(IngestServiceError::NotActive),
        }
    }

    /// Replaces the ingress key of an idle node by `fresh_key`, which the
    /// enclave generated. A key equal to the one in use is refused, so a
    /// rotation that succeeds always changes the key.
    pub fn new_keys(&mut self, fresh_key: Vec<u8>) -> (res: Result<(), IngestServiceError>)
        ensures
            consistent(final(self)@),
            res is Ok <==> {
                &&& may_rotate_keys(old(self)@)
                &&& fresh_key@ != old(self)@.summary.ingress_pubkey
            },
            res is Ok ==> final(self)@ == with_key(old(self)@, fresh_key@),
            res is Err ==> *final(self) == *old(self),
            !may_rotate_keys(old(self)@) ==> res == Err::<(), IngestServiceError>(
                IngestServiceError::NotIdle,
            ),
            may_rotate_keys(old(self)@) && fresh_key@ == old(self)@.summary.ingress_pubkey ==> res
                == Err::<(), IngestServiceError>(IngestServiceError::KeyNotFresh),
    {
        proof {
            use_type_invariant(&*self);
        }
        match self.lifecycle {
            Lifecycle::Idle => {
                if bytes_equal(&fresh_key, &self.ingress_pubkey) {
                    Err(IngestServiceError::KeyNotFresh)
                } else {
                    self.ingress_pubkey = fresh_key;
                    Ok(())
                }
            },
            _ => Err(IngestServiceError::NotIdle),
        }
    }

    /// Sets for how many blocks a retired key stays valid. Legal in every
    /// state.
    pub fn set_pubkey_expiry_window(&mut self, window: u64) -> (res: Result<
        (),
        IngestServiceError,
    >)
        ensures
            consistent(final(self)@),
            res is Ok,
            final(self)@ == with_expiry_window(old(self)@, window),
    {
        proof {
            use_type_invariant(&*self);
        }
        self.pubkey_expiry_window = window;
        Ok(())
    }

    /// Replaces the whole peer set by `peers`, in their order and with their
    /// repetitions.
    pub fn set_peers(&mut self, peers: Vec<PeerUri>)
        ensures
            consistent(final(self)@),
            final(self)@ == with_peers(old(self)@, peers_view(peers@)),
    {
        proof {
            use_type_invariant(&*self);
        }
        self.peers = peers;
    }

    /// Records a range of blocks that no node scanned. A range without a
    /// block is refused. A range that is accepted takes its place by its first
    /// block, behind the ranges recorded earlier that start at the same block;
    /// no range is merged or dropped.
    pub fn report_missed_block_range(&mut self, range: &BlockRange) -> (res: Result<
        (),
        IngestServiceError,
    >)
        ensures
            consistent(final(self)@),
            res is Ok <==> range.valid(),
            res is Err ==> res == Err::<(), IngestServiceError>(
                IngestServiceError::InvalidBlockRange,
            ) && *final(self) == *old(self),
            res is Ok ==> exists|k: int|
                is_insertion_index(old(self)@.missed, range.start_block, k) && final(self)@
                    == with_missed_range(old(self)@, k, *range),
            res is Ok ==> final(self)@.missed.contains(*range),
    {
        proof {
            use_type_invariant(&*self);
        }
        if !range.is_valid() {
            return Err(IngestServiceError::InvalidBlockRange);
        }
        let mut k: usize = 0;
        while k < self.missed.len() && self.missed[k].start_block <= range.start_block
            invariant
                *self == *old(self),
                k <= self.missed@.len(),
                forall|i: int| 0 <= i < k ==> (#[trigger] self.missed@[i]).start_block
                    <= range.start_block,
            decreases self.missed@.len() - k,
        {
            k = k + 1;
        }
        assert(is_insertion_index(old(self)@.missed, range.start_block, k as int));
        let mut missed: Vec<BlockRange> = Vec::new();
        std::mem::swap(&mut missed, &mut self.missed);
        missed.insert(k, *range);
        proof {
            law_missed_ranges_grow(old(self)@, k as int, *range);
            assert(missed@[k as int] == *range);
        }
        self.missed = missed;
        Ok(())
    }

    /// All the missed ranges, in ascending order of their first block.
    pub fn get_missed_block_ranges(&self) -> (ranges: Vec<BlockRange>)
        ensures
            ranges@ == self@.missed,
    {
        copy_ranges(&self.missed)
    }
}

} // verus!
