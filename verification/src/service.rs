//! The operations that an ingest node offers to its callers. Each takes
//! plain values and what the node's collaborators returned, makes one call
//! into the controller, and answers with the node's summary or with one
//! classified failure.

use vstd::prelude::*;
use crate::block_range::BlockRange;
use crate::controller::{
    activated, consistent, is_insertion_index, may_activate, may_retire, may_rotate_keys, retired,
    with_expiry_window, with_key, with_missed_range, with_peers, ControllerView, IngestController,
    IngestSummary, NodeState,
};
use crate::error::{
    fails_with, EnclaveError, IngestServiceError, LedgerError, Operation, RpcStatus, StorageError,
};
use crate::peer_uri::{address_bytes, all_peer_addresses, parse_peers};

verus! {

/// The ingest service of one node.
#[derive(Debug)]
pub struct IngestService {
    controller: IngestController,
}

impl View for IngestService {
    type V = ControllerView;

    closed spec fn view(&self) -> ControllerView {
        self.controller@
    }
}

impl IngestService {
    /// A service over `controller`.
    pub fn new(controller: IngestController) -> (service: IngestService)
        ensures
            service@ == controller@,
    {
        IngestService { controller }
    }

    /// The node's summary. Nothing changes and nothing fails.
    pub fn get_status_impl(&mut self) -> (res: Result<IngestSummary, RpcStatus>)
        ensures
            *final(self) == *old(self),
            res matches Ok(summary) && summary@ == old(self)@.summary,
    {
        Ok(self.controller.get_ingest_summary())
    }

    /// Rotates the ingress key of an idle node. `generated` is what the
    /// enclave returned when it was asked for a key pair. The node's state is
    /// tested first; then the enclave's failure is passed on; then a key equal
    /// to the one in use is refused. A failure changes nothing.
    pub fn new_keys_impl(&mut self, generated: Result<Vec<u8>, EnclaveError>) -> (res: Result<
        IngestSummary,
        RpcStatus,
    >)
        ensures
            consistent(final(self)@),
            res is Err ==> *final(self) == *old(self),
            !may_rotate_keys(old(self)@) ==> fails_with(
                res,
                Operation::NewKeys,
                IngestServiceError::NotIdle,
            ),
            may_rotate_keys(old(self)@) ==> match generated {
                Err(e) => fails_with(res, Operation::NewKeys, IngestServiceError::Enclave(e)),
                Ok(key) => if key@ == old(self)@.summary.ingress_pubkey {
                    fails_with(res, Operation::NewKeys, IngestServiceError::KeyNotFresh)
                } else {
                    &&& final(self)@ == with_key(old(self)@, key@)
                    &&& res matches Ok(summary) && summary@ == final(self)@.summary
                },
            },
    {
        self.controller.check_consistent();
        if self.controller.state() != NodeState::Idle {
            return Err(RpcStatus::new(Operation::NewKeys, IngestServiceError::NotIdle));
        }
        match generated {
            Err(e) => Err(RpcStatus::new(Operation::NewKeys, IngestServiceError::Enclave(e))),
            Ok(key) => match self.controller.new_keys(key) {
                Ok(()) => Ok(self.controller.get_ingest_summary()),
                Err(e) => Err(RpcStatus::new(Operation::NewKeys, e)),
            },
        }
    }

    /// Sets for how many blocks a retired key stays valid.
    pub fn set_pubkey_expiry_window_impl(&mut self, pubkey_expiry_window: u64) -> (res: Result<
        IngestSummary,
        RpcStatus,
    >)
        ensures
            consistent(final(self)@),
            final(self)@ == with_expiry_window(old(self)@, pubkey_expiry_window),
            res matches Ok(summary) && summary@ == final(self)@.summary,
    {
        match self.controller.set_pubkey_expiry_window(pubkey_expiry_window) {
            Ok(()) => Ok(self.controller.get_ingest_summary()),
            Err(e) => Err(RpcStatus::new(Operation::SetPubkeyExpiryWindow, e)),
        }
    }

    /// Replaces the peer set by the addresses given, all or none: where one
    /// of them is no peer address the call fails and the peer set stays as it
    /// was.
    pub fn set_peers_impl(&mut self, peer_addresses: Vec<String>) -> (res: Result<
        IngestSummary,
        RpcStatus,
    >)
        ensures
            consistent(final(self)@),
            res is Ok <==> all_peer_addresses(peer_addresses@),
            res is Ok ==> final(self)@ == with_peers(old(self)@, address_bytes(peer_addresses@)),
            res matches Ok(summary) ==> summary@ == final(self)@.summary,
            res is Err ==> fails_with(
                res,
                Operation::SetPeers,
                IngestServiceError::InvalidPeerUri,
            ) && *final(self) == *old(self),
    {
        self.controller.check_consistent();
        match parse_peers(&peer_addresses) {
            Ok(peers) => {
                self.controller.set_peers(peers);
                Ok(self.controller.get_ingest_summary())
            },
            Err(_) => Err(RpcStatus::new(Operation::SetPeers, IngestServiceError::InvalidPeerUri)),
        }
    }

    /// Activates an idle node at the height that the ledger reported.
    /// `ledger_height` is what the ledger returned when it was asked for its
    /// block count; its failure is passed on before the node's state is
    /// looked at. A failure changes nothing.
    pub fn activate_impl(&mut self, ledger_height: Result<u64, LedgerError>) -> (res: Result<
        IngestSummary,
        RpcStatus,
    >)
        ensures
            consistent(final(self)@),
            res is Err ==> *final(self) == *old(self),
            match ledger_height {
                Err(e) => fails_with(res, Operation::Activate, IngestServiceError::Ledger(e)),
                Ok(height) => if may_activate(old(self)@) {
                    &&& final(self)@ == activated(old(self)@, height)
                    &&& res matches Ok(summary) && summary@ == final(self)@.summary
                } else {
                    fails_with(res, Operation::Activate, IngestServiceError::NotIdle)
                },
            },
    {
        self.controller.check_consistent();
        match ledger_height {
            Err(e) => Err(RpcStatus::new(Operation::Activate, IngestServiceError::Ledger(e))),
            Ok(height) => match self.controller.activate(height) {
                Ok(()) => Ok(self.controller.get_ingest_summary()),
                Err(e) => Err(RpcStatus::new(Operation::Activate, e)),
            },
        }
    }

    /// Retires an active node. In any other state the call fails and nothing
    /// changes.
    pub fn retire_impl(&mut self) -> (res: Result<IngestSummary, RpcStatus>)
        ensures
            consistent(final(self)@),
            res is Ok <==> may_retire(old(self)@),
            res is Ok ==> final(self)@ == retired(old(self)@),
            res matches Ok(summary) ==> summary@ == final(self)@.summary,
            res is Err ==> fails_with(
                res,
                Operation::Retire,
                IngestServiceError::NotActive,
            ) && *final(self) == *old(self),
    {
        match self.controller.retire() {
            Ok(summary) => Ok(summary),
            Err(e) => Err(RpcStatus::new(Operation::Retire, e)),
        }
    }

    /// Records the missed range `[start_index, end_index)`. A range that
    /// holds no block is refused and nothing changes.
    pub fn report_missed_block_range_impl(&mut self, start_index: u64, end_index: u64) -> (res:
        Result<(), RpcStatus>)
        ensures
            consistent(final(self)@),
            res is Ok <==> end_index > start_index,
            res is Err ==> fails_with(
                res,
                Operation::ReportMissedBlockRange,
                IngestServiceError::InvalidBlockRange,
            ) && *final(self) == *old(self),
            res is Ok ==> exists|k: int|
                is_insertion_index(old(self)@.missed, start_index, k) && final(self)@
                    == with_missed_range(
                    old(self)@,
                    k,
                    (BlockRange { start_block: start_index, end_block: end_index }),
                ),
            res is Ok ==> final(self)@.missed.contains(
                (BlockRange { start_block: start_index, end_block: end_index }),
            ),
    {
        let block_range = BlockRange::new(start_index, end_index);
        match self.controller.report_missed_block_range(&block_range) {
            Ok(()) => Ok(()),
            Err(e) => Err(RpcStatus::new(Operation::ReportMissedBlockRange, e)),
        }
    }

    /// All the missed ranges that were recorded, in ascending order of their
    /// first block. Nothing changes and nothing fails.
    pub fn get_missed_block_ranges_impl(&mut self) -> (res: Result<Vec<BlockRange>, RpcStatus>)
        ensures
            *final(self) == *old(self),
            res matches Ok(ranges) && ranges@ == old(self)@.missed,
    {
        Ok(self.controller.get_missed_block_ranges())
    }

    /// A copy of the controller as it is now, to go back to if a change
    /// cannot be made durable.
    pub fn checkpoint(&self) -> (c: IngestController)
        ensures
            c@ == self@,
    {
        self.controller.snapshot()
    }

    /// Settles a change once the persistence layer has answered. `outcome` is
    /// what it returned when it was asked to store the change that
    /// `operation` made, and `before` is the checkpoint taken ahead of that
    /// change. Where the write succeeded the change stands; where it failed
    /// the node goes back to `before` and the failure is reported.
    pub fn confirm_persisted(
        &mut self,
        before: IngestController,
        operation: Operation,
        outcome: Result<(), StorageError>,
    ) -> (res: Result<IngestSummary, RpcStatus>)
        ensures
            consistent(final(self)@),
            match outcome {
                Ok(_) => {
                    &&& *final(self) == *old(self)
                    &&& res matches Ok(summary) && summary@ == old(self)@.summary
                },
                Err(e) => final(self)@ == before@ && fails_with(
                    res,
                    operation,
                    IngestServiceError::Storage(e),
                ),
            },
    {
        match outcome {
            Ok(()) => {
                self.controller.check_consistent();
                Ok(self.controller.get_ingest_summary())
            },
            Err(e) => {
                before.check_consistent();
                self.controller = before;
                Err(RpcStatus::new(operation, IngestServiceError::Storage(e)))
            },
        }
    }
}

} // verus!
