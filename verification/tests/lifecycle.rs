use fog_ingest::controller::{bytes_equal, copy_bytes, IngestController, NodeState};
use fog_ingest::error::{
    EnclaveError, IngestServiceError, LedgerError, Operation, RpcStatus, StatusCode, StorageError,
};
use fog_ingest::service::IngestService;

fn fresh_service() -> IngestService {
    IngestService::new(IngestController::new(vec![1, 2, 3], 10))
}

#[test]
fn a_new_node_is_idle_with_nothing_recorded() {
    let mut service = fresh_service();
    let summary = service.get_status_impl().unwrap();
    assert_eq!(summary.state, NodeState::Idle);
    assert_eq!(summary.ingress_pubkey, vec![1, 2, 3]);
    assert_eq!(summary.pubkey_expiry_window, 10);
    assert!(summary.peers.is_empty());
    assert_eq!(summary.activation_height, None);
    assert!(service.get_missed_block_ranges_impl().unwrap().is_empty());
}

#[test]
fn get_status_changes_nothing() {
    let mut service = fresh_service();
    service.activate_impl(Ok(7)).unwrap();
    let first = service.get_status_impl().unwrap();
    let second = service.get_status_impl().unwrap();
    assert_eq!(first, second);
    assert_eq!(first.state, NodeState::Active);
    assert_eq!(first.activation_height, Some(7));
}

#[test]
fn second_activate_fails_and_changes_nothing() {
    let mut service = fresh_service();
    let first = service.activate_impl(Ok(100)).unwrap();
    assert_eq!(first.state, NodeState::Active);
    assert_eq!(first.activation_height, Some(100));
    let second = service.activate_impl(Ok(200)).unwrap_err();
    assert_eq!(second.code, StatusCode::FailedPrecondition);
    assert_eq!(second.operation, Operation::Activate);
    assert_eq!(second.cause, IngestServiceError::NotIdle);
    assert_eq!(service.get_status_impl().unwrap(), first);
}

#[test]
fn activate_passes_on_an_unreadable_ledger() {
    let mut service = fresh_service();
    let status = service.activate_impl(Err(LedgerError::Unreadable)).unwrap_err();
    assert_eq!(status.code, StatusCode::Unavailable);
    assert_eq!(status.cause, IngestServiceError::Ledger(LedgerError::Unreadable));
    assert_eq!(service.get_status_impl().unwrap().state, NodeState::Idle);
    assert_eq!(service.get_status_impl().unwrap().activation_height, None);
}

#[test]
fn retire_is_refused_while_idle() {
    let mut service = fresh_service();
    let status = service.retire_impl().unwrap_err();
    assert_eq!(
        status,
        RpcStatus {
            code: StatusCode::FailedPrecondition,
            operation: Operation::Retire,
            cause: IngestServiceError::NotActive,
        }
    );
    assert_eq!(service.get_status_impl().unwrap().state, NodeState::Idle);
}

#[test]
fn retire_is_refused_while_retiring() {
    let mut service = fresh_service();
    service.activate_impl(Ok(1)).unwrap();
    let retired = service.retire_impl().unwrap();
    assert_eq!(retired.state, NodeState::Retiring);
    let status = service.retire_impl().unwrap_err();
    assert_eq!(status.code, StatusCode::FailedPrecondition);
    assert_eq!(service.get_status_impl().unwrap(), retired);
}

#[test]
fn activate_after_retire_fails() {
    let mut service = fresh_service();
    service.activate_impl(Ok(1)).unwrap();
    service.retire_impl().unwrap();
    let status = service.activate_impl(Ok(2)).unwrap_err();
    assert_eq!(status.code, StatusCode::FailedPrecondition);
    let summary = service.get_status_impl().unwrap();
    assert_eq!(summary.state, NodeState::Retiring);
    assert_eq!(summary.activation_height, Some(1));
}

#[test]
fn new_keys_is_refused_while_active() {
    let mut service = fresh_service();
    service.activate_impl(Ok(1)).unwrap();
    let status = service.new_keys_impl(Ok(vec![9, 9])).unwrap_err();
    assert_eq!(status.code, StatusCode::FailedPrecondition);
    assert_eq!(status.operation, Operation::NewKeys);
    assert_eq!(status.cause, IngestServiceError::NotIdle);
    assert_eq!(service.get_status_impl().unwrap().ingress_pubkey, vec![1, 2, 3]);
}

#[test]
fn successive_new_keys_report_distinct_keys() {
    let mut service = fresh_service();
    let first = service.new_keys_impl(Ok(vec![4, 5, 6])).unwrap();
    let second = service.new_keys_impl(Ok(vec![7, 8, 9])).unwrap();
    assert_eq!(first.ingress_pubkey, vec![4, 5, 6]);
    assert_eq!(second.ingress_pubkey, vec![7, 8, 9]);
    assert_ne!(first.ingress_pubkey, second.ingress_pubkey);
}

#[test]
fn a_repeated_key_is_refused() {
    let mut service = fresh_service();
    service.new_keys_impl(Ok(vec![4, 5, 6])).unwrap();
    let status = service.new_keys_impl(Ok(vec![4, 5, 6])).unwrap_err();
    assert_eq!(status.code, StatusCode::Internal);
    assert_eq!(status.cause, IngestServiceError::KeyNotFresh);
    assert_eq!(service.get_status_impl().unwrap().ingress_pubkey, vec![4, 5, 6]);
}

#[test]
fn new_keys_passes_on_an_enclave_failure() {
    let mut service = fresh_service();
    let status = service.new_keys_impl(Err(EnclaveError::KeyGeneration)).unwrap_err();
    assert_eq!(status.code, StatusCode::Internal);
    assert_eq!(status.cause, IngestServiceError::Enclave(EnclaveError::KeyGeneration));
    assert_eq!(service.get_status_impl().unwrap().ingress_pubkey, vec![1, 2, 3]);
}

#[test]
fn expiry_window_is_set_in_every_state() {
    let mut service = fresh_service();
    assert_eq!(service.set_pubkey_expiry_window_impl(20).unwrap().pubkey_expiry_window, 20);
    service.activate_impl(Ok(1)).unwrap();
    assert_eq!(service.set_pubkey_expiry_window_impl(0).unwrap().pubkey_expiry_window, 0);
    service.retire_impl().unwrap();
    let summary = service.set_pubkey_expiry_window_impl(u64::MAX).unwrap();
    assert_eq!(summary.pubkey_expiry_window, u64::MAX);
    assert_eq!(summary.state, NodeState::Retiring);
}

#[test]
fn new_keys_then_activate_then_retire() {
    let mut service = fresh_service();
    service.new_keys_impl(Ok(vec![42])).unwrap();
    let active = service.activate_impl(Ok(100)).unwrap();
    assert_eq!(active.state, NodeState::Active);
    assert_eq!(active.activation_height, Some(100));
    assert_eq!(active.ingress_pubkey, vec![42]);
    let retiring = service.retire_impl().unwrap();
    assert_eq!(retiring.state, NodeState::Retiring);
    assert_eq!(retiring.activation_height, Some(100));
    assert!(service.activate_impl(Ok(101)).is_err());
    assert_eq!(service.get_status_impl().unwrap().state, NodeState::Retiring);
}

#[test]
fn a_failed_write_restores_the_checkpoint() {
    let mut service = fresh_service();
    let before = service.checkpoint();
    service.activate_impl(Ok(5)).unwrap();
    let status = service
        .confirm_persisted(before, Operation::Activate, Err(StorageError::WriteFailed))
        .unwrap_err();
    assert_eq!(status.code, StatusCode::Internal);
    assert_eq!(status.operation, Operation::Activate);
    assert_eq!(status.cause, IngestServiceError::Storage(StorageError::WriteFailed));
    let summary = service.get_status_impl().unwrap();
    assert_eq!(summary.state, NodeState::Idle);
    assert_eq!(summary.activation_height, None);
    assert!(service.activate_impl(Ok(6)).is_ok());
}

#[test]
fn a_successful_write_keeps_the_change() {
    let mut service = fresh_service();
    let before = service.checkpoint();
    service.activate_impl(Ok(5)).unwrap();
    let summary = service.confirm_persisted(before, Operation::Activate, Ok(())).unwrap();
    assert_eq!(summary.state, NodeState::Active);
    assert_eq!(summary.activation_height, Some(5));
    assert_eq!(service.get_status_impl().unwrap(), summary);
}

#[test]
fn every_error_has_its_class() {
    assert_eq!(IngestServiceError::NotIdle.status_code(), StatusCode::FailedPrecondition);
    assert_eq!(IngestServiceError::NotActive.status_code(), StatusCode::FailedPrecondition);
    assert_eq!(IngestServiceError::InvalidBlockRange.status_code(), StatusCode::InvalidArgument);
    assert_eq!(IngestServiceError::InvalidPeerUri.status_code(), StatusCode::InvalidArgument);
    assert_eq!(IngestServiceError::KeyNotFresh.status_code(), StatusCode::Internal);
    assert_eq!(
        IngestServiceError::Enclave(EnclaveError::KeyGeneration).status_code(),
        StatusCode::Internal
    );
    assert_eq!(
        IngestServiceError::Storage(StorageError::WriteFailed).status_code(),
        StatusCode::Internal
    );
    assert_eq!(
        IngestServiceError::Ledger(LedgerError::Unreadable).status_code(),
        StatusCode::Unavailable
    );
}

#[test]
fn controller_operations_report_their_own_errors() {
    let mut controller = IngestController::new(vec![1], 0);
    assert_eq!(controller.retire().unwrap_err(), IngestServiceError::NotActive);
    assert_eq!(controller.activate(3), Ok(()));
    assert_eq!(controller.state(), NodeState::Active);
    assert_eq!(controller.activation_height(), Some(3));
    assert_eq!(controller.activate(4), Err(IngestServiceError::NotIdle));
    assert_eq!(controller.new_keys(vec![2]), Err(IngestServiceError::NotIdle));
    assert_eq!(controller.set_pubkey_expiry_window(9), Ok(()));
    assert_eq!(controller.retire().unwrap().state, NodeState::Retiring);
    assert_eq!(controller.snapshot().get_ingest_summary(), controller.get_ingest_summary());
}

#[test]
fn byte_strings_are_copied_and_compared() {
    let key = vec![1u8, 2, 3];
    assert_eq!(copy_bytes(&key), key);
    assert!(copy_bytes(&Vec::new()).is_empty());
    assert!(bytes_equal(&key, &vec![1, 2, 3]));
    assert!(!bytes_equal(&key, &vec![1, 2, 4]));
    assert!(!bytes_equal(&key, &vec![1, 2]));
    assert!(bytes_equal(&Vec::new(), &Vec::new()));
}

#[test]
fn a_snapshot_is_not_touched_by_later_changes() {
    let mut controller = IngestController::new(vec![1], 1);
    let snapshot = controller.snapshot();
    controller.check_consistent();
    assert_eq!(controller.activate(8), Ok(()));
    assert_eq!(snapshot.state(), NodeState::Idle);
    assert_eq!(snapshot.activation_height(), None);
    assert_eq!(controller.state(), NodeState::Active);
}
