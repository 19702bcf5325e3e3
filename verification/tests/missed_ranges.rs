use fog_ingest::block_range::BlockRange;
use fog_ingest::controller::{copy_peers, copy_ranges, IngestController, NodeState};
use fog_ingest::peer_uri::PeerUri;
use fog_ingest::error::{IngestServiceError, Operation, StatusCode};
use fog_ingest::service::IngestService;

#[test]
fn empty_and_inverted_ranges_are_refused() {
    let mut service = IngestService::new(IngestController::new(vec![1], 1));
    let empty = service.report_missed_block_range_impl(5, 5).unwrap_err();
    assert_eq!(empty.code, StatusCode::InvalidArgument);
    assert_eq!(empty.operation, Operation::ReportMissedBlockRange);
    assert_eq!(empty.cause, IngestServiceError::InvalidBlockRange);
    let inverted = service.report_missed_block_range_impl(10, 3).unwrap_err();
    assert_eq!(inverted.code, StatusCode::InvalidArgument);
    assert!(service.get_missed_block_ranges_impl().unwrap().is_empty());
}

#[test]
fn a_reported_range_is_listed() {
    let mut service = IngestService::new(IngestController::new(vec![1], 1));
    assert_eq!(service.report_missed_block_range_impl(5, 10), Ok(()));
    let ranges = service.get_missed_block_ranges_impl().unwrap();
    assert_eq!(ranges, vec![BlockRange { start_block: 5, end_block: 10 }]);
    assert!(ranges.contains(&BlockRange::new(5, 10)));
}

#[test]
fn ranges_are_listed_in_ascending_order_of_start() {
    let mut service = IngestService::new(IngestController::new(vec![1], 1));
    service.report_missed_block_range_impl(20, 30).unwrap();
    service.report_missed_block_range_impl(5, 10).unwrap();
    service.report_missed_block_range_impl(10, 11).unwrap();
    service.report_missed_block_range_impl(5, 7).unwrap();
    service.report_missed_block_range_impl(0, u64::MAX).unwrap();
    assert_eq!(
        service.get_missed_block_ranges_impl().unwrap(),
        vec![
            BlockRange::new(0, u64::MAX),
            BlockRange::new(5, 10),
            BlockRange::new(5, 7),
            BlockRange::new(10, 11),
            BlockRange::new(20, 30),
        ]
    );
}

#[test]
fn overlapping_and_repeated_ranges_are_kept() {
    let mut service = IngestService::new(IngestController::new(vec![1], 1));
    service.report_missed_block_range_impl(5, 10).unwrap();
    service.report_missed_block_range_impl(5, 10).unwrap();
    service.report_missed_block_range_impl(7, 12).unwrap();
    assert_eq!(
        service.get_missed_block_ranges_impl().unwrap(),
        vec![BlockRange::new(5, 10), BlockRange::new(5, 10), BlockRange::new(7, 12)]
    );
}

#[test]
fn ranges_are_recorded_in_every_state_and_change_no_summary() {
    let mut service = IngestService::new(IngestController::new(vec![1], 1));
    service.report_missed_block_range_impl(1, 2).unwrap();
    service.activate_impl(Ok(9)).unwrap();
    let before = service.get_status_impl().unwrap();
    service.report_missed_block_range_impl(3, 4).unwrap();
    assert_eq!(service.get_status_impl().unwrap(), before);
    service.retire_impl().unwrap();
    service.report_missed_block_range_impl(2, 3).unwrap();
    assert_eq!(service.get_status_impl().unwrap().state, NodeState::Retiring);
    assert_eq!(
        service.get_missed_block_ranges_impl().unwrap(),
        vec![BlockRange::new(1, 2), BlockRange::new(2, 3), BlockRange::new(3, 4)]
    );
}

#[test]
fn listing_twice_gives_the_same_ranges() {
    let mut service = IngestService::new(IngestController::new(vec![1], 1));
    service.report_missed_block_range_impl(1, 2).unwrap();
    let first = service.get_missed_block_ranges_impl().unwrap();
    let second = service.get_missed_block_ranges_impl().unwrap();
    assert_eq!(first, second);
}

#[test]
fn a_failed_write_of_a_range_restores_the_listing() {
    let mut service = IngestService::new(IngestController::new(vec![1], 1));
    service.report_missed_block_range_impl(1, 2).unwrap();
    let before = service.checkpoint();
    service.report_missed_block_range_impl(3, 4).unwrap();
    let res = service.confirm_persisted(
        before,
        Operation::ReportMissedBlockRange,
        Err(fog_ingest::error::StorageError::WriteFailed),
    );
    assert_eq!(res.unwrap_err().code, StatusCode::Internal);
    assert_eq!(service.get_missed_block_ranges_impl().unwrap(), vec![BlockRange::new(1, 2)]);
}

#[test]
fn block_range_validity_and_membership() {
    assert!(BlockRange::new(5, 10).is_valid());
    assert!(!BlockRange::new(5, 5).is_valid());
    assert!(!BlockRange::new(10, 3).is_valid());
    let range = BlockRange::new(5, 10);
    assert!(range.contains(5));
    assert!(range.contains(9));
    assert!(!range.contains(10));
    assert!(!range.contains(4));
    assert_eq!(range.start_block, 5);
    assert_eq!(range.end_block, 10);
}

#[test]
fn controller_refuses_an_invalid_range() {
    let mut controller = IngestController::new(vec![1], 1);
    assert_eq!(
        controller.report_missed_block_range(&BlockRange::new(4, 4)),
        Err(IngestServiceError::InvalidBlockRange)
    );
    assert_eq!(controller.report_missed_block_range(&BlockRange::new(4, 5)), Ok(()));
    assert_eq!(controller.get_missed_block_ranges(), vec![BlockRange::new(4, 5)]);
}

#[test]
fn ranges_and_peers_are_copied_whole() {
    let ranges = vec![BlockRange::new(1, 2), BlockRange::new(0, 9)];
    assert_eq!(copy_ranges(&ranges), ranges);
    let peers = vec![PeerUri::parse("a://b:1").unwrap(), PeerUri::parse("c://d:2").unwrap()];
    assert_eq!(copy_peers(&peers), peers);
}
