use kuberic::replicator::receiver::{
    CopyAction, CopyEvent, CopyItem, CopyPhase, CopyTally, Operation, PartitionProgress, ProviderReply,
    ReceiverError, ReplicationAction, ReplicationEvent, ReplicationPhase, SecondaryReceiver,
    StatusCode,
};
use kuberic::replicator::secondary::{ReplicationItem, SecondaryState, StaleEpoch};
use kuberic::types::Epoch;

fn item(lsn: i64, committed_lsn: i64, data: &[u8]) -> ReplicationItem {
    ReplicationItem {
        lsn,
        epoch_data_loss: 0,
        epoch_config: 0,
        committed_lsn,
        data: data.to_vec(),
    }
}

fn persisted() -> SecondaryReceiver {
    SecondaryReceiver::with_streams(SecondaryState::new(), PartitionProgress::new())
}

fn progress(receiver: &SecondaryReceiver) -> (i64, i64) {
    let progress = receiver.partition().unwrap();
    (progress.current_progress, progress.committed_lsn)
}

fn data(lsn: i64, bytes: &[u8]) -> CopyItem {
    CopyItem {
        lsn,
        data: bytes.to_vec(),
        is_boundary: false,
    }
}

fn boundary(lsn: i64) -> CopyItem {
    CopyItem {
        lsn,
        data: Vec::new(),
        is_boundary: true,
    }
}

/// Streams the items of a copy to an application that takes all data.
fn stream_copy(
    receiver: &mut SecondaryReceiver,
    items: Vec<CopyItem>,
) -> (CopyPhase, CopyAction, Vec<(i64, Vec<u8>)>) {
    let mut phase = receiver.begin_copy().unwrap();
    let mut delivered = Vec::new();
    for item in items {
        let (next, action) = receiver.copy_stream(phase, CopyEvent::Item(item));
        phase = next;
        match action {
            CopyAction::Receive => {}
            CopyAction::Deliver(operation) => {
                delivered.push((operation.lsn, operation.data.to_vec()));
                let (next, action) = receiver.copy_stream(phase, CopyEvent::Delivered(true));
                phase = next;
                assert!(matches!(action, CopyAction::Receive));
            }
            other => return (phase, other, delivered),
        }
    }
    let (phase, action) = receiver.copy_stream(phase, CopyEvent::StreamEnded);
    (phase, action, delivered)
}

#[test]
fn copy_progress_waits_for_application_completion() {
    let mut receiver = persisted();
    let phase = receiver.begin_copy().unwrap();
    let (phase, action) = receiver.copy_stream(phase, CopyEvent::Item(data(7, b"snapshot")));
    match action {
        CopyAction::Deliver(operation) => {
            assert_eq!(operation.lsn, 7);
            assert_eq!(&operation.data[..], b"snapshot");
        }
        _ => panic!("the data goes to the application"),
    }
    assert_eq!(progress(&receiver), (0, 0));
    let (phase, _) = receiver.copy_stream(phase, CopyEvent::Delivered(true));
    let (phase, _) = receiver.copy_stream(phase, CopyEvent::Item(boundary(7)));
    let (phase, action) = receiver.copy_stream(phase, CopyEvent::StreamEnded);
    assert!(matches!(action, CopyAction::SendCompletion { lsn: 7 }));
    assert_eq!(progress(&receiver), (0, 0));
    let (dropped, action) = receiver.copy_stream(phase, CopyEvent::CompletionSent(false));
    assert_eq!(dropped, CopyPhase::Finished);
    assert!(matches!(
        action,
        CopyAction::Fail(ReceiverError::CopyReceiverClosed)
    ));
    assert_eq!(progress(&receiver), (0, 0));
    let (phase, action) = receiver.copy_stream(phase, CopyEvent::CompletionSent(true));
    assert!(matches!(action, CopyAction::AwaitCompletion));
    assert_eq!(progress(&receiver), (0, 0));
    let (phase, action) = receiver.copy_stream(phase, CopyEvent::CompletionDone(false));
    assert_eq!(phase, CopyPhase::Finished);
    assert!(matches!(
        action,
        CopyAction::Fail(ReceiverError::CopyNotCompleted)
    ));
    assert_eq!(progress(&receiver), (0, 0));
}

#[test]
fn copy_completion_ack_publishes_empty_and_nonempty_snapshots() {
    for empty in [false, true] {
        let mut receiver = persisted();
        let mut items = Vec::new();
        if !empty {
            items.push(data(7, b"snapshot"));
        }
        items.push(boundary(7));
        let (phase, action, delivered) = stream_copy(&mut receiver, items);
        assert_eq!(delivered.len(), if empty { 0 } else { 1 });
        assert!(matches!(action, CopyAction::SendCompletion { lsn: 7 }));
        let (phase, action) = receiver.copy_stream(phase, CopyEvent::CompletionSent(true));
        assert!(matches!(action, CopyAction::AwaitCompletion));
        assert_eq!(progress(&receiver), (0, 0));
        let (phase, action) = receiver.copy_stream(phase, CopyEvent::CompletionDone(true));
        assert_eq!(phase, CopyPhase::Finished);
        match action {
            CopyAction::Respond { items_received } => {
                assert_eq!(items_received, if empty { 0 } else { 1 })
            }
            _ => panic!("the copy is answered"),
        }
        assert_eq!(progress(&receiver), (7, 7));
    }
}

#[test]
fn persisted_progress_is_published_only_after_application_ack() {
    let mut receiver = persisted();
    let receiving = ReplicationPhase::Receiving;
    let (phase, action) =
        receiver.replication_stream(receiving, ReplicationEvent::Item(item(1, 1, b"one")));
    match action {
        ReplicationAction::Forward(operation) => {
            assert_eq!(operation.lsn, 1);
            assert_eq!(&operation.data[..], b"one");
        }
        _ => panic!("the operation goes to the application"),
    }
    let (phase, _) = receiver.replication_stream(phase, ReplicationEvent::Forwarded(true));
    assert_eq!(progress(&receiver), (0, 0));
    let (phase, action) =
        receiver.replication_stream(phase, ReplicationEvent::ApplicationDone(true));
    match action {
        ReplicationAction::SendAck(ack) => assert_eq!(ack.lsn, 1),
        _ => panic!("the operation is acknowledged"),
    }
    let (phase, _) = receiver.replication_stream(phase, ReplicationEvent::AckSent(true));
    assert_eq!(phase, ReplicationPhase::Receiving);
    let (phase, _) =
        receiver.replication_stream(phase, ReplicationEvent::Item(item(2, 2, b"two")));
    let (phase, _) = receiver.replication_stream(phase, ReplicationEvent::Forwarded(true));
    assert_eq!(progress(&receiver), (1, 1));
    let (phase, action) =
        receiver.replication_stream(phase, ReplicationEvent::ApplicationDone(false));
    assert_eq!(phase, ReplicationPhase::Stopped);
    assert!(matches!(action, ReplicationAction::Stop { refusal: None }));
    assert_eq!(progress(&receiver), (1, 1));
}

#[test]
fn volatile_operations_are_acknowledged_as_they_arrive() {
    let mut receiver = SecondaryReceiver::new(SecondaryState::new());
    assert!(receiver.partition().is_none());
    let (phase, action) = receiver.replication_stream(
        ReplicationPhase::Receiving,
        ReplicationEvent::Item(item(3, 2, b"three")),
    );
    match action {
        ReplicationAction::SendAck(ack) => assert_eq!(ack.lsn, 3),
        _ => panic!("the operation is acknowledged"),
    }
    assert_eq!(receiver.state().received_lsn(), 3);
    assert_eq!(receiver.state().committed_lsn(), 2);
    let (phase, _) = receiver.replication_stream(phase, ReplicationEvent::AckSent(false));
    assert_eq!(phase, ReplicationPhase::Stopped);
}

#[test]
fn a_broken_stream_stops() {
    for event in [
        ReplicationEvent::StreamFailed,
        ReplicationEvent::StreamEnded,
    ] {
        let (phase, action) =
            persisted().replication_stream(ReplicationPhase::Receiving, event);
        assert_eq!(phase, ReplicationPhase::Stopped);
        assert!(matches!(action, ReplicationAction::Stop { refusal: None }));
    }
    assert!(!ReplicationPhase::Stopped.expects(&ReplicationEvent::StreamEnded));
    assert!(!ReplicationPhase::Receiving.expects(&ReplicationEvent::AckSent(true)));
}

#[test]
fn stale_items_end_the_stream_and_change_nothing() {
    let mut receiver = persisted();
    receiver.update_epoch(Epoch::new(1, 2));
    let (phase, action) = receiver.replication_stream(
        ReplicationPhase::Receiving,
        ReplicationEvent::Item(ReplicationItem {
            epoch_data_loss: 1,
            epoch_config: 1,
            ..item(1, 1, b"stale")
        }),
    );
    assert_eq!(phase, ReplicationPhase::Stopped);
    match action {
        ReplicationAction::Stop {
            refusal: Some(refusal),
        } => {
            assert_eq!(refusal.got, Epoch::new(1, 1));
            assert_eq!(refusal.current, Epoch::new(1, 2));
        }
        _ => panic!("the item is refused"),
    }
    assert_eq!(receiver.state().log_len(), 0);
    assert_eq!(progress(&receiver), (0, 0));
}

#[test]
fn an_accepted_item_is_logged_and_watermarks_never_move_back() {
    let mut state = SecondaryState::new();
    assert_eq!(state.accept_item(&item(5, 4, b"five")), Ok(()));
    assert_eq!(state.accept_item(&item(3, 1, b"three")), Ok(()));
    assert_eq!(state.received_lsn(), 5);
    assert_eq!(state.committed_lsn(), 4);
    assert_eq!(state.log_len(), 2);
    assert_eq!(&state.get(5).unwrap()[..], b"five");
    assert_eq!(&state.get(3).unwrap()[..], b"three");
    assert!(state.get(4).is_none());
    assert_eq!(state.accept_item(&item(3, 1, b"again")), Ok(()));
    assert_eq!(state.log_len(), 2);
    assert_eq!(&state.get(3).unwrap()[..], b"again");
}

#[test]
fn an_epoch_change_keeps_exactly_the_committed_operations() {
    let mut state = SecondaryState::default();
    for lsn in 1..=6 {
        state.accept_item(&item(lsn, 0, b"x")).unwrap();
    }
    state.set_committed_lsn(4);
    state.update_epoch(Epoch::new(1, 1));
    assert_eq!(state.epoch(), Epoch::new(1, 1));
    assert_eq!(state.log_len(), 4);
    assert_eq!(state.received_lsn(), 4);
    assert!(state.get(4).is_some());
    assert!(state.get(5).is_none());
    assert_eq!(
        state.accept_item(&item(5, 4, b"old")),
        Err(StaleEpoch {
            got: Epoch::new(0, 0),
            current: Epoch::new(1, 1),
        })
    );
}

#[test]
fn an_epoch_change_keeps_all_that_is_known_to_be_accepted() {
    let mut state = SecondaryState::new();
    for lsn in 1..=3 {
        state.accept_item(&item(lsn, 0, b"x")).unwrap();
    }
    state.set_committed_lsn(state.received_lsn());
    state.update_epoch(Epoch::new(0, 1));
    assert_eq!(state.log_len(), 3);
    assert_eq!(state.received_lsn(), 3);
    state.update_epoch(Epoch::new(0, 1));
    assert_eq!(state.log_len(), 3);
}

#[test]
fn published_progress_survives_an_epoch_change() {
    let mut receiver = persisted();
    let (phase, _) = receiver.replication_stream(
        ReplicationPhase::Receiving,
        ReplicationEvent::Item(item(9, 3, b"nine")),
    );
    let (phase, _) = receiver.replication_stream(phase, ReplicationEvent::Forwarded(true));
    receiver.replication_stream(phase, ReplicationEvent::ApplicationDone(true));
    receiver.update_epoch(Epoch::new(0, 1));
    assert_eq!(progress(&receiver), (9, 3));
    assert_eq!(receiver.state().received_lsn(), 3);
}

#[test]
fn epochs_are_ordered_by_data_loss_first() {
    assert!(Epoch::new(0, 9).is_older_than(&Epoch::new(1, 0)));
    assert!(Epoch::new(1, 0).is_older_than(&Epoch::new(1, 1)));
    assert!(!Epoch::new(1, 1).is_older_than(&Epoch::new(1, 1)));
    assert!(!Epoch::new(2, 0).is_older_than(&Epoch::new(1, 5)));
}

#[test]
fn the_copy_stream_is_used_once() {
    let mut receiver = persisted();
    assert!(receiver.begin_copy().is_ok());
    let error = receiver.begin_copy().unwrap_err();
    assert!(matches!(error, ReceiverError::CopyUnavailable));
    assert_eq!(error.code(), StatusCode::FailedPrecondition);
    assert_eq!(error.message(), "copy stream not available or already used");
    let mut volatile = SecondaryReceiver::new(SecondaryState::new());
    assert!(volatile.begin_copy().is_err());
}

#[test]
fn copies_out_of_order_are_refused() {
    let failure = |items: Vec<CopyItem>| match stream_copy(&mut persisted(), items).1 {
        CopyAction::Fail(error) => (error.code(), error.message()),
        _ => panic!("the copy is refused"),
    };
    assert_eq!(
        failure(vec![boundary(7), data(7, b"late")]),
        (
            StatusCode::InvalidArgument,
            "copy item after completion boundary".to_string()
        )
    );
    assert_eq!(
        failure(vec![data(7, b"data")]),
        (
            StatusCode::InvalidArgument,
            "copy completion boundary missing".to_string()
        )
    );
    assert_eq!(
        failure(vec![]),
        (
            StatusCode::InvalidArgument,
            "copy completion boundary missing".to_string()
        )
    );
    assert_eq!(
        failure(vec![data(8, b"data"), boundary(7)]),
        (
            StatusCode::InvalidArgument,
            "copy data exceeds completion boundary".to_string()
        )
    );
}

#[test]
fn copies_below_their_boundary_are_complete() {
    let mut receiver = persisted();
    let (_, action, delivered) = stream_copy(
        &mut receiver,
        vec![data(5, b"a"), data(6, b"b"), boundary(7)],
    );
    assert!(matches!(action, CopyAction::SendCompletion { lsn: 7 }));
    assert_eq!(
        delivered,
        vec![(5, b"a".to_vec()), (6, b"b".to_vec())]
    );
}

#[test]
fn an_application_that_drops_the_copy_fails_it() {
    let mut receiver = persisted();
    let phase = receiver.begin_copy().unwrap();
    let (phase, _) = receiver.copy_stream(phase, CopyEvent::Item(data(7, b"data")));
    let (_, action) = receiver.copy_stream(phase, CopyEvent::Delivered(false));
    match action {
        CopyAction::Fail(error) => {
            assert_eq!(error.code(), StatusCode::Internal);
            assert_eq!(error.message(), "copy stream receiver closed");
        }
        _ => panic!("the copy fails"),
    }

    let mut receiver = persisted();
    let (phase, _, _) = stream_copy(&mut receiver, vec![boundary(7)]);
    let (phase, _) = receiver.copy_stream(phase, CopyEvent::CompletionSent(true));
    let (_, action) = receiver.copy_stream(phase, CopyEvent::CompletionDone(false));
    match action {
        CopyAction::Fail(error) => {
            assert_eq!(error.message(), "application did not complete copy")
        }
        _ => panic!("the copy fails"),
    }
    assert_eq!(progress(&receiver), (0, 0));

    let mut receiver = persisted();
    let phase = receiver.begin_copy().unwrap();
    let (_, action) = receiver.copy_stream(phase, CopyEvent::StreamFailed("reset".to_string()));
    match action {
        CopyAction::Fail(error) => {
            assert_eq!(error.code(), StatusCode::Internal);
            assert_eq!(error.message(), "reset");
        }
        _ => panic!("the copy fails"),
    }
}

#[test]
fn copy_events_are_expected_one_at_a_time() {
    let phase = persisted().begin_copy().unwrap();
    assert!(phase.expects(&CopyEvent::StreamEnded));
    assert!(!phase.expects(&CopyEvent::Delivered(true)));
    assert!(!CopyPhase::Finished.expects(&CopyEvent::StreamEnded));
    let full = CopyPhase::Delivering(CopyTally {
        count: i64::MAX,
        progress: Some(7),
        boundary: None,
    });
    assert!(!full.expects(&CopyEvent::Delivered(true)));
    assert!(full.expects(&CopyEvent::Delivered(false)));
}

#[test]
fn copy_context_comes_from_the_provider() {
    let volatile = SecondaryReceiver::new(SecondaryState::new());
    assert!(!volatile.asks_provider());
    assert!(volatile
        .get_copy_context(ProviderReply::Closed)
        .unwrap()
        .is_empty());

    let receiver = persisted();
    assert!(receiver.asks_provider());
    let operations = vec![
        Operation {
            lsn: 4,
            data: bytes::Bytes::from_static(b"four"),
        },
        Operation {
            lsn: 5,
            data: bytes::Bytes::from_static(b"five"),
        },
    ];
    let sent = receiver
        .get_copy_context(ProviderReply::Operations(operations))
        .unwrap();
    assert_eq!(sent.len(), 2);
    assert_eq!((sent[0].lsn, &sent[0].data[..]), (4, &b"four"[..]));
    assert_eq!((sent[1].lsn, &sent[1].data[..]), (5, &b"five"[..]));

    let message = |reply| {
        let error = receiver.get_copy_context(reply).unwrap_err();
        assert_eq!(error.code(), StatusCode::Internal);
        error.message()
    };
    assert_eq!(message(ProviderReply::Closed), "state provider closed");
    assert_eq!(
        message(ProviderReply::Dropped),
        "state provider reply dropped"
    );
    assert_eq!(
        message(ProviderReply::Failed("no disk".to_string())),
        "no disk"
    );
}

#[test]
fn stale_epochs_are_told_apart_in_the_message() {
    let error = ReceiverError::Stale(StaleEpoch {
        got: Epoch::new(0, -12),
        current: Epoch::new(1, 40),
    });
    assert_eq!(error.code(), StatusCode::FailedPrecondition);
    assert_eq!(
        error.message(),
        "stale epoch: got Epoch { data_loss_number: 0, configuration_number: -12 }, \
         current Epoch { data_loss_number: 1, configuration_number: 40 }"
    );
}
