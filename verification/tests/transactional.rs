use kuberic::replicator::receiver::Operation;
use kuberic::transactional::drain::{DecodedTransaction, DrainEvent, DrainState};
use kuberic::transactional::host::{
    DrainEnd, Host, HostAnswer, HostEvent, HostState, Purpose, ReplicatorStreams, Running,
};
use kuberic::transactional::provider::{
    ProviderAnswer, ProviderEvent, ProviderRequest, ProviderState, CHUNK_BYTES,
};
use kuberic::transactional::replica::{
    core_error, Error, KubericError, Limits, Replica, RetainedResult, Snapshot, TransactionId,
};
use kuberic::types::Role;

const LIMITS: Limits = Limits {
    max_snapshot_bytes: 1 << 20,
    max_transaction_bytes: 1 << 10,
};

fn identity(transaction: u128) -> TransactionId {
    TransactionId {
        transaction,
        request: format!("request-{transaction}"),
    }
}

fn sha256(command: &[u8]) -> Vec<u8> {
    <sha2::Sha256 as sha2::Digest>::digest(command).to_vec()
}

fn empty() -> Snapshot<u64> {
    Snapshot {
        applied_lsn: 0,
        state: 0,
        results: Vec::new(),
    }
}

/// The counter after the transaction at `lsn` has added `amount`.
fn counted(snapshot: &Snapshot<u64>, lsn: i64, amount: u8) -> Snapshot<u64> {
    let mut results = snapshot.results.clone();
    results.push(RetainedResult {
        identity: identity(lsn as u128),
        digest: sha256(&[amount]),
        version: lsn,
    });
    Snapshot {
        applied_lsn: lsn,
        state: snapshot.state + amount as u64,
        results,
    }
}

fn operation(lsn: i64, data: &[u8]) -> Operation {
    Operation {
        lsn,
        data: bytes::Bytes::copy_from_slice(data),
    }
}

fn receiving() -> DrainState<u64> {
    DrainState::Receive {
        contents: Vec::new(),
    }
}

fn step(
    replica: &mut Replica<u64>,
    copy: bool,
    state: DrainState<u64>,
    event: DrainEvent<u64>,
) -> DrainState<u64> {
    assert!(state.expects(&event));
    replica.drain(copy, LIMITS, state, event)
}

fn failure(state: DrainState<u64>) -> Error {
    match state {
        DrainState::Finished { outcome: Err(error) } => error,
        _ => panic!("the drain fails"),
    }
}

/// A replica that has applied the transaction at 1, which added 7.
fn applied() -> Replica<u64> {
    let mut replica = Replica::new(empty(), 0);
    let next = counted(&replica.snapshot, 1, 7);
    let state = step(
        &mut replica,
        false,
        receiving(),
        DrainEvent::Arrived(operation(1, &[7])),
    );
    match &state {
        DrainState::Build { lsn, payload } => {
            assert_eq!(*lsn, 1);
            assert_eq!(payload, &vec![7]);
        }
        _ => panic!("the operation is applied"),
    }
    let state = step(&mut replica, false, state, DrainEvent::Built(Ok(next)));
    assert!(matches!(state, DrainState::Append { lsn: 1, .. }));
    assert_eq!(replica.snapshot.state, 0);
    let state = step(&mut replica, false, state, DrainEvent::Appended(Ok(())));
    assert!(matches!(state, DrainState::Acknowledge { .. }));
    assert_eq!(replica.snapshot.state, 7);
    let state = step(&mut replica, false, state, DrainEvent::Acknowledged);
    let state = step(
        &mut replica,
        false,
        state,
        DrainEvent::Ended { copy_lsn: None },
    );
    assert!(matches!(state, DrainState::Finished { outcome: Ok(()) }));
    replica
}

#[test]
fn secondary_persists_before_ack_and_rollback_removes_result_with_state() {
    let mut replica = applied();
    assert_eq!(replica.snapshot.state, 7);
    assert_eq!(replica.applied_lsn(), 1);

    let state = replica.ask(LIMITS, ProviderRequest::UpdateEpoch {
        previous_epoch_last_lsn: 0,
    });
    assert!(matches!(state, ProviderState::Recover { lsn: 0 }));
    let state = replica.provider(LIMITS, state, ProviderEvent::Recovered(Ok(empty())));
    assert!(matches!(state, ProviderState::Rollback { lsn: 0, .. }));
    let state = replica.provider(LIMITS, state, ProviderEvent::RolledBack(Ok(())));
    assert!(matches!(
        state,
        ProviderState::Answer {
            answer: ProviderAnswer::EpochUpdated
        }
    ));
    assert!(replica.snapshot.results.is_empty() && replica.snapshot.state == 0);
    assert_eq!(replica.generation, 1);

    let state = step(
        &mut replica,
        false,
        receiving(),
        DrainEvent::Arrived(operation(1, b"truncated")),
    );
    let state = step(
        &mut replica,
        false,
        state,
        DrainEvent::Built(Err(Error::Codec("truncated".to_string()))),
    );
    assert!(matches!(failure(state), Error::Codec(_)));
    assert_eq!(replica.applied_lsn(), 0);
}

#[test]
fn a_failed_append_never_shows() {
    let mut replica = Replica::new(empty(), 0);
    let next = counted(&replica.snapshot, 1, 7);
    let state = step(
        &mut replica,
        false,
        receiving(),
        DrainEvent::Arrived(operation(1, &[7])),
    );
    let state = step(&mut replica, false, state, DrainEvent::Built(Ok(next)));
    let state = step(
        &mut replica,
        false,
        state,
        DrainEvent::Appended(Err(Error::Storage("disk full".to_string()))),
    );
    assert!(matches!(failure(state), Error::Storage(_)));
    assert_eq!(replica.applied_lsn(), 0);
    assert_eq!(replica.snapshot.state, 0);
}

#[test]
fn a_repeated_operation_is_acknowledged_only_with_its_result() {
    let repeat = |identity: TransactionId, command: Vec<u8>| {
        let mut replica = applied();
        let state = step(
            &mut replica,
            false,
            receiving(),
            DrainEvent::Arrived(operation(1, &[7])),
        );
        assert!(matches!(state, DrainState::Decode { .. }));
        step(
            &mut replica,
            false,
            state,
            DrainEvent::Decoded(Ok(DecodedTransaction { identity, command })),
        )
    };
    assert!(matches!(
        repeat(identity(1), vec![7]),
        DrainState::Acknowledge { .. }
    ));
    assert!(matches!(
        failure(repeat(identity(1), vec![8])),
        Error::DuplicateRequest
    ));
    assert!(matches!(
        failure(repeat(identity(2), vec![7])),
        Error::DuplicateRequest
    ));
    let mut renamed = identity(1);
    renamed.request = "another".to_string();
    assert!(matches!(
        failure(repeat(renamed, vec![7])),
        Error::DuplicateRequest
    ));

    let mut replica = applied();
    let state = step(
        &mut replica,
        false,
        receiving(),
        DrainEvent::Arrived(operation(0, &[7])),
    );
    let state = step(
        &mut replica,
        false,
        state,
        DrainEvent::Decoded(Err(Error::Codec("garbled".to_string()))),
    );
    assert!(matches!(failure(state), Error::Codec(_)));
}

#[test]
fn a_failed_or_cancelled_drain_requires_recovery() {
    let mut replica = applied();
    replica.fault();
    let state = step(
        &mut replica,
        false,
        receiving(),
        DrainEvent::Arrived(operation(2, &[1])),
    );
    assert!(matches!(failure(state), Error::RecoveryRequired));
    let state = step(&mut replica, true, receiving(), DrainEvent::Cancelled);
    assert!(matches!(failure(state), Error::RecoveryRequired));
}

/// Drains the operations of a copy.
fn drain_copy(
    replica: &mut Replica<u64>,
    operations: Vec<Operation>,
    copy_lsn: Option<i64>,
) -> DrainState<u64> {
    let mut state = receiving();
    for operation in operations {
        state = step(replica, true, state, DrainEvent::Arrived(operation));
        assert!(matches!(state, DrainState::Acknowledge { .. }));
        state = step(replica, true, state, DrainEvent::Acknowledged);
    }
    step(replica, true, state, DrainEvent::Ended { copy_lsn })
}

#[test]
fn a_copy_is_installed_as_a_whole() {
    let mut replica = Replica::new(empty(), 0);
    let state = drain_copy(
        &mut replica,
        vec![operation(5, b"snap"), operation(5, b"shot")],
        Some(5),
    );
    match &state {
        DrainState::Check { lsn, contents } => {
            assert_eq!(*lsn, 5);
            assert_eq!(contents, b"snapshot");
        }
        _ => panic!("the copy is checked"),
    }
    let snapshot = counted(&empty(), 5, 9);
    let state = step(&mut replica, true, state, DrainEvent::Checked(Ok(snapshot)));
    assert!(matches!(state, DrainState::Install { lsn: 5, .. }));
    assert!(replica.failed);
    assert_eq!(replica.snapshot.state, 0);
    let state = step(&mut replica, true, state, DrainEvent::Installed(Ok(())));
    assert!(matches!(state, DrainState::AcknowledgeCompletion));
    assert!(!replica.failed);
    assert_eq!(replica.snapshot.state, 9);
    assert_eq!(replica.confirmed_lsn, 5);
    let state = step(
        &mut replica,
        true,
        state,
        DrainEvent::CompletionAcknowledged(Ok(())),
    );
    assert!(matches!(state, DrainState::Finished { outcome: Ok(()) }));
}

#[test]
fn a_copy_that_cannot_be_installed_leaves_the_replica_failed() {
    let mut replica = Replica::new(empty(), 0);
    let state = drain_copy(&mut replica, vec![operation(5, b"snapshot")], Some(5));
    let state = step(
        &mut replica,
        true,
        state,
        DrainEvent::Checked(Ok(counted(&empty(), 5, 9))),
    );
    let state = step(
        &mut replica,
        true,
        state,
        DrainEvent::Installed(Err(Error::Storage("disk full".to_string()))),
    );
    assert!(matches!(failure(state), Error::Storage(_)));
    assert!(replica.failed);
    assert_eq!(replica.snapshot.state, 0);
}

#[test]
fn copies_out_of_order_are_invalid() {
    let mut replica = Replica::new(empty(), 0);
    let state = drain_copy(&mut replica, vec![], None);
    match failure(state) {
        Error::Invalid(reason) => assert_eq!(reason, "copy boundary missing"),
        _ => panic!("the copy is invalid"),
    }
    let state = drain_copy(&mut replica, vec![], Some(5));
    let state = step(
        &mut replica,
        true,
        state,
        DrainEvent::Checked(Ok(counted(&empty(), 4, 9))),
    );
    match failure(state) {
        Error::Invalid(reason) => assert_eq!(reason, "copy LSN mismatch"),
        _ => panic!("the copy is invalid"),
    }
    assert!(!replica.failed);
}

#[test]
fn a_copy_that_is_too_large_is_refused() {
    let mut replica = Replica::new(empty(), 0);
    let limits = Limits {
        max_snapshot_bytes: 16,
        ..LIMITS
    };
    let full = vec![0u8; 16 + 32];
    let state = replica.drain(
        true,
        limits,
        receiving(),
        DrainEvent::Arrived(operation(5, &full)),
    );
    assert!(matches!(state, DrainState::Acknowledge { .. }));
    let state = replica.drain(true, limits, state, DrainEvent::Acknowledged);
    let state = replica.drain(
        true,
        limits,
        state,
        DrainEvent::Arrived(operation(5, b"x")),
    );
    assert!(matches!(failure(state), Error::ResourceExhausted));
}

#[test]
fn a_copy_that_is_too_large_is_not_sent() {
    let limits = Limits {
        max_snapshot_bytes: 16,
        ..LIMITS
    };
    let encode = |size: usize| {
        let mut sender = applied();
        let state = sender.ask(limits, ProviderRequest::GetCopyState { up_to_lsn: 1 });
        assert!(matches!(
            state,
            ProviderState::EncodeCopy {
                up_to_lsn: 1,
                max_bytes: 16
            }
        ));
        let state = sender.provider(limits, state, ProviderEvent::Encoded(Ok(vec![9u8; size])));
        assert!(!sender.failed);
        state
    };
    match encode(16 + 32) {
        ProviderState::SendCopy { operations } => {
            assert_eq!(operations.len(), 1);
            assert_eq!(operations[0].data.len(), 48);
        }
        _ => panic!("the copy is sent"),
    }
    assert!(matches!(
        encode(16 + 33),
        ProviderState::Answer {
            answer: ProviderAnswer::Failed(KubericError::Internal(Error::ResourceExhausted))
        }
    ));
}

#[test]
fn a_repeated_operation_that_is_too_large_ends_the_drain() {
    let mut replica = applied();
    let full = vec![0u8; 1024 + 32];
    let state = step(
        &mut replica,
        false,
        receiving(),
        DrainEvent::Arrived(operation(1, &full)),
    );
    match state {
        DrainState::Decode { payload, max_bytes } => {
            assert_eq!(payload, full);
            assert_eq!(max_bytes, 1024);
        }
        _ => panic!("the operation is decoded"),
    }
    let over = vec![0u8; 1024 + 33];
    let state = step(
        &mut replica,
        false,
        receiving(),
        DrainEvent::Arrived(operation(1, &over)),
    );
    assert!(matches!(failure(state), Error::ResourceExhausted));
    assert_eq!(replica.snapshot.applied_lsn, 1);
}

#[test]
fn a_copy_arrives_as_it_was_sent() {
    let contents: Vec<u8> = (0..2 * CHUNK_BYTES + 10).map(|i| i as u8).collect();
    let mut sender = applied();
    let state = sender.ask(LIMITS, ProviderRequest::GetCopyState { up_to_lsn: 1 });
    assert!(matches!(
        state,
        ProviderState::EncodeCopy {
            up_to_lsn: 1,
            max_bytes: 1048576
        }
    ));
    let state = sender.provider(LIMITS, state, ProviderEvent::Encoded(Ok(contents.clone())));
    let operations = match state {
        ProviderState::SendCopy { operations } => operations,
        _ => panic!("the copy is sent"),
    };
    let sizes: Vec<usize> = operations.iter().map(|o| o.data.len()).collect();
    assert_eq!(sizes, vec![CHUNK_BYTES, CHUNK_BYTES, 10]);
    assert!(operations.iter().all(|operation| operation.lsn == 1));
    let mut receiver = Replica::new(empty(), 0);
    match drain_copy(&mut receiver, operations, Some(1)) {
        DrainState::Check {
            contents: arrived, ..
        } => assert_eq!(arrived, contents),
        _ => panic!("the copy is checked"),
    }
}

#[test]
fn an_empty_copy_takes_no_operation() {
    let mut sender = applied();
    let state = sender.ask(LIMITS, ProviderRequest::GetCopyState { up_to_lsn: 0 });
    let state = sender.provider(LIMITS, state, ProviderEvent::Encoded(Ok(Vec::new())));
    match state {
        ProviderState::SendCopy { operations } => assert!(operations.is_empty()),
        _ => panic!("the copy is sent"),
    }
}

#[test]
fn a_copy_waits_for_what_it_contains() {
    let mut replica = applied();
    let state = replica.ask(LIMITS, ProviderRequest::GetCopyState { up_to_lsn: 2 });
    assert!(matches!(state, ProviderState::AwaitApplied { up_to_lsn: 2 }));
    let state = replica.provider(LIMITS, state, ProviderEvent::Waited);
    assert!(matches!(state, ProviderState::AwaitApplied { up_to_lsn: 2 }));
    replica.snapshot.applied_lsn = 2;
    let state = replica.provider(LIMITS, state, ProviderEvent::Waited);
    assert!(matches!(state, ProviderState::EncodeCopy { up_to_lsn: 2, .. }));
    assert!(state.expects(&ProviderEvent::TimedOut));
    let state = replica.provider(LIMITS, state, ProviderEvent::TimedOut);
    assert!(matches!(
        state,
        ProviderState::Answer {
            answer: ProviderAnswer::Failed(KubericError::Internal(Error::RecoveryRequired))
        }
    ));
}

#[test]
fn plain_requests_are_answered_at_once() {
    let mut replica = applied();
    assert!(matches!(
        replica.ask(LIMITS, ProviderRequest::GetLastCommittedLsn),
        ProviderState::Answer {
            answer: ProviderAnswer::LastCommittedLsn(1)
        }
    ));
    assert!(matches!(
        replica.ask(LIMITS, ProviderRequest::GetCopyContext),
        ProviderState::Answer {
            answer: ProviderAnswer::EmptyContext
        }
    ));
    assert!(matches!(
        replica.ask(LIMITS, ProviderRequest::OnDataLoss),
        ProviderState::Answer {
            answer: ProviderAnswer::DataLoss(false)
        }
    ));
    assert!(matches!(
        replica.ask(LIMITS, ProviderRequest::UpdateEpoch {
            previous_epoch_last_lsn: 1
        }),
        ProviderState::Answer {
            answer: ProviderAnswer::EpochUpdated
        }
    ));
    assert_eq!(replica.generation, 1);
    assert_eq!(replica.snapshot.state, 7);
    assert!(matches!(
        core_error(Error::DuplicateRequest),
        KubericError::Internal(Error::DuplicateRequest)
    ));
}

#[test]
fn rollback_takes_confirmations_back_or_fails_the_replica() {
    let mut replica = applied();
    replica.confirmed_lsn = 1;
    let state = replica.ask(LIMITS, ProviderRequest::UpdateEpoch {
        previous_epoch_last_lsn: 0,
    });
    let state = replica.provider(LIMITS, state, ProviderEvent::Recovered(Ok(empty())));
    replica.provider(LIMITS, state, ProviderEvent::RolledBack(Ok(())));
    assert_eq!(replica.confirmed_lsn, 0);
    assert!(!replica.failed);

    let mut replica = applied();
    let state = replica.ask(LIMITS, ProviderRequest::UpdateEpoch {
        previous_epoch_last_lsn: 0,
    });
    let state = replica.provider(
        LIMITS, state,
        ProviderEvent::Recovered(Err(Error::Storage("unreadable".to_string()))),
    );
    assert!(matches!(
        state,
        ProviderState::Answer {
            answer: ProviderAnswer::Failed(KubericError::Internal(Error::Storage(_)))
        }
    ));
    assert!(replica.failed);
    assert_eq!(replica.snapshot.state, 7);

    let mut replica = applied();
    let state = replica.ask(LIMITS, ProviderRequest::UpdateEpoch {
        previous_epoch_last_lsn: 0,
    });
    let state = replica.provider(LIMITS, state, ProviderEvent::Recovered(Ok(empty())));
    replica.provider(
        LIMITS, state,
        ProviderEvent::RolledBack(Err(Error::Storage("stuck".to_string()))),
    );
    assert!(replica.failed);
    assert_eq!(replica.snapshot.state, 7);
}

fn running() -> Running<u64, String> {
    Running {
        host: Host::new(),
        replica: Replica::new(empty(), 0),
        state: HostState::Select,
    }
}

fn send(running: &mut Running<u64, String>, event: HostEvent<String>) {
    assert!(running.host.expects(&running.state, &event));
    assert!(running.expects(&event));
    running.run(event);
}

/// Grants access to the replica, which has to be what is asked for.
fn grant(running: &mut Running<u64, String>) {
    assert!(matches!(running.state, HostState::Access { .. }));
    send(running, HostEvent::Accessed(Ok(())));
}

fn opened() -> Running<u64, String> {
    let mut running = running();
    send(&mut running, HostEvent::Open);
    assert!(matches!(running.state, HostState::CreateReplicator));
    send(
        &mut running,
        HostEvent::Created(Ok(ReplicatorStreams {
            copy: true,
            replication: true,
        })),
    );
    grant(&mut running);
    assert!(matches!(
        running.state,
        HostState::Reply {
            answer: HostAnswer::Opened
        }
    ));
    send(&mut running, HostEvent::Replied);
    running
}

/// A host that has become an idle secondary and drains its copy.
fn copying() -> Running<u64, String> {
    let mut running = opened();
    send(
        &mut running,
        HostEvent::ChangeRole {
            new_role: Role::IdleSecondary,
        },
    );
    assert!(matches!(
        running.state,
        HostState::StopDrain {
            cancel: true,
            wait: false,
            ..
        }
    ));
    send(&mut running, HostEvent::DrainStopped(None));
    grant(&mut running);
    assert!(matches!(running.state, HostState::StartDrain { copy: true }));
    send(&mut running, HostEvent::DrainStarted);
    send(&mut running, HostEvent::Replied);
    running
}

#[test]
fn a_replica_that_is_opened_serves_requests() {
    let mut running = running();
    assert!(!running.host.expects(
        &running.state,
        &HostEvent::Requested(ProviderRequest::OnDataLoss)
    ));
    send(&mut running, HostEvent::Open);
    send(
        &mut running,
        HostEvent::Created(Err("port in use".to_string())),
    );
    match &running.state {
        HostState::Reply {
            answer: HostAnswer::OpenFailed(reason),
        } => assert_eq!(reason, "port in use"),
        _ => panic!("opening fails"),
    }

    let mut running = opened();
    send(
        &mut running,
        HostEvent::Requested(ProviderRequest::OnDataLoss),
    );
    assert!(matches!(running.state, HostState::Serve { .. }));
    send(&mut running, HostEvent::Served);
    assert!(matches!(running.state, HostState::Select));
}

#[test]
fn promotion_waits_for_the_copy() {
    let mut running = copying();
    assert_eq!(running.replica.role, Role::IdleSecondary);
    assert_eq!(running.replica.generation, 1);
    let promote = || HostEvent::ChangeRole {
        new_role: Role::ActiveSecondary,
    };
    send(&mut running, promote());
    assert!(matches!(
        running.state,
        HostState::StopDrain {
            cancel: false,
            wait: true,
            purpose: Purpose::ChangeRole(Role::ActiveSecondary)
        }
    ));
    send(
        &mut running,
        HostEvent::DrainStopped(Some(DrainEnd::Completed)),
    );
    grant(&mut running);
    assert!(matches!(
        running.state,
        HostState::StartDrain { copy: false }
    ));
    assert_eq!(running.replica.role, Role::ActiveSecondary);
    assert_eq!(running.replica.generation, 2);
    assert!(!running.host.replication_stream);
}

#[test]
fn a_failed_copy_refuses_promotion_for_good() {
    let mut running = copying();
    let promote = || HostEvent::ChangeRole {
        new_role: Role::Primary,
    };
    send(&mut running, promote());
    send(
        &mut running,
        HostEvent::DrainStopped(Some(DrainEnd::Failed(Error::ResourceExhausted))),
    );
    assert!(matches!(
        running.state,
        HostState::Reply {
            answer: HostAnswer::RoleRefused(KubericError::Internal(Error::ResourceExhausted))
        }
    ));
    assert!(running.replica.failed);
    send(&mut running, HostEvent::Replied);
    send(&mut running, promote());
    grant(&mut running);
    assert!(matches!(
        running.state,
        HostState::Reply {
            answer: HostAnswer::RoleRefused(KubericError::Internal(Error::RecoveryRequired))
        }
    ));
    assert_eq!(running.replica.role, Role::IdleSecondary);
}

#[test]
fn a_panicked_drain_requires_recovery() {
    let mut running = copying();
    send(
        &mut running,
        HostEvent::ChangeRole {
            new_role: Role::Removed,
        },
    );
    assert!(matches!(
        running.state,
        HostState::StopDrain {
            cancel: true,
            wait: true,
            ..
        }
    ));
    send(
        &mut running,
        HostEvent::DrainStopped(Some(DrainEnd::Panicked)),
    );
    assert!(matches!(
        running.state,
        HostState::Reply {
            answer: HostAnswer::RoleRefused(KubericError::Internal(Error::RecoveryRequired))
        }
    ));
}

#[test]
fn a_cancelled_drain_does_not_hold_up_demotion() {
    let mut running = copying();
    send(
        &mut running,
        HostEvent::ChangeRole {
            new_role: Role::Removed,
        },
    );
    send(
        &mut running,
        HostEvent::DrainStopped(Some(DrainEnd::Failed(Error::RecoveryRequired))),
    );
    grant(&mut running);
    assert!(matches!(
        running.state,
        HostState::Reply {
            answer: HostAnswer::RoleChanged
        }
    ));
    assert_eq!(running.replica.role, Role::Removed);
    assert!(!running.replica.failed);
}

#[test]
fn repeating_a_role_changes_nothing() {
    let mut running = copying();
    let generation = running.replica.generation;
    send(
        &mut running,
        HostEvent::ChangeRole {
            new_role: Role::IdleSecondary,
        },
    );
    assert!(matches!(
        running.state,
        HostState::Reply {
            answer: HostAnswer::RoleChanged
        }
    ));
    assert_eq!(running.replica.generation, generation);
    assert!(running.host.draining);
}

#[test]
fn closing_stops_the_drain_and_exits() {
    let mut running = copying();
    send(&mut running, HostEvent::Close);
    assert!(matches!(
        running.state,
        HostState::StopDrain {
            cancel: true,
            wait: true,
            purpose: Purpose::Close
        }
    ));
    send(
        &mut running,
        HostEvent::DrainStopped(Some(DrainEnd::Completed)),
    );
    grant(&mut running);
    assert!(matches!(
        running.state,
        HostState::Reply {
            answer: HostAnswer::Closed
        }
    ));
    assert_eq!(running.replica.role, Role::Removed);
    assert_eq!(running.replica.generation, 2);
    assert!(running.replica.cancelled);
    send(&mut running, HostEvent::Replied);
    send(&mut running, HostEvent::DrainStopped(None));
    grant(&mut running);
    assert!(matches!(running.state, HostState::Exited));

    for event in [HostEvent::Abort, HostEvent::LifecycleEnded] {
        let mut running = opened();
        send(&mut running, event);
        send(&mut running, HostEvent::DrainStopped(None));
        grant(&mut running);
        assert!(matches!(running.state, HostState::Exited));
        assert_eq!(running.replica.role, Role::Removed);
        assert_eq!(running.replica.generation, 0);
    }
}

#[test]
fn a_drain_that_fails_of_itself_fails_the_replica() {
    let mut replica = applied();
    replica.drain_ended(&DrainEnd::Completed, false);
    assert!(!replica.failed);
    replica.drain_ended(&DrainEnd::Failed(Error::RecoveryRequired), true);
    assert!(!replica.failed);
    replica.drain_ended(&DrainEnd::Panicked, false);
    assert!(!replica.failed);
    replica.drain_ended(&DrainEnd::Failed(Error::ResourceExhausted), false);
    assert!(replica.failed);
}

#[test]
fn an_inaccessible_replica_is_reported() {
    let storage = || Error::Storage("poisoned".to_string());
    let refuse = |running: &mut Running<u64, String>| {
        assert!(matches!(running.state, HostState::Access { .. }));
        send(running, HostEvent::Accessed(Err(storage())));
    };

    let mut opening = running();
    send(&mut opening, HostEvent::Open);
    send(
        &mut opening,
        HostEvent::Created(Ok(ReplicatorStreams {
            copy: true,
            replication: false,
        })),
    );
    refuse(&mut opening);
    assert!(matches!(
        opening.state,
        HostState::Reply {
            answer: HostAnswer::OpenRefused(KubericError::Internal(Error::Storage(_)))
        }
    ));
    assert!(opening.host.serving && opening.host.copy_stream);

    let mut changing = opened();
    send(
        &mut changing,
        HostEvent::ChangeRole {
            new_role: Role::Primary,
        },
    );
    send(&mut changing, HostEvent::DrainStopped(None));
    refuse(&mut changing);
    assert!(matches!(
        changing.state,
        HostState::Reply {
            answer: HostAnswer::RoleRefused(KubericError::Internal(Error::Storage(_)))
        }
    ));
    assert!(changing.replica.failed);
    assert_eq!(changing.host.role, Role::Unknown);

    let mut closing = opened();
    send(&mut closing, HostEvent::Close);
    send(&mut closing, HostEvent::DrainStopped(None));
    refuse(&mut closing);
    assert!(matches!(
        closing.state,
        HostState::Reply {
            answer: HostAnswer::CloseRefused(KubericError::Internal(Error::Storage(_)))
        }
    ));
    assert_eq!(closing.replica.generation, 0);
    send(&mut closing, HostEvent::Replied);
    send(&mut closing, HostEvent::DrainStopped(None));
    refuse(&mut closing);
    assert!(matches!(closing.state, HostState::Exited));
    assert_eq!(closing.replica.role, Role::Unknown);

    let mut replica = applied();
    for request in [
        ProviderRequest::GetLastCommittedLsn,
        ProviderRequest::GetCopyState { up_to_lsn: 1 },
        ProviderRequest::UpdateEpoch {
            previous_epoch_last_lsn: 0,
        },
    ] {
        assert!(!replica.failed);
        assert!(matches!(
            replica.ask_inaccessible(request, storage()),
            ProviderState::Answer {
                answer: ProviderAnswer::Failed(KubericError::Internal(Error::Storage(_)))
            }
        ));
    }
    assert!(replica.failed);
    assert_eq!(replica.generation, 0);
    assert!(matches!(
        replica.ask_inaccessible(ProviderRequest::GetCopyContext, storage()),
        ProviderState::Answer {
            answer: ProviderAnswer::EmptyContext
        }
    ));
    assert!(matches!(
        replica.ask_inaccessible(ProviderRequest::OnDataLoss, storage()),
        ProviderState::Answer {
            answer: ProviderAnswer::DataLoss(false)
        }
    ));

    let mut replica = applied();
    let state = replica.ask(LIMITS, ProviderRequest::GetCopyState { up_to_lsn: 2 });
    assert!(matches!(
        replica.provider(LIMITS, state, ProviderEvent::Inaccessible(storage())),
        ProviderState::Answer {
            answer: ProviderAnswer::Failed(KubericError::Internal(Error::Storage(_)))
        }
    ));
    let state = step(
        &mut replica,
        false,
        receiving(),
        DrainEvent::Inaccessible(storage()),
    );
    assert!(matches!(failure(state), Error::Storage(_)));
}

#[test]
fn a_full_generation_stops_only_what_counts_it() {
    let mut running = opened();
    running.replica.generation = u64::MAX;
    send(
        &mut running,
        HostEvent::Requested(ProviderRequest::OnDataLoss),
    );
    send(&mut running, HostEvent::Served);
    send(
        &mut running,
        HostEvent::ChangeRole {
            new_role: Role::Primary,
        },
    );
    send(&mut running, HostEvent::DrainStopped(None));
    assert!(!running.expects(&HostEvent::Accessed(Ok(()))));
    assert!(running.expects(&HostEvent::Accessed(Err(Error::RecoveryRequired))));
}
