use han_bridge::orchestrator::{IngestEvent, IngestOutcome, Orchestrator, OrchestratorState, SkipReason};
use han_bridge::record::UptimeError;
use han_bridge::session::{ConnectError, PublishError};
use han_bridge::telegram::{DecodeError, DecodedObject, Direction, PowerKind, ReadError, Telegram};

fn telegram_of(objects: Vec<Result<DecodedObject, DecodeError>>) -> Telegram {
    Telegram { identification: b"meter".to_vec(), objects }
}

fn running() -> Orchestrator {
    let mut o = Orchestrator::new();
    o.on_connect_result(Ok(()));
    assert_eq!(o.state, OrchestratorState::Running);
    o
}

#[test]
fn starts_awaiting_session_without_epoch() {
    let o = Orchestrator::new();
    assert_eq!(o.state, OrchestratorState::AwaitingSession);
    assert_eq!(o.epoch, None);
}

#[test]
fn failed_connect_keeps_awaiting() {
    let mut o = Orchestrator::new();
    o.on_connect_result(Err(ConnectError::Network));
    assert_eq!(o.state, OrchestratorState::AwaitingSession);
    o.on_connect_result(Err(ConnectError::Protocol));
    assert_eq!(o.state, OrchestratorState::AwaitingSession);
    o.on_connect_result(Ok(()));
    assert_eq!(o.state, OrchestratorState::Running);
}

#[test]
fn checksum_failure_skips_and_resets_nothing() {
    let mut o = running();
    let before = o;
    let r = o.on_ingest(IngestEvent::DecodeFailed(DecodeError::Checksum));
    assert_eq!(r, IngestOutcome::Skip(SkipReason::Decode(DecodeError::Checksum)));
    assert_eq!(o, before);
    // the pipeline is ready for the next frame at once
    let t = telegram_of(vec![Ok(DecodedObject::DateTime(100))]);
    match o.on_ingest(IngestEvent::Decoded(t)) {
        IngestOutcome::Publish(m) => assert_eq!(m.unix_timestamp, 100),
        other => panic!("expected a record, got {:?}", other),
    }
}

#[test]
fn read_failure_and_idle_skip() {
    let mut o = running();
    let before = o;
    let r = o.on_ingest(IngestEvent::ReadFailed(ReadError::BufferOverflow));
    assert_eq!(r, IngestOutcome::Skip(SkipReason::Read(ReadError::BufferOverflow)));
    assert_eq!(o, before);
    let r = o.on_ingest(IngestEvent::Idle);
    assert_eq!(r, IngestOutcome::Skip(SkipReason::Idle));
    assert_eq!(o, before);
}

#[test]
fn bad_object_skips_whole_telegram() {
    let mut o = running();
    let t = telegram_of(vec![
        Ok(DecodedObject::DateTime(100)),
        Err(DecodeError::InvalidFormat),
    ]);
    let r = o.on_ingest(IngestEvent::Decoded(t));
    assert_eq!(r, IngestOutcome::Skip(SkipReason::Object(DecodeError::InvalidFormat)));
    // no epoch was set by the discarded record
    assert_eq!(o.epoch, None);
}

#[test]
fn end_to_end_first_record() {
    let mut o = running();
    let t = telegram_of(vec![
        Ok(DecodedObject::DateTime(1672531200)),
        Ok(DecodedObject::Energy(PowerKind::Active, Direction::FromGrid, 12345)),
    ]);
    let m = match o.on_ingest(IngestEvent::Decoded(t)) {
        IngestOutcome::Publish(m) => m,
        other => panic!("expected a record, got {:?}", other),
    };
    assert_eq!(m.unix_timestamp, 1672531200);
    assert_eq!(m.energy_active_from_grid_wh, 12345);
    assert_eq!(m.uptime_min, 0);
    assert_eq!(m.energy_active_to_grid_wh, 0);
    assert_eq!(m.energy_reactive_from_grid_varh, 0);
    assert_eq!(m.energy_reactive_to_grid_varh, 0);
    assert_eq!(m.total_power_active_from_grid_w, 0);
    assert_eq!(m.total_power_active_to_grid_w, 0);
    assert_eq!(m.total_power_reactive_from_grid_var, 0);
    assert_eq!(m.total_power_reactive_to_grid_var, 0);
    assert_eq!(m.power_l1_power_active_from_grid_w, 0);
    assert_eq!(m.power_l1_power_active_to_grid_w, 0);
    assert_eq!(m.power_l1_power_reactive_from_grid_var, 0);
    assert_eq!(m.power_l1_power_reactive_to_grid_var, 0);
    assert_eq!(m.power_l2_power_active_from_grid_w, 0);
    assert_eq!(m.power_l2_power_active_to_grid_w, 0);
    assert_eq!(m.power_l2_power_reactive_from_grid_var, 0);
    assert_eq!(m.power_l2_power_reactive_to_grid_var, 0);
    assert_eq!(m.power_l3_power_active_from_grid_w, 0);
    assert_eq!(m.power_l3_power_active_to_grid_w, 0);
    assert_eq!(m.power_l3_power_reactive_from_grid_var, 0);
    assert_eq!(m.power_l3_power_reactive_to_grid_var, 0);
    assert_eq!(m.voltage_l1_dv, 0);
    assert_eq!(m.voltage_l2_dv, 0);
    assert_eq!(m.voltage_l3_dv, 0);
    assert_eq!(m.current_l1_da, 0);
    assert_eq!(m.current_l2_da, 0);
    assert_eq!(m.current_l3_da, 0);
    assert_eq!(o.epoch, Some(1672531200));
}

#[test]
fn epoch_is_set_once_and_uptime_follows_it() {
    let mut o = running();
    let first = telegram_of(vec![Ok(DecodedObject::DateTime(1672531200))]);
    match o.on_ingest(IngestEvent::Decoded(first)) {
        IngestOutcome::Publish(m) => assert_eq!(m.uptime_min, 0),
        other => panic!("expected a record, got {:?}", other),
    }
    // 150 seconds later: floor(150 / 60) = 2 minutes
    let second = telegram_of(vec![Ok(DecodedObject::DateTime(1672531350))]);
    match o.on_ingest(IngestEvent::Decoded(second)) {
        IngestOutcome::Publish(m) => assert_eq!(m.uptime_min, 2),
        other => panic!("expected a record, got {:?}", other),
    }
    // the epoch still belongs to the first record
    assert_eq!(o.epoch, Some(1672531200));
}

#[test]
fn record_older_than_epoch_is_skipped() {
    let mut o = running();
    let first = telegram_of(vec![Ok(DecodedObject::DateTime(1672531200))]);
    assert!(matches!(o.on_ingest(IngestEvent::Decoded(first)), IngestOutcome::Publish(_)));
    let stale = telegram_of(vec![Ok(DecodedObject::DateTime(1672531199))]);
    let r = o.on_ingest(IngestEvent::Decoded(stale));
    assert_eq!(r, IngestOutcome::Skip(SkipReason::Uptime(UptimeError::EpochInFuture)));
    assert_eq!(o.epoch, Some(1672531200));
    assert_eq!(o.state, OrchestratorState::Running);
}

#[test]
fn network_publish_failure_reconnects_exactly_once() {
    let mut o = running();
    o.on_publish_result(Err(PublishError::Network));
    assert_eq!(o.state, OrchestratorState::AwaitingSession);
    // the next connect brings it back; nothing else changed
    o.on_connect_result(Ok(()));
    assert_eq!(o.state, OrchestratorState::Running);
}

#[test]
fn non_network_publish_outcomes_keep_running() {
    let mut o = running();
    o.on_publish_result(Ok(()));
    assert_eq!(o.state, OrchestratorState::Running);
    o.on_publish_result(Err(PublishError::Protocol));
    assert_eq!(o.state, OrchestratorState::Running);
}

#[test]
fn repeated_reconnect_cycles_leave_identical_state() {
    let mut once = running();
    let first = telegram_of(vec![Ok(DecodedObject::DateTime(1672531200))]);
    assert!(matches!(once.on_ingest(IngestEvent::Decoded(first)), IngestOutcome::Publish(_)));

    let mut many = once;
    once.on_publish_result(Err(PublishError::Network));
    once.on_connect_result(Ok(()));
    for _ in 0..1000 {
        many.on_publish_result(Err(PublishError::Network));
        many.on_connect_result(Ok(()));
    }
    assert_eq!(many, once);
}
