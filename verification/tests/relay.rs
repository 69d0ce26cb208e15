use tawqa::error::{IoCause, Side};
use tawqa::relay::{Direction, Pump, PumpAction, PumpEvent, Relay, RelayAction, RelayEvent, RelayResult, READ_LIMIT};

/// Runs one direction between an in-memory source that gives at most
/// `read_size` bytes per read and an in-memory sink that takes at most
/// `write_size` bytes per write; returns what reached the sink and how the
/// direction ended.
fn pump_through(direction: Direction, source: &[u8], read_size: usize, write_size: usize) -> (Vec<u8>, RelayResult) {
    let mut pump = Pump::new(direction);
    let mut sink: Vec<u8> = Vec::new();
    let mut offset = 0;
    let mut action = pump.action();
    loop {
        action = match action {
            PumpAction::Read { limit } => {
                let end = (offset + limit.min(read_size)).min(source.len());
                let chunk = source[offset..end].to_vec();
                offset = end;
                pump.step(PumpEvent::Data(chunk))
            }
            PumpAction::Write => {
                let offered = pump.unwritten();
                let taken = offered.len().min(write_size);
                sink.extend_from_slice(&offered[..taken]);
                pump.step(PumpEvent::Written(taken))
            }
            PumpAction::Stop(result) => return (sink, result),
        };
    }
}

#[test]
fn read_limit_is_fixed() {
    assert_eq!(READ_LIMIT, 8192);
}

#[test]
fn directions_name_their_sides() {
    assert_eq!(Direction::Inbound.source(), Side::Remote);
    assert_eq!(Direction::Inbound.sink(), Side::Local);
    assert_eq!(Direction::Outbound.source(), Side::Local);
    assert_eq!(Direction::Outbound.sink(), Side::Remote);
}

#[test]
fn a_new_pump_asks_to_read() {
    let pump = Pump::new(Direction::Inbound);
    assert_eq!(pump.action(), PumpAction::Read { limit: 8192 });
    assert_eq!(pump.unwritten(), &[] as &[u8]);
}

#[test]
fn every_byte_arrives_in_order_with_short_writes() {
    let source: Vec<u8> = (0..20_000u32).map(|i| (i % 251) as u8).collect();
    for write_size in [1usize, 2, 3, 7, 64, 4096, 100_000] {
        let (sink, result) = pump_through(Direction::Outbound, &source, usize::MAX, write_size);
        assert_eq!(sink, source);
        assert_eq!(result, RelayResult::Closed { by: Side::Local });
    }
}

#[test]
fn every_byte_arrives_in_order_with_short_reads() {
    let source: Vec<u8> = (0..5_000u32).map(|i| (i % 13) as u8).collect();
    for read_size in [1usize, 5, 4999, 5000, 5001] {
        let (sink, result) = pump_through(Direction::Inbound, &source, read_size, 17);
        assert_eq!(sink, source);
        assert_eq!(result, RelayResult::Closed { by: Side::Remote });
    }
}

#[test]
fn an_empty_source_closes_at_once() {
    let (sink, result) = pump_through(Direction::Inbound, &[], 16, 16);
    assert_eq!(sink, Vec::<u8>::new());
    assert_eq!(result, RelayResult::Closed { by: Side::Remote });
}

#[test]
fn a_short_write_leaves_the_rest_pending() {
    let mut pump = Pump::new(Direction::Inbound);
    assert_eq!(pump.step(PumpEvent::Data(vec![1, 2, 3, 4, 5])), PumpAction::Write);
    assert_eq!(pump.unwritten(), &[1, 2, 3, 4, 5]);
    assert_eq!(pump.step(PumpEvent::Written(2)), PumpAction::Write);
    assert_eq!(pump.unwritten(), &[3, 4, 5]);
    assert_eq!(pump.step(PumpEvent::Written(1)), PumpAction::Write);
    assert_eq!(pump.unwritten(), &[4, 5]);
    assert_eq!(pump.step(PumpEvent::Written(2)), PumpAction::Read { limit: 8192 });
    assert_eq!(pump.unwritten(), &[] as &[u8]);
}

#[test]
fn a_write_that_reports_too_much_empties_the_buffer() {
    let mut pump = Pump::new(Direction::Inbound);
    pump.step(PumpEvent::Data(vec![1, 2, 3]));
    assert_eq!(pump.step(PumpEvent::Written(usize::MAX)), PumpAction::Read { limit: 8192 });
    assert_eq!(pump.unwritten(), &[] as &[u8]);
}

#[test]
fn a_read_error_is_the_sources_failure() {
    let mut inbound = Pump::new(Direction::Inbound);
    let failed = RelayResult::IoError { side: Side::Remote, cause: IoCause::ReadFailed };
    assert_eq!(inbound.step(PumpEvent::ReadFailed), PumpAction::Stop(failed));
    let mut outbound = Pump::new(Direction::Outbound);
    let failed = RelayResult::IoError { side: Side::Local, cause: IoCause::ReadFailed };
    assert_eq!(outbound.step(PumpEvent::ReadFailed), PumpAction::Stop(failed));
}

#[test]
fn a_write_error_is_the_sinks_failure_and_keeps_the_bytes() {
    let mut pump = Pump::new(Direction::Inbound);
    pump.step(PumpEvent::Data(vec![9, 8, 7]));
    pump.step(PumpEvent::Written(1));
    let failed = RelayResult::IoError { side: Side::Local, cause: IoCause::WriteFailed };
    assert_eq!(pump.step(PumpEvent::WriteFailed), PumpAction::Stop(failed));
    assert_eq!(pump.unwritten(), &[8, 7]);
    let mut outbound = Pump::new(Direction::Outbound);
    outbound.step(PumpEvent::Data(vec![1]));
    let failed = RelayResult::IoError { side: Side::Remote, cause: IoCause::WriteFailed };
    assert_eq!(outbound.step(PumpEvent::WriteFailed), PumpAction::Stop(failed));
}

#[test]
fn a_write_that_takes_nothing_is_a_stall() {
    let mut pump = Pump::new(Direction::Outbound);
    pump.step(PumpEvent::Data(vec![1, 2]));
    let stalled = RelayResult::IoError { side: Side::Remote, cause: IoCause::WriteStalled };
    assert_eq!(pump.step(PumpEvent::Written(0)), PumpAction::Stop(stalled));
}

#[test]
fn a_write_report_with_nothing_pending_is_ignored() {
    let mut pump = Pump::new(Direction::Outbound);
    assert_eq!(pump.step(PumpEvent::Written(0)), PumpAction::Read { limit: 8192 });
    assert_eq!(pump.step(PumpEvent::Written(5)), PumpAction::Read { limit: 8192 });
}

#[test]
fn bytes_read_out_of_turn_are_kept_in_order() {
    let mut pump = Pump::new(Direction::Inbound);
    pump.step(PumpEvent::Data(vec![1, 2, 3]));
    pump.step(PumpEvent::Written(1));
    assert_eq!(pump.step(PumpEvent::Data(vec![4, 5])), PumpAction::Write);
    assert_eq!(pump.unwritten(), &[2, 3, 4, 5]);
}

#[test]
fn end_of_stream_waits_for_pending_bytes() {
    let mut pump = Pump::new(Direction::Inbound);
    pump.step(PumpEvent::Data(vec![1, 2, 3]));
    assert_eq!(pump.step(PumpEvent::Data(Vec::new())), PumpAction::Write);
    assert_eq!(pump.step(PumpEvent::Written(2)), PumpAction::Write);
    let closed = RelayResult::Closed { by: Side::Remote };
    assert_eq!(pump.step(PumpEvent::Written(1)), PumpAction::Stop(closed));
}

#[test]
fn a_stopped_pump_stays_stopped() {
    let mut pump = Pump::new(Direction::Inbound);
    let closed = PumpAction::Stop(RelayResult::Closed { by: Side::Remote });
    assert_eq!(pump.step(PumpEvent::Data(Vec::new())), closed);
    assert_eq!(pump.step(PumpEvent::Data(vec![1])), closed);
    assert_eq!(pump.step(PumpEvent::ReadFailed), closed);
    assert_eq!(pump.step(PumpEvent::Written(1)), closed);
    assert_eq!(pump.step(PumpEvent::WriteFailed), closed);
    assert_eq!(pump.action(), closed);
    assert_eq!(pump.unwritten(), &[] as &[u8]);
}

#[test]
fn a_running_relay_continues() {
    let relay = Relay::new(false);
    assert_eq!(relay.action(), RelayAction::Continue);
    assert_eq!(relay.result(), None);
}

#[test]
fn remote_half_close_ends_the_relay_on_the_first_end_of_stream() {
    let mut relay = Relay::new(false);
    let closed = RelayResult::Closed { by: Side::Remote };
    assert_eq!(relay.step(RelayEvent::Stopped(Direction::Inbound, closed)), RelayAction::Cancel);
    assert_eq!(relay.result(), Some(closed));
    let woken = RelayResult::IoError { side: Side::Local, cause: IoCause::ReadFailed };
    assert_eq!(relay.step(RelayEvent::Stopped(Direction::Outbound, woken)), RelayAction::Finish(closed));
    assert_eq!(relay.result(), Some(closed));
}

#[test]
fn local_close_ends_the_relay_too() {
    let mut relay = Relay::new(true);
    let closed = RelayResult::Closed { by: Side::Local };
    assert_eq!(relay.step(RelayEvent::Stopped(Direction::Outbound, closed)), RelayAction::Cancel);
    assert_eq!(relay.step(RelayEvent::Stopped(Direction::Outbound, closed)), RelayAction::Cancel);
    let other = RelayResult::Closed { by: Side::Remote };
    assert_eq!(relay.step(RelayEvent::Stopped(Direction::Inbound, other)), RelayAction::Finish(closed));
}

#[test]
fn the_first_failure_is_the_result() {
    let mut relay = Relay::new(false);
    let failed = RelayResult::IoError { side: Side::Remote, cause: IoCause::WriteFailed };
    assert_eq!(relay.step(RelayEvent::Stopped(Direction::Outbound, failed)), RelayAction::Cancel);
    assert_eq!(relay.step(RelayEvent::Signal), RelayAction::Cancel);
    let closed = RelayResult::Closed { by: Side::Remote };
    assert_eq!(relay.step(RelayEvent::Stopped(Direction::Inbound, closed)), RelayAction::Finish(failed));
    assert_eq!(relay.step(RelayEvent::Signal), RelayAction::Finish(failed));
}

#[test]
fn an_unblocked_signal_interrupts_the_relay() {
    let mut relay = Relay::new(false);
    assert_eq!(relay.step(RelayEvent::Signal), RelayAction::Cancel);
    assert_eq!(relay.result(), Some(RelayResult::Interrupted));
    let closed = RelayResult::Closed { by: Side::Remote };
    assert_eq!(relay.step(RelayEvent::Stopped(Direction::Inbound, closed)), RelayAction::Cancel);
    assert_eq!(
        relay.step(RelayEvent::Stopped(Direction::Outbound, closed)),
        RelayAction::Finish(RelayResult::Interrupted)
    );
}

#[test]
fn a_blocked_signal_changes_nothing_and_the_interrupt_byte_travels_as_data() {
    let mut relay = Relay::new(true);
    assert_eq!(relay.step(RelayEvent::Signal), RelayAction::Continue);
    assert_eq!(relay.step(RelayEvent::Signal), RelayAction::Continue);
    assert_eq!(relay.result(), None);
    let typed = [b'l', b's', 0x03, 0x1c, b'\n'];
    let (sent, result) = pump_through(Direction::Outbound, &typed, 16, 2);
    assert_eq!(sent, typed);
    assert_eq!(result, RelayResult::Closed { by: Side::Local });
}
