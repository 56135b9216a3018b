use usb_logger::frontend::LogQueue;
use usb_logger::transport::{Action, Event, Phase, Transport, WriteOutcome, POLL_INTERVAL_MS, SETTLE_MS};

fn packet_len(a: &Action) -> usize {
    match a {
        Action::WritePacket(p) => p.len(),
        other => panic!("expected a packet, got {:?}", other),
    }
}

/// Brings a task without the host-ready wait up to the point of draining.
fn ready_to_take(chunk: usize) -> Transport {
    let mut t = Transport::new(chunk, false);
    assert_eq!(t.pending_action(), Action::WaitConnection);
    assert_eq!(t.step(Event::Connected), Action::WaitSignal);
    assert_eq!(t.step(Event::Woken), Action::Sleep { ms: SETTLE_MS });
    assert_eq!(t.step(Event::SettleElapsed), Action::Drain);
    t
}

#[test]
fn drain_of_130_bytes_in_packets_of_64() {
    let mut t = ready_to_take(64);
    let data: Vec<u8> = (0..130u32).map(|i| i as u8).collect();
    let a = t.step(Event::Taken(data.clone()));
    assert_eq!(a, Action::WritePacket(data[0..64].to_vec()));
    let b = t.step(Event::Written(WriteOutcome::Sent));
    assert_eq!(b, Action::WritePacket(data[64..128].to_vec()));
    let c = t.step(Event::Written(WriteOutcome::Sent));
    assert_eq!(packet_len(&a), 64);
    assert_eq!(packet_len(&b), 64);
    assert_eq!(packet_len(&c), 2);
    assert_eq!(c, Action::WritePacket(vec![128, 129]));
    assert_eq!(t.step(Event::Written(WriteOutcome::Sent)), Action::WaitSignal);
    assert_eq!(t.current_phase(), Phase::WaitData);
}

#[test]
fn write_during_settle_joins_the_drain() {
    let mut queue = LogQueue::new();
    let mut t = Transport::new(64, false);
    assert_eq!(t.step(Event::Connected), Action::WaitSignal);
    // nothing happens until a wake
    assert_eq!(t.step(Event::SettleElapsed), Action::WaitSignal);
    assert_eq!(t.current_phase(), Phase::WaitData);
    usb_logger::frontend::inner(&mut queue, &[1, 2]);
    assert!(queue.signal.is_pending());
    assert_eq!(t.step(Event::Woken), Action::Sleep { ms: 100 });
    usb_logger::frontend::inner(&mut queue, &[3]);
    assert_eq!(t.step(Event::SettleElapsed), Action::Drain);
    let taken = queue.drain();
    assert_eq!(taken, vec![1, 2, 3]);
    assert_eq!(t.step(Event::Taken(taken)), Action::WritePacket(vec![1, 2, 3]));
}

#[test]
fn disabled_mid_drain_abandons_rest() {
    let mut t = Transport::new(64, true);
    assert_eq!(t.step(Event::Connected), Action::CheckHostReady { delay_ms: 0 });
    assert_eq!(t.step(Event::HostReady(true)), Action::WaitSignal);
    t.step(Event::Woken);
    t.step(Event::SettleElapsed);
    let a = t.step(Event::Taken(vec![5u8; 150]));
    assert_eq!(packet_len(&a), 64);
    assert_eq!(t.step(Event::Written(WriteOutcome::Disabled)), Action::WaitConnection);
    assert_eq!(t.current_phase(), Phase::Disconnected);
    // the rest of the drain is gone: a new cycle follows the link
    assert_eq!(t.step(Event::Written(WriteOutcome::Sent)), Action::WaitConnection);
    assert_eq!(t.step(Event::Connected), Action::CheckHostReady { delay_ms: 0 });
    assert_eq!(t.current_phase(), Phase::WaitReady);
}

#[test]
fn host_not_ready_polls_again() {
    let mut t = Transport::new(64, true);
    t.step(Event::Connected);
    assert_eq!(t.step(Event::HostReady(false)), Action::CheckHostReady { delay_ms: POLL_INTERVAL_MS });
    assert_eq!(t.step(Event::HostReady(false)), Action::CheckHostReady { delay_ms: 500 });
    assert_eq!(t.step(Event::HostReady(true)), Action::WaitSignal);
}

#[test]
fn failed_packet_is_skipped() {
    let mut t = ready_to_take(2);
    assert_eq!(t.step(Event::Taken(vec![1, 2, 3, 4, 5])), Action::WritePacket(vec![1, 2]));
    assert_eq!(t.step(Event::Written(WriteOutcome::Failed)), Action::WritePacket(vec![3, 4]));
    assert_eq!(t.step(Event::Written(WriteOutcome::Sent)), Action::WritePacket(vec![5]));
    assert_eq!(t.step(Event::Written(WriteOutcome::Failed)), Action::WaitSignal);
}

#[test]
fn empty_take_starts_a_new_cycle() {
    let mut t = ready_to_take(64);
    assert_eq!(t.step(Event::Taken(Vec::new())), Action::WaitSignal);
    assert_eq!(t.current_phase(), Phase::WaitData);
}

#[test]
fn unexpected_event_repeats_pending_packet() {
    let mut t = ready_to_take(3);
    assert_eq!(t.step(Event::Taken(vec![1, 2, 3, 4])), Action::WritePacket(vec![1, 2, 3]));
    assert_eq!(t.step(Event::Woken), Action::WritePacket(vec![1, 2, 3]));
    assert_eq!(t.pending_action(), Action::WritePacket(vec![1, 2, 3]));
    assert_eq!(t.step(Event::Written(WriteOutcome::Sent)), Action::WritePacket(vec![4]));
}

#[test]
fn packet_of_exact_chunk_size_ends_drain() {
    let mut t = ready_to_take(4);
    assert_eq!(t.step(Event::Taken(vec![1, 2, 3, 4])), Action::WritePacket(vec![1, 2, 3, 4]));
    assert_eq!(t.step(Event::Written(WriteOutcome::Sent)), Action::WaitSignal);
}
