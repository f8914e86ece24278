use netwatch::aggregator::{NetworkEventProcessor, ProcessorInput, ProcessorOutput, ReleasePolicy};
use netwatch::event::NetworkEvent;

fn ev(n: i64) -> NetworkEvent {
    NetworkEvent {
        timestamp: n,
        source_ip: format!("10.0.0.{}", n),
        dest_ip: "10.0.0.254".to_string(),
        protocol: "UDP".to_string(),
        summary: format!("event {}", n),
    }
}

fn stamps(batch: &[NetworkEvent]) -> Vec<i64> {
    batch.iter().map(|e| e.timestamp).collect()
}

#[test]
fn oldest_event_is_evicted_past_capacity() {
    let mut p = NetworkEventProcessor::new(3, 100);
    for n in 1..=4 {
        assert!(p.ingest(ev(n)).is_none());
    }
    assert_eq!(p.len(), 3);
    let batch = p.release_on_demand("what happened?");
    assert_eq!(stamps(&batch), vec![2, 3, 4]);
    assert_eq!(batch[0].summary, "event 2");
}

#[test]
fn bound_holds_over_many_ingests() {
    let mut p = NetworkEventProcessor::new(5, 10);
    for n in 0..50 {
        p.ingest(ev(n));
        assert!(p.len() <= 5);
    }
    assert_eq!(stamps(&p.release_on_demand("q")), vec![45, 46, 47, 48, 49]);
}

#[test]
fn timer_release_delivers_one_batch_then_nothing() {
    let mut p = NetworkEventProcessor::with_policy(20, ReleasePolicy::Autonomous);
    for n in 1..=5 {
        assert!(p.ingest(ev(n)).is_none());
    }
    let batch = p.release_on_timer().expect("a batch");
    assert_eq!(stamps(&batch), vec![1, 2, 3, 4, 5]);
    assert_eq!(p.len(), 0);
    assert!(p.release_on_timer().is_none());
}

#[test]
fn empty_demand_gives_empty_batch() {
    let mut p = NetworkEventProcessor::new(20, 100);
    assert!(p.release_on_demand("anything?").is_empty());
}

#[test]
fn second_release_is_empty() {
    let mut p = NetworkEventProcessor::with_policy(10, ReleasePolicy::Autonomous);
    p.ingest(ev(1));
    p.ingest(ev(2));
    assert_eq!(p.release_on_demand("q").len(), 2);
    assert!(p.release_on_timer().is_none());
    assert!(p.release_on_demand("q").is_empty());
    assert!(p.release_on_capacity().is_none());
}

#[test]
fn capacity_release_fires_when_full_in_autonomous_mode() {
    let mut p = NetworkEventProcessor::with_policy(3, ReleasePolicy::Autonomous);
    assert!(p.ingest(ev(1)).is_none());
    assert!(p.ingest(ev(2)).is_none());
    let batch = p.ingest(ev(3)).expect("full buffer is released");
    assert_eq!(stamps(&batch), vec![1, 2, 3]);
    assert_eq!(p.len(), 0);
    assert!(p.ingest(ev(4)).is_none());
    assert_eq!(p.len(), 1);
}

#[test]
fn interactive_mode_never_releases_on_capacity() {
    let mut p = NetworkEventProcessor::new(2, 1);
    assert_eq!(p.policy(), ReleasePolicy::Interactive);
    assert_eq!(p.capacity(), 2);
    assert!(p.ingest(ev(1)).is_none());
    assert!(p.ingest(ev(2)).is_none());
    assert!(p.release_on_capacity().is_none());
    assert_eq!(p.len(), 2);
}

#[test]
fn step_routes_inputs() {
    let mut p = NetworkEventProcessor::with_policy(2, ReleasePolicy::Autonomous);
    assert!(matches!(p.step(ProcessorInput::Tick), ProcessorOutput::Idle));
    assert!(matches!(p.step(ProcessorInput::Event(ev(1))), ProcessorOutput::Idle));
    match p.step(ProcessorInput::Event(ev(2))) {
        ProcessorOutput::Deliver(b) => assert_eq!(stamps(&b), vec![1, 2]),
        _ => panic!("expected a delivery"),
    }
    assert!(matches!(p.step(ProcessorInput::Event(ev(3))), ProcessorOutput::Idle));
    match p.step(ProcessorInput::Query("q".to_string())) {
        ProcessorOutput::Reply(b) => assert_eq!(stamps(&b), vec![3]),
        _ => panic!("expected a reply"),
    }
    match p.step(ProcessorInput::Query("q".to_string())) {
        ProcessorOutput::Reply(b) => assert!(b.is_empty()),
        _ => panic!("expected a reply"),
    }
}

#[test]
fn released_events_are_never_duplicated() {
    let mut p = NetworkEventProcessor::new(3, 10);
    let mut released: Vec<i64> = Vec::new();
    for n in 1..=10 {
        p.ingest(ev(n));
        if n % 4 == 0 {
            released.extend(stamps(&p.release_on_demand("q")));
        }
    }
    released.extend(stamps(&p.release_on_demand("q")));
    assert_eq!(released, vec![2, 3, 4, 6, 7, 8, 9, 10]);
}
