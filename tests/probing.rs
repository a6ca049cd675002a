use multiping::probe::{
    classify, status_update, success_message, EchoResult, ProbeOutcome, ProbeSession, StatusState,
    PAYLOAD_LEN, TTL_WHEN_ABSENT,
};
use multiping::text::decimal_string;

fn reply(sequence: u16) -> EchoResult {
    EchoResult::Reply { size: 64, sequence, ttl: Some(64), rtt_nanos: 1_250_000 }
}

fn timeout() -> EchoResult {
    EchoResult::Failed { cause: "Request timeout for icmp_seq 0".to_string() }
}

#[test]
fn decimal_text_of_numbers() {
    assert_eq!(decimal_string(0), "0");
    assert_eq!(decimal_string(7), "7");
    assert_eq!(decimal_string(1234), "1234");
    assert_eq!(decimal_string(u64::MAX), "18446744073709551615");
}

#[test]
fn success_message_format() {
    assert_eq!(
        success_message(64, 3, 255, "1.25ms"),
        "64 bytes icmp_seq=3 ttl=255 time=1.25ms"
    );
}

#[test]
fn success_update_formats_round_trip() {
    let o = ProbeOutcome::Success { size: 64, sequence: 0, ttl: 57, rtt_nanos: 1_250_000 };
    let u = status_update(o);
    assert_eq!(u.state, StatusState::Okay);
    assert_eq!(u.message, "64 bytes icmp_seq=0 ttl=57 time=1.25ms");
    assert_eq!(u.increment, 1);
}

#[test]
fn failure_update_carries_cause() {
    let u = status_update(ProbeOutcome::Failure { cause: "Destination unreachable".to_string() });
    assert_eq!(u.state, StatusState::Error);
    assert_eq!(u.message, "Destination unreachable");
    assert_eq!(u.increment, 1);
}

#[test]
fn missing_ttl_becomes_largest() {
    let r = EchoResult::Reply { size: 64, sequence: 2, ttl: None, rtt_nanos: 10 };
    match classify(r) {
        Some(ProbeOutcome::Success { ttl, sequence, .. }) => {
            assert_eq!(ttl, TTL_WHEN_ABSENT);
            assert_eq!(ttl, 255);
            assert_eq!(sequence, 2);
        }
        _ => panic!("a reply is a success"),
    }
    assert!(classify(EchoResult::Unmatched).is_none());
}

#[test]
fn state_tags() {
    assert_eq!(StatusState::Okay.tag(), "ok");
    assert_eq!(StatusState::Error.tag(), "error");
}

#[test]
fn loopback_five_ticks_in_order() {
    let mut s = ProbeSession::new(100);
    let mut seen = Vec::new();
    for _ in 0..5 {
        let req = s.request();
        assert_eq!(req.payload_len, PAYLOAD_LEN);
        assert_eq!(req.payload_len, 56);
        assert_eq!(req.timeout_ms, 100);
        seen.push(req.sequence);
        let u = s.record(reply(req.sequence)).expect("a reply gives an update");
        assert_eq!(u.state, StatusState::Okay);
        assert!(u.message.contains(&format!("icmp_seq={}", req.sequence)));
    }
    assert_eq!(seen, vec![0, 1, 2, 3, 4]);
    assert_eq!(s.ticks(), 5);
    assert_eq!(s.emitted(), 5);
    assert_eq!(s.ignored(), 0);
}

#[test]
fn unreachable_target_reports_every_timeout() {
    let mut s = ProbeSession::new(200);
    for i in 0..4u16 {
        assert_eq!(s.request().sequence, i);
        let u = s.record(timeout()).expect("a failure gives an update");
        assert_eq!(u.state, StatusState::Error);
        assert_eq!(u.message, "Request timeout for icmp_seq 0");
    }
    assert_eq!(s.ticks(), 4);
    assert_eq!(s.emitted(), 4);
}

#[test]
fn unmatched_reply_is_ignored_but_counted() {
    let mut s = ProbeSession::new(1000);
    assert!(s.record(reply(0)).is_some());
    assert!(s.record(EchoResult::Unmatched).is_none());
    assert!(s.record(timeout()).is_some());
    assert_eq!(s.request().sequence, 3);
    assert_eq!(s.ticks(), 3);
    assert_eq!(s.emitted(), 2);
    assert_eq!(s.ignored(), 1);
}

#[test]
fn mixed_outcomes_keep_sequence_without_gaps() {
    let mut s = ProbeSession::new(1000);
    let results = vec![reply(0), timeout(), EchoResult::Unmatched, reply(3), timeout()];
    let mut seen = Vec::new();
    for r in results {
        seen.push(s.request().sequence);
        s.record(r);
    }
    assert_eq!(seen, vec![0, 1, 2, 3, 4]);
}

#[test]
fn two_targets_progress_independently() {
    let mut good = ProbeSession::new(1000);
    let mut bad = ProbeSession::new(1000);
    let mut good_seen = Vec::new();
    let mut bad_seen = Vec::new();
    for round in 0..3 {
        for _ in 0..3 {
            let req = good.request();
            good_seen.push(req.sequence);
            assert_eq!(good.record(reply(req.sequence)).unwrap().state, StatusState::Okay);
        }
        bad_seen.push(bad.request().sequence);
        assert_eq!(bad.record(timeout()).unwrap().state, StatusState::Error);
        assert_eq!(good.ticks(), 3 * (round + 1));
    }
    assert_eq!(good_seen, (0..9).collect::<Vec<u16>>());
    assert_eq!(bad_seen, vec![0, 1, 2]);
}

#[test]
fn wire_sequence_wraps_after_sixteen_bits() {
    let mut s = ProbeSession::new(1);
    for _ in 0..65535u32 {
        s.record(EchoResult::Unmatched);
    }
    assert_eq!(s.request().sequence, 65535);
    s.record(EchoResult::Unmatched);
    assert_eq!(s.ticks(), 65536);
    assert_eq!(s.request().sequence, 0);
}
