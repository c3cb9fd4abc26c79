use ping_agent::clock::UtcInstant;
use ping_agent::reporter::{Batcher, Branch, Reporter, BATCH_SIZE};
use ping_agent::retry::{register_retry_secs, report_retry_secs};
use ping_agent::structures::{FPingResult, PingResult};

#[test]
fn buffer_reports_full_at_batch_size() {
    let mut b: Batcher<u32> = Batcher::new();
    for i in 0..(BATCH_SIZE as u32 - 1) {
        assert!(!b.ingest(i));
    }
    assert_eq!(b.next_branch(false), Branch::Ingest);
    assert!(b.ingest(9999));
    assert_eq!(b.next_branch(false), Branch::Flush);
    let batch = b.flush().unwrap();
    assert_eq!(batch.len(), 1024);
    assert_eq!(batch[0], 0);
    assert_eq!(batch[1023], 9999);
    assert!(b.buffer.is_empty());
}

#[test]
fn tick_flushes_partial_buffer_in_ingest_order() {
    let mut b: Batcher<u32> = Batcher::new();
    b.ingest(3);
    b.ingest(1);
    b.ingest(2);
    assert_eq!(b.next_branch(true), Branch::Flush);
    assert_eq!(b.flush(), Some(vec![3, 1, 2]));
}

#[test]
fn tick_on_empty_buffer_sends_nothing() {
    let mut b: Batcher<u32> = Batcher::new();
    assert_eq!(b.flush(), None);
}

#[test]
fn parked_batch_is_retried_first_and_delivered_once() {
    let mut b: Batcher<u32> = Batcher::new();
    b.ingest(1);
    let batch = b.flush().unwrap();
    b.park(batch);
    b.ingest(2);
    // While the outage lasts the parked batch is retried and nothing else goes out.
    assert_eq!(b.next_branch(true), Branch::Retry);
    assert_eq!(b.flush(), None);
    let retry = b.take_parked().unwrap();
    assert_eq!(retry, vec![1]);
    b.park(retry);
    assert_eq!(b.next_branch(false), Branch::Retry);
    // The collector recovers: the retry succeeds and the slot empties.
    assert_eq!(b.take_parked(), Some(vec![1]));
    assert_eq!(b.take_parked(), None);
    assert_eq!(b.next_branch(true), Branch::Flush);
    assert_eq!(b.flush(), Some(vec![2]));
}

#[test]
fn retry_waits_stay_in_range() {
    for _ in 0..200 {
        let r = report_retry_secs();
        assert!((10..=15).contains(&r));
        let g = register_retry_secs();
        assert!((5..=15).contains(&g));
    }
}

#[test]
fn ping_request_carries_agent_and_encoded_results() {
    let rep = Reporter::new("http://127.0.0.1:9000", 7).unwrap();
    let results = vec![
        PingResult {
            target: "127.0.0.1".to_string(),
            is_timeout: false,
            send_at: UtcInstant { secs: 1_700_000_000, nanos: 900_000_000 },
            rtt_nanos: Some(1_234_567),
        },
        PingResult {
            target: "10.0.0.1".to_string(),
            is_timeout: true,
            send_at: UtcInstant { secs: 1_700_000_001, nanos: 0 },
            rtt_nanos: None,
        },
    ];
    let req = rep.build_ping_request(&results);
    assert_eq!(req.agent_id, 7);
    assert_eq!(req.results.len(), 2);
    assert_eq!(req.results[0].target, "127.0.0.1");
    assert_eq!(req.results[0].rtt_micros, 1234);
    assert_eq!(req.results[0].send_at, 1_700_000_000);
    assert!(!req.results[0].is_timeout);
    assert!(req.results[1].is_timeout);
    assert_eq!(req.results[1].rtt_micros, 0);
}

#[test]
fn fping_request_carries_version() {
    let rep = Reporter::new("http://collector:9000", 3).unwrap();
    let results = vec![FPingResult { target: "1.1.1.1".to_string(), is_timeout: false, rtt_nanos: Some(2_000) }];
    let req = rep.build_fping_request(&"f7".to_string(), &results);
    assert_eq!(req.version, "f7");
    assert_eq!(req.agent_id, 3);
    assert_eq!(req.results[0].rtt_micros, 2);
}
