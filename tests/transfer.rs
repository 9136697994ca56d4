use http_bench::transfer::{connect_failed, RequestOutcome, Transfer};

fn count_chunks(chunks: &[&[u8]]) -> RequestOutcome {
    let mut t = Transfer::new();
    for c in chunks {
        assert!(t.can_take(c.len()));
        t.on_chunk(c);
    }
    t.finish()
}

#[test]
fn count_equals_payload_length_for_any_chunking() {
    let payload: Vec<u8> = (0..100u8).collect();
    let whole = count_chunks(&[&payload[..]]);
    assert_eq!(whole, RequestOutcome::Completed { bytes: 100 });
    for size in 1..=100usize {
        let chunks: Vec<&[u8]> = payload.chunks(size).collect();
        assert_eq!(count_chunks(&chunks), RequestOutcome::Completed { bytes: 100 });
    }
    let uneven: Vec<&[u8]> = vec![&payload[0..1], &payload[1..1], &payload[1..60], &payload[60..100]];
    assert_eq!(count_chunks(&uneven), RequestOutcome::Completed { bytes: 100 });
}

#[test]
fn empty_body_counts_zero() {
    assert_eq!(count_chunks(&[]), RequestOutcome::Completed { bytes: 0 });
    assert_eq!(count_chunks(&[&[][..]]), RequestOutcome::Completed { bytes: 0 });
}

#[test]
fn received_tracks_the_running_count() {
    let mut t = Transfer::new();
    assert_eq!(t.received(), 0);
    t.on_chunk(&[1, 2, 3]);
    assert_eq!(t.received(), 3);
    t.on_chunk(&[4; 17]);
    assert_eq!(t.received(), 20);
}

#[test]
fn can_take_refuses_overflow() {
    let t = Transfer::new();
    assert!(t.can_take(0));
    assert!(t.can_take(1 << 20));
}

#[test]
fn connection_failure_counts_zero_bytes() {
    assert_eq!(connect_failed(), RequestOutcome::Completed { bytes: 0 });
}

#[test]
fn body_failure_is_fatal_even_after_bytes() {
    let mut t = Transfer::new();
    t.on_chunk(&[7; 50]);
    let r = t.body_failed("connection reset mid-body".to_string());
    assert_eq!(
        r,
        RequestOutcome::Fatal { detail: "connection reset mid-body".to_string() }
    );
}
