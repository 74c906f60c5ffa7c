use doffy_uploader::chunk::ChunkSpan;
use doffy_uploader::chunked::{ChunkAction, ChunkedUpload, MAX_CONCURRENT_UPLOADS};

fn upload(size: u64, chunk: usize, limit: usize) -> ChunkedUpload {
    ChunkedUpload::new("file.bin".to_string(), size, chunk, limit)
}

#[test]
fn default_cap_is_thirty_two() {
    assert_eq!(MAX_CONCURRENT_UPLOADS, 32);
}

#[test]
fn empty_file_completes_without_a_request() {
    let mut up = upload(0, 1024, 32);
    assert_eq!(up.total_chunks(), 0);
    assert!(up.is_complete());
    assert_eq!(up.next_action(), ChunkAction::Complete);
    assert_eq!(up.started(), 0);
    assert_eq!(up.in_flight(), 0);
}

#[test]
fn single_chunk_file_sends_one_whole_chunk() {
    let mut up = upload(1024, 1024, 32);
    assert_eq!(up.total_chunks(), 1);
    assert_eq!(
        up.next_action(),
        ChunkAction::Send(ChunkSpan { chunk_id: 0, offset: 0, len: 1024 })
    );
    assert_eq!(up.next_action(), ChunkAction::Wait);
    assert!(up.chunk_finished());
    assert_eq!(up.next_action(), ChunkAction::Complete);
    assert!(up.is_complete());
}

#[test]
fn every_chunk_id_is_sent_exactly_once() {
    for limit in 1usize..6 {
        let mut up = upload(1000, 64, limit);
        let total = up.total_chunks();
        assert_eq!(total, 16);
        let mut sent: Vec<u64> = Vec::new();
        loop {
            match up.next_action() {
                ChunkAction::Send(span) => sent.push(span.chunk_id),
                ChunkAction::Wait => assert!(up.chunk_finished()),
                ChunkAction::Complete => break,
            }
        }
        let expected: Vec<u64> = (0..total).collect();
        assert_eq!(sent, expected);
    }
}

#[test]
fn uploads_in_flight_never_exceed_the_cap() {
    for limit in 1usize..8 {
        let mut up = upload(5000, 100, limit);
        let mut peak = 0usize;
        let mut polls = 0u32;
        loop {
            match up.next_action() {
                ChunkAction::Send(_) => {}
                ChunkAction::Wait => {
                    assert!(up.chunk_finished());
                }
                ChunkAction::Complete => break,
            }
            assert!(up.in_flight() <= limit);
            if up.in_flight() > peak {
                peak = up.in_flight();
            }
            polls += 1;
            assert!(polls < 10_000);
        }
        assert_eq!(peak, limit);
        assert_eq!(up.started(), 50);
        assert_eq!(up.in_flight(), 0);
    }
}

#[test]
fn a_full_permit_set_makes_the_driver_wait() {
    let mut up = upload(10, 1, 2);
    assert!(matches!(up.next_action(), ChunkAction::Send(_)));
    assert!(matches!(up.next_action(), ChunkAction::Send(_)));
    assert_eq!(up.next_action(), ChunkAction::Wait);
    assert_eq!(up.in_flight(), 2);
    assert_eq!(up.started(), 2);
    assert!(up.chunk_finished());
    assert_eq!(
        up.next_action(),
        ChunkAction::Send(ChunkSpan { chunk_id: 2, offset: 2, len: 1 })
    );
}

#[test]
fn a_failed_chunk_frees_its_permit_like_any_other() {
    let mut up = upload(3, 1, 1);
    assert!(matches!(up.next_action(), ChunkAction::Send(_)));
    // The upload failed; the driver reports its end all the same.
    assert!(up.chunk_finished());
    assert!(matches!(up.next_action(), ChunkAction::Send(_)));
    assert!(up.chunk_finished());
    assert!(matches!(up.next_action(), ChunkAction::Send(_)));
    assert!(up.chunk_finished());
    assert_eq!(up.next_action(), ChunkAction::Complete);
}

#[test]
fn finishing_with_nothing_in_flight_changes_nothing() {
    let mut up = upload(100, 10, 4);
    assert!(!up.chunk_finished());
    assert_eq!(up.in_flight(), 0);
    assert_eq!(up.started(), 0);
    assert!(matches!(up.next_action(), ChunkAction::Send(_)));
}

#[test]
fn getters_give_what_the_transfer_was_made_with() {
    let up = upload(4096, 1000, 7);
    assert_eq!(up.file_name(), "file.bin");
    assert_eq!(up.file_size(), 4096);
    assert_eq!(up.chunk_size(), 1000);
    assert_eq!(up.total_chunks(), 5);
    assert_eq!(up.max_concurrency(), 7);
    assert!(!up.is_complete());
}

#[test]
fn envelope_of_a_chunk_names_file_and_place() {
    let up = upload(10, 4, 2);
    let envelope = up.envelope(2, b"hi");
    assert_eq!(envelope.filename, "file.bin");
    assert_eq!(envelope.chunk_id, 2);
    assert_eq!(envelope.total_chunks, 3);
    assert_eq!(envelope.data, "aGk=");
}
