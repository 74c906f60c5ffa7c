use doffy_uploader::progress::ProgressState;

#[test]
fn new_counter_stands_at_zero() {
    let state = ProgressState::new(4096);
    assert_eq!(state.total(), 4096);
    assert_eq!(state.position(), 0);
    assert!(!state.is_finished());
}

#[test]
fn a_ready_read_counts_the_bytes_it_delivered() {
    let mut state = ProgressState::new(100);
    assert_eq!(state.record_read(0, 40, true), 40);
    assert_eq!(state.position(), 40);
    assert_eq!(state.record_read(10, 70, true), 60);
    assert_eq!(state.position(), 100);
}

#[test]
fn a_pending_or_failed_read_counts_nothing() {
    let mut state = ProgressState::new(100);
    assert_eq!(state.record_read(0, 40, false), 0);
    assert_eq!(state.position(), 0);
}

#[test]
fn end_of_stream_counts_nothing() {
    let mut state = ProgressState::new(100);
    assert_eq!(state.record_read(25, 25, true), 0);
    assert_eq!(state.record_read(30, 20, true), 0);
    assert_eq!(state.position(), 0);
}

#[test]
fn full_read_counts_the_file_length_whatever_the_buffer_size() {
    let file_size: u64 = 10_000;
    for buffer in [1usize, 7, 64, 1000, 4096, 10_000, 65_536] {
        let mut state = ProgressState::new(file_size);
        let mut left = file_size as usize;
        let mut last = 0u64;
        while left > 0 {
            let n = left.min(buffer);
            assert_eq!(state.record_read(0, n, true), n as u64);
            assert!(state.position() >= last);
            last = state.position();
            left -= n;
        }
        // The read that finds the end of the stream.
        assert_eq!(state.record_read(0, 0, true), 0);
        assert_eq!(state.finish(), file_size);
        assert_eq!(state.position(), state.total());
    }
}

#[test]
fn a_finished_counter_no_longer_moves() {
    let mut state = ProgressState::new(10);
    assert_eq!(state.record_read(0, 4, true), 4);
    assert_eq!(state.finish(), 4);
    assert!(state.is_finished());
    assert_eq!(state.record_read(0, 6, true), 0);
    assert_eq!(state.position(), 4);
    assert_eq!(state.finish(), 4);
}

#[test]
fn the_count_stops_at_the_largest_number() {
    let mut state = ProgressState::new(u64::MAX);
    assert_eq!(state.record_read(0, usize::MAX, true), usize::MAX as u64);
    assert_eq!(state.record_read(0, 10, true), 10);
    assert_eq!(state.position(), u64::MAX);
}

#[test]
fn finish_message_names_the_count() {
    let mut state = ProgressState::new(2048);
    assert_eq!(state.finish_message(), "Uploaded 0 bytes");
    state.record_read(0, 2048, true);
    assert_eq!(state.finish_message(), "Uploaded 2048 bytes");
}
