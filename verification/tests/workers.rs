//! Scenario tests of the throughput workers, driven through a scripted
//! stream: failed connections, servers that close early, and counted
//! download/upload cycles, each checked against the shared counter.

use std::sync::Barrier;

use netprobe::cycle::TransferCycle;
use netprobe::sync::{new_byte_counter, new_stop_flag, read_counter, set_stop};
use netprobe::target::Target;
use netprobe::worker::{run_download_worker, run_upload_worker, GenericStream};

fn example_target() -> Target {
    Target::new(b"example.com".to_vec(), 80, b"/garbage".to_vec())
}

/// A scripted stream: allows a fixed number of successful writes and
/// reads, then fails every further operation.
struct ScriptedStream {
    writes_left: usize,
    reads_left: usize,
}

impl ScriptedStream {
    fn new(writes_left: usize, reads_left: usize) -> ScriptedStream {
        ScriptedStream { writes_left, reads_left }
    }
}

impl GenericStream for ScriptedStream {
    fn write_all_bytes(&mut self, data: &Vec<u8>) -> bool {
        let _ = data;
        if self.writes_left == 0 {
            return false;
        }
        self.writes_left -= 1;
        true
    }

    fn read_exact_chunk(&mut self, len: usize) -> bool {
        let _ = len;
        if self.reads_left == 0 {
            return false;
        }
        self.reads_left -= 1;
        true
    }
}

#[test]
fn failed_connections_leave_counter_at_zero() {
    // A whole pool of workers, every one without a connection: each still
    // passes both barriers and the counter ends at its initial value.
    let counter = new_byte_counter();
    let stop = new_stop_flag();
    for _ in 0..4 {
        let start = Barrier::new(1);
        let end = Barrier::new(1);
        let credited = run_download_worker(
            None::<ScriptedStream>,
            &example_target(),
            false,
            &counter,
            &start,
            &stop,
            &end,
        );
        assert_eq!(credited, 0);
    }
    let start = Barrier::new(1);
    let end = Barrier::new(1);
    let credited = run_upload_worker(
        None::<ScriptedStream>,
        &example_target(),
        false,
        &counter,
        &start,
        &stop,
        &end,
    );
    assert_eq!(credited, 0);
    assert_eq!(read_counter(&counter), 0);
}

#[test]
fn download_server_closing_after_request_counts_nothing() {
    // The server accepts the connection, takes the request line, then
    // closes: the worker sees the read fail, reaches the end barrier, and
    // contributes nothing beyond already-counted chunks (none here).
    let counter = new_byte_counter();
    let stop = new_stop_flag();
    let start = Barrier::new(1);
    let end = Barrier::new(1);
    let stream = ScriptedStream::new(1, 0);
    let credited = run_download_worker(
        Some(stream),
        &example_target(),
        false,
        &counter,
        &start,
        &stop,
        &end,
    );
    assert_eq!(credited, 0);
    assert_eq!(read_counter(&counter), 0);
}

#[test]
fn download_counts_each_received_chunk_exactly() {
    // One request line goes out, three chunks come back, then the stream
    // fails: exactly three 64 KiB chunks are counted, the head is not.
    let counter = new_byte_counter();
    let stop = new_stop_flag();
    let start = Barrier::new(1);
    let end = Barrier::new(1);
    let stream = ScriptedStream::new(1, 3);
    let credited = run_download_worker(
        Some(stream),
        &example_target(),
        false,
        &counter,
        &start,
        &stop,
        &end,
    );
    assert_eq!(credited, 3 * 65536);
    assert_eq!(read_counter(&counter), 3 * 65536);
}

#[test]
fn upload_counts_header_bytes_and_chunks_exactly() {
    // The request head is counted at its own byte length, then each
    // written 64 KiB chunk at exactly 65536, until the stream fails.
    let counter = new_byte_counter();
    let stop = new_stop_flag();
    let start = Barrier::new(1);
    let end = Barrier::new(1);
    // Head plus two payload chunks succeed, then writing fails.
    let stream = ScriptedStream::new(3, 0);
    let credited = run_upload_worker(
        Some(stream),
        &example_target(),
        false,
        &counter,
        &start,
        &stop,
        &end,
    );
    // The first write is the request head, the next two are 64 KiB
    // payload chunks; the head is counted at its own (positive) length.
    assert!(credited > 2 * 65536);
    assert_eq!(read_counter(&counter), credited);
}

#[test]
fn upload_head_length_matches_what_was_written() {
    let counter = new_byte_counter();
    let stop = new_stop_flag();
    let start = Barrier::new(1);
    let end = Barrier::new(1);
    let target = example_target();
    let hp = target.host_port();
    let stream = ScriptedStream::new(3, 0);
    let credited = run_upload_worker(
        Some(stream),
        &target,
        false,
        &counter,
        &start,
        &stop,
        &end,
    );
    // The head is the only non-chunk write; its length varies only with
    // the timestamp's digit count, and the credited total is exactly
    // head length + two chunks.
    let sample_head = netprobe::request::upload_request_head(&target.path, &hp, 0, 52_428_800);
    let min_head = sample_head.len() as u128;
    assert!(credited >= min_head + 2 * 65536);
    assert!(credited <= min_head + 39 + 2 * 65536);
}

#[test]
fn stop_flag_set_before_loop_counts_nothing() {
    // The measurement window is already over when the worker passes the
    // start barrier: it must not issue a single counted operation.
    let counter = new_byte_counter();
    let stop = new_stop_flag();
    set_stop(&stop);
    let start = Barrier::new(1);
    let end = Barrier::new(1);
    let stream = ScriptedStream::new(usize::MAX, usize::MAX);
    let credited = run_download_worker(
        Some(stream),
        &example_target(),
        false,
        &counter,
        &start,
        &stop,
        &end,
    );
    assert_eq!(credited, 0);
    assert_eq!(read_counter(&counter), 0);
}

#[test]
fn final_read_sees_every_workers_contribution() {
    // Two download workers of one pool, run to completion: the read taken
    // after both have passed the end barrier observes the sum of exactly
    // what each one credited.
    let counter = new_byte_counter();
    let stop = new_stop_flag();
    let mut total: u128 = 0;
    for reads in [2usize, 5usize] {
        let start = Barrier::new(1);
        let end = Barrier::new(1);
        let stream = ScriptedStream::new(1, reads);
        total += run_download_worker(
            Some(stream),
            &example_target(),
            false,
            &counter,
            &start,
            &stop,
            &end,
        );
    }
    assert_eq!(total, 7 * 65536);
    assert_eq!(read_counter(&counter), total);
}

#[test]
fn cycle_declares_two_orders_of_magnitude_more_in_connection_close_mode() {
    let normal = TransferCycle::new(false);
    let close = TransferCycle::new(true);
    assert_eq!(normal.chunk_count, 50);
    assert_eq!(normal.data_size, 52_428_800);
    assert_eq!(close.chunk_count, 15000);
    assert_eq!(close.data_size, 15_728_640_000);
}

#[test]
fn cycle_requests_then_consumes_in_whole_chunks() {
    let mut cycle = TransferCycle::new(false);
    assert!(cycle.needs_request());
    cycle.on_request_sent();
    assert!(!cycle.needs_request());
    assert_eq!(cycle.data_counter, 0);
    cycle.on_chunk();
    assert_eq!(cycle.data_counter, 65536);
}
