//! Throughput workers: each drives one connection through repeated
//! download or upload cycles, credits transferred bytes to the shared
//! counter, and participates in the start and end barriers exactly once
//! each, in order — also when it never got a connection, so that siblings
//! and the orchestrator are never left waiting.

use vstd::prelude::*;
use crate::cycle::{
    lemma_download_total_push, lemma_upload_total_push, spec_chunk_count, spec_data_size,
    spec_download_event_ok, spec_download_total, spec_upload_event_ok, spec_upload_total,
    CycleEvent, TransferCycle, CHUNK_BYTES,
};
use crate::request::{download_request_head, upload_request_head, upload_chunk};
use crate::sync::{ByteCounter, StopFlag, counter_add, stop_is_set, barrier_wait};
use crate::target::Target;
use crate::clock::unix_millis;

verus! {

/// An established bidirectional byte stream (plain or encrypted), owned by
/// exactly one worker. Implementations are supplied by the caller; a
/// worker only ever writes whole buffers and reads whole chunks, and
/// treats any failure as fatal to its own loop.
pub trait GenericStream {
    /// Write all of `data`; `true` iff every byte was written.
    fn write_all_bytes(&mut self, data: &Vec<u8>) -> bool;

    /// Read and discard exactly `len` bytes; `true` iff all were read.
    fn read_exact_chunk(&mut self, len: usize) -> bool;
}

/// Download worker. Runs one connection through repeated download cycles
/// until the stop flag is observed or the stream fails, crediting the
/// shared counter with exactly one 64 KiB chunk per successful payload
/// read and nothing for request heads. Returns the total it credited,
/// which is exactly the total of a sequence of download cycle events —
/// whole chunks and genuine request heads for this target, the heads
/// counting for nothing — so received payload alone is ever counted.
/// The stop flag is polled once per operation, against a fixed, far
/// larger-than-reachable budget of polls so the loop provably cannot run
/// unboundedly.
///
/// A worker whose connection establishment failed (`conn` is `None`)
/// still arrives at the start barrier and then the end barrier, in that
/// order, and credits nothing; every exit path arrives at both barriers
/// exactly once.
pub fn run_download_worker<S: GenericStream>(
    conn: Option<S>,
    target: &Target,
    connection_close: bool,
    counter: &ByteCounter,
    start: &std::sync::Barrier,
    stop: &StopFlag,
    end: &std::sync::Barrier,
) -> (credited: u128)
    ensures
        conn is None ==> credited == 0,
        credited % (CHUNK_BYTES as u128) == 0,
        exists|events: Seq<CycleEvent>|
            {
                &&& credited == spec_download_total(events)
                &&& forall|j: int|
                    0 <= j < events.len() ==> spec_download_event_ok(
                        #[trigger] events[j],
                        target.path@,
                        crate::target::spec_host_port(target.host@, target.port as nat),
                        spec_chunk_count(connection_close),
                        spec_data_size(spec_chunk_count(connection_close)),
                    )
            },
{
    let ghost mut events: Seq<CycleEvent> = Seq::empty();
    proof {
        assert(events.map_values(|e: CycleEvent| crate::cycle::spec_download_delta(e))
            =~= Seq::<nat>::empty());
        assert(spec_download_total(events) == 0);
    }
    let mut stream = match conn {
        Some(s) => s,
        None => {
            barrier_wait(start);
            barrier_wait(end);
            return 0u128;
        },
    };
    let host_port = target.host_port();
    let mut cycle = TransferCycle::new(connection_close);
    let mut credited: u128 = 0;
    barrier_wait(start);
    let mut budget: u64 = u64::MAX;
    let mut go: bool = !stop_is_set(stop);
    while go
        invariant
            conn is Some,
            cycle.wf(),
            credited % (CHUNK_BYTES as u128) == 0,
            credited as int <= (u64::MAX - budget) as int * 65536,
            cycle.chunk_count as nat == spec_chunk_count(connection_close),
            host_port@ == crate::target::spec_host_port(target.host@, target.port as nat),
            credited == spec_download_total(events),
            forall|j: int|
                0 <= j < events.len() ==> spec_download_event_ok(
                    #[trigger] events[j],
                    target.path@,
                    crate::target::spec_host_port(target.host@, target.port as nat),
                    spec_chunk_count(connection_close),
                    spec_data_size(spec_chunk_count(connection_close)),
                ),
        decreases budget,
    {
        if budget == 0 {
            break;
        }
        budget = budget - 1;
        if cycle.needs_request() {
            let now_ms = unix_millis();
            let head = download_request_head(
                &target.path,
                &host_port,
                now_ms,
                cycle.chunk_count,
                cycle.data_size,
            );
            if stream.write_all_bytes(&head) {
                cycle.on_request_sent();
                proof {
                    let e = CycleEvent::HeadSent { head_len: head@.len() };
                    lemma_download_total_push(events, e);
                    assert(head@.len() == crate::request::spec_download_head(
                        target.path@,
                        crate::target::spec_host_port(target.host@, target.port as nat),
                        now_ms as nat,
                        spec_chunk_count(connection_close),
                        spec_data_size(spec_chunk_count(connection_close)),
                    ).len());
                    events = events.push(e);
                }
            } else {
                barrier_wait(end);
                return credited;
            }
        } else {
            if stream.read_exact_chunk(CHUNK_BYTES as usize) {
                counter_add(counter, CHUNK_BYTES);
                cycle.on_chunk();
                proof {
                    lemma_download_total_push(events, CycleEvent::ChunkTransferred);
                    events = events.push(CycleEvent::ChunkTransferred);
                }
                // The credited total cannot overflow: it grows by one
                // chunk per poll, and the polls are bounded.
                let next: u128 = credited + CHUNK_BYTES as u128;
                proof {
                    assert((next as int) % 65536 == 0) by (nonlinear_arith)
                        requires
                            (credited as int) % 65536 == 0,
                            next == credited + 65536,
                    ;
                }
                credited = next;
            } else {
                barrier_wait(end);
                return credited;
            }
        }
        go = !stop_is_set(stop);
    }
    barrier_wait(end);
    credited
}

/// Upload worker. Runs one connection through repeated upload cycles
/// until the stop flag is observed or the stream fails, crediting the
/// shared counter with exactly one 64 KiB chunk per successful payload
/// write, and with exactly the byte length of the request head when a new
/// cycle starts. Returns the total it credited, which is exactly the
/// total of a sequence of upload cycle events — whole chunks and genuine
/// request heads for this target — so nothing else is ever counted.
/// The stop flag is polled once per operation, against a fixed, far
/// larger-than-reachable budget of polls so the loop provably cannot run
/// unboundedly.
///
/// A worker whose connection establishment failed (`conn` is `None`)
/// still arrives at the start barrier and then the end barrier, in that
/// order, and credits nothing; every exit path arrives at both barriers
/// exactly once.
pub fn run_upload_worker<S: GenericStream>(
    conn: Option<S>,
    target: &Target,
    connection_close: bool,
    counter: &ByteCounter,
    start: &std::sync::Barrier,
    stop: &StopFlag,
    end: &std::sync::Barrier,
) -> (credited: u128)
    ensures
        conn is None ==> credited == 0,
        exists|events: Seq<CycleEvent>|
            {
                &&& credited == spec_upload_total(events)
                &&& forall|j: int|
                    0 <= j < events.len() ==> spec_upload_event_ok(
                        #[trigger] events[j],
                        target.path@,
                        crate::target::spec_host_port(target.host@, target.port as nat),
                        spec_data_size(spec_chunk_count(connection_close)),
                    )
            },
{
    let ghost mut events: Seq<CycleEvent> = Seq::empty();
    proof {
        assert(events.map_values(|e: CycleEvent| crate::cycle::spec_upload_delta(e))
            =~= Seq::<nat>::empty());
        assert(spec_upload_total(events) == 0);
    }
    let mut stream = match conn {
        Some(s) => s,
        None => {
            barrier_wait(start);
            barrier_wait(end);
            return 0u128;
        },
    };
    let host_port = target.host_port();
    let payload = upload_chunk();
    let mut cycle = TransferCycle::new(connection_close);
    let mut credited: u128 = 0;
    barrier_wait(start);
    let mut budget: u64 = u64::MAX;
    let mut go: bool = !stop_is_set(stop);
    while go
        invariant
            conn is Some,
            cycle.wf(),
            payload@.len() == CHUNK_BYTES,
            credited as int <= (u64::MAX - budget) as int * (u64::MAX as int),
            cycle.chunk_count as nat == spec_chunk_count(connection_close),
            host_port@ == crate::target::spec_host_port(target.host@, target.port as nat),
            credited == spec_upload_total(events),
            forall|j: int|
                0 <= j < events.len() ==> spec_upload_event_ok(
                    #[trigger] events[j],
                    target.path@,
                    crate::target::spec_host_port(target.host@, target.port as nat),
                    spec_data_size(spec_chunk_count(connection_close)),
                ),
        decreases budget,
    {
        if budget == 0 {
            break;
        }
        budget = budget - 1;
        if cycle.needs_request() {
            let now_ms = unix_millis();
            let head = upload_request_head(&target.path, &host_port, now_ms, cycle.data_size);
            if stream.write_all_bytes(&head) {
                counter_add(counter, head.len() as u64);
                cycle.on_request_sent();
                proof {
                    let e = CycleEvent::HeadSent { head_len: head@.len() };
                    lemma_upload_total_push(events, e);
                    assert(head@.len() == crate::request::spec_upload_head(
                        target.path@,
                        crate::target::spec_host_port(target.host@, target.port as nat),
                        now_ms as nat,
                        spec_data_size(spec_chunk_count(connection_close)),
                    ).len());
                    events = events.push(e);
                }
                // Cannot overflow: at most one head (at most usize::MAX
                // bytes) is credited per poll, and the polls are bounded.
                credited = credited + head.len() as u128;
            } else {
                barrier_wait(end);
                return credited;
            }
        } else {
            if stream.write_all_bytes(&payload) {
                counter_add(counter, CHUNK_BYTES);
                cycle.on_chunk();
                proof {
                    lemma_upload_total_push(events, CycleEvent::ChunkTransferred);
                    events = events.push(CycleEvent::ChunkTransferred);
                }
                credited = credited + CHUNK_BYTES as u128;
            } else {
                barrier_wait(end);
                return credited;
            }
        }
        go = !stop_is_set(stop);
    }
    barrier_wait(end);
    credited
}

} // verus!
