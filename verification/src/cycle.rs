//! One worker's request/response cycle accounting: when a new request head
//! must be issued, how much of the declared resource has been consumed, and
//! by how much each successful operation moves the shared byte counter.

use vstd::prelude::*;

verus! {

/// Bytes in one payload chunk (64 KiB): the unit of both read and write
/// accounting.
pub const CHUNK_BYTES: u64 = 65536;

/// Chunks declared per request: high-volume "connection-close" mode asks
/// for roughly two orders of magnitude more than normal mode, to keep one
/// connection busy across the whole measurement window.
pub open spec fn spec_chunk_count(connection_close: bool) -> nat {
    if connection_close {
        15000
    } else {
        50
    }
}

/// Declared total resource size for one request: `chunk_count` MiB.
pub open spec fn spec_data_size(chunk_count: nat) -> nat {
    chunk_count * 1024 * 1024
}

/// Per-worker cycle state: the declared resource size and how much of the
/// current resource has been consumed so far.
pub struct TransferCycle {
    /// Chunk count declared in each request's query.
    pub chunk_count: u64,
    /// Declared total resource size in bytes.
    pub data_size: u128,
    /// Bytes consumed of the current resource; reset on each new request.
    pub data_counter: u128,
}

impl TransferCycle {
    /// Well-formedness: the declared size matches the chunk count, and the
    /// consumed count is a whole number of chunks within the declared size.
    pub open spec fn wf(&self) -> bool {
        &&& self.data_size == spec_data_size(self.chunk_count as nat)
        &&& self.data_size % (CHUNK_BYTES as u128) == 0
        &&& self.data_counter <= self.data_size
        &&& self.data_counter % (CHUNK_BYTES as u128) == 0
        &&& self.chunk_count <= 15000
    }

    /// Start a fresh cycle state. The consumed count starts saturated so
    /// the first poll of the loop issues a request immediately.
    pub fn new(connection_close: bool) -> (c: TransferCycle)
        ensures
            c.wf(),
            c.chunk_count as nat == spec_chunk_count(connection_close),
            c.data_counter == c.data_size,
    {
        let chunk_count: u64 = if connection_close {
            15000
        } else {
            50
        };
        let data_size: u128 = (chunk_count as u128) * 1024 * 1024;
        proof {
            if connection_close {
                assert(data_size == 15728640000u128);
                assert(15728640000u128 % 65536u128 == 0);
            } else {
                assert(data_size == 52428800u128);
                assert(52428800u128 % 65536u128 == 0);
            }
        }
        TransferCycle { chunk_count, data_size, data_counter: data_size }
    }

    /// The current resource is fully consumed, so the next operation must
    /// be a new request head.
    pub fn needs_request(&self) -> (b: bool)
        ensures
            b == (self.data_counter >= self.data_size),
    {
        self.data_counter >= self.data_size
    }

    /// A new request head was sent successfully: the consumed count resets
    /// to zero and a fresh resource of the same declared size begins.
    pub fn on_request_sent(&mut self)
        requires
            old(self).wf(),
        ensures
            final(self).wf(),
            final(self).data_counter == 0,
            final(self).data_size == old(self).data_size,
            final(self).chunk_count == old(self).chunk_count,
    {
        self.data_counter = 0;
    }

    /// One full chunk was transferred: the consumed count advances by
    /// exactly one chunk and never passes the declared size.
    pub fn on_chunk(&mut self)
        requires
            old(self).wf(),
            old(self).data_counter < old(self).data_size,
        ensures
            final(self).wf(),
            final(self).data_counter == old(self).data_counter + CHUNK_BYTES,
            final(self).data_size == old(self).data_size,
            final(self).chunk_count == old(self).chunk_count,
    {
        proof {
            let consumed = old(self).data_counter as int;
            let size = old(self).data_size as int;
            assert(consumed + CHUNK_BYTES <= size) by (nonlinear_arith)
                requires
                    consumed % 65536 == 0,
                    size % 65536 == 0,
                    consumed < size,
                    CHUNK_BYTES == 65536,
            ;
        }
        self.data_counter = self.data_counter + CHUNK_BYTES as u128;
    }
}

/// One successful operation of a worker's loop, as counter accounting sees
/// it: either a request head went out (with its byte length), or one full
/// payload chunk was transferred.
pub enum CycleEvent {
    /// A request head of the given byte length was sent.
    HeadSent { head_len: nat },
    /// One 64 KiB payload chunk was read (download) or written (upload).
    ChunkTransferred,
}

/// Bytes a download worker credits to the shared counter for one event:
/// only received payload counts; request-head bytes are never counted.
pub open spec fn spec_download_delta(e: CycleEvent) -> nat {
    match e {
        CycleEvent::HeadSent { .. } => 0,
        CycleEvent::ChunkTransferred => CHUNK_BYTES as nat,
    }
}

/// Bytes an upload worker credits to the shared counter for one event:
/// full chunks for payload, and the head's own byte length when a new
/// cycle starts.
pub open spec fn spec_upload_delta(e: CycleEvent) -> nat {
    match e {
        CycleEvent::HeadSent { head_len } => head_len,
        CycleEvent::ChunkTransferred => CHUNK_BYTES as nat,
    }
}

/// The shared counter's value after crediting each delta in order,
/// starting from `init`.
pub open spec fn spec_counter_after(init: nat, deltas: Seq<nat>) -> nat
    decreases deltas.len(),
{
    if deltas.len() == 0 {
        init
    } else {
        spec_counter_after(init, deltas.drop_last()) + deltas.last()
    }
}

/// Crediting one more delta adds exactly that delta.
pub proof fn lemma_counter_after_push(init: nat, deltas: Seq<nat>, d: nat)
    ensures
        spec_counter_after(init, deltas.push(d)) == spec_counter_after(init, deltas) + d,
{
    assert(deltas.push(d).drop_last() =~= deltas);
    assert(deltas.push(d).last() == d);
}

/// The counter value after the first `i` events of a download worker.
pub open spec fn spec_download_counter(init: nat, events: Seq<CycleEvent>, i: int) -> nat {
    spec_counter_after(init, events.take(i).map_values(|e: CycleEvent| spec_download_delta(e)))
}

/// The counter value after the first `i` events of an upload worker.
pub open spec fn spec_upload_counter(init: nat, events: Seq<CycleEvent>, i: int) -> nat {
    spec_counter_after(init, events.take(i).map_values(|e: CycleEvent| spec_upload_delta(e)))
}

/// The total a download worker has credited after a sequence of
/// successful operations, starting from zero.
pub open spec fn spec_download_total(events: Seq<CycleEvent>) -> nat {
    spec_counter_after(0, events.map_values(|e: CycleEvent| spec_download_delta(e)))
}

/// One more successful operation adds exactly its delta to the total.
pub proof fn lemma_download_total_push(events: Seq<CycleEvent>, e: CycleEvent)
    ensures
        spec_download_total(events.push(e)) == spec_download_total(events) + spec_download_delta(
            e,
        ),
{
    let f = |x: CycleEvent| spec_download_delta(x);
    assert(events.push(e).map_values(f) =~= events.map_values(f).push(f(e)));
    lemma_counter_after_push(0, events.map_values(f), f(e));
}

/// An event a download worker may report against a given target: a
/// payload chunk, or a head whose length is that of a genuine download
/// request head for that target — for some timestamp, since only the
/// timestamp's rendering varies between cycles.
pub open spec fn spec_download_event_ok(
    e: CycleEvent,
    path: Seq<u8>,
    host_port: Seq<u8>,
    chunk_count: nat,
    data_size: nat,
) -> bool {
    match e {
        CycleEvent::HeadSent { head_len } => exists|now_ms: nat|
            head_len == crate::request::spec_download_head(
                path,
                host_port,
                now_ms,
                chunk_count,
                data_size,
            ).len(),
        CycleEvent::ChunkTransferred => true,
    }
}

/// The total an upload worker has credited after a sequence of
/// successful operations, starting from zero.
pub open spec fn spec_upload_total(events: Seq<CycleEvent>) -> nat {
    spec_counter_after(0, events.map_values(|e: CycleEvent| spec_upload_delta(e)))
}

/// One more successful operation adds exactly its delta to the total.
pub proof fn lemma_upload_total_push(events: Seq<CycleEvent>, e: CycleEvent)
    ensures
        spec_upload_total(events.push(e)) == spec_upload_total(events) + spec_upload_delta(e),
{
    let f = |x: CycleEvent| spec_upload_delta(x);
    assert(events.push(e).map_values(f) =~= events.map_values(f).push(f(e)));
    lemma_counter_after_push(0, events.map_values(f), f(e));
}

/// An event an upload worker may report against a given target: a payload
/// chunk, or a head whose length is that of a genuine upload request head
/// for that target — for some timestamp, since only the timestamp's
/// rendering varies between cycles.
pub open spec fn spec_upload_event_ok(
    e: CycleEvent,
    path: Seq<u8>,
    host_port: Seq<u8>,
    data_size: nat,
) -> bool {
    match e {
        CycleEvent::HeadSent { head_len } => exists|now_ms: nat|
            head_len == crate::request::spec_upload_head(path, host_port, now_ms, data_size).len(),
        CycleEvent::ChunkTransferred => true,
    }
}

/// Download accounting law: across any run of successful download
/// operations the shared counter never decreases, moves only in steps of
/// exactly one 64 KiB chunk, and request heads are never counted.
pub proof fn lemma_download_counter_steps(init: nat, events: Seq<CycleEvent>, i: int)
    requires
        0 <= i < events.len(),
    ensures
        spec_download_counter(init, events, i + 1) == spec_download_counter(init, events, i)
            + spec_download_delta(events[i]),
        events[i] is ChunkTransferred ==> spec_download_counter(init, events, i + 1)
            == spec_download_counter(init, events, i) + CHUNK_BYTES,
        events[i] is HeadSent ==> spec_download_counter(init, events, i + 1)
            == spec_download_counter(init, events, i),
{
    let f = |e: CycleEvent| spec_download_delta(e);
    assert(events.take(i + 1) =~= events.take(i).push(events[i]));
    assert(events.take(i + 1).map_values(f) =~= events.take(i).map_values(f).push(f(events[i])));
    lemma_counter_after_push(init, events.take(i).map_values(f), f(events[i]));
}

/// Upload accounting law: across any run of successful upload operations
/// the shared counter never decreases, moves by exactly one 64 KiB chunk
/// for each payload chunk, and by exactly the head's byte length when a
/// new cycle starts.
pub proof fn lemma_upload_counter_steps(init: nat, events: Seq<CycleEvent>, i: int)
    requires
        0 <= i < events.len(),
    ensures
        spec_upload_counter(init, events, i + 1) == spec_upload_counter(init, events, i)
            + spec_upload_delta(events[i]),
        events[i] is ChunkTransferred ==> spec_upload_counter(init, events, i + 1)
            == spec_upload_counter(init, events, i) + CHUNK_BYTES,
        forall|len: nat|
            events[i] == (CycleEvent::HeadSent { head_len: len }) ==> spec_upload_counter(
                init,
                events,
                i + 1,
            ) == spec_upload_counter(init, events, i) + len,
{
    let f = |e: CycleEvent| spec_upload_delta(e);
    assert(events.take(i + 1) =~= events.take(i).push(events[i]));
    assert(events.take(i + 1).map_values(f) =~= events.take(i).map_values(f).push(f(events[i])));
    lemma_counter_after_push(init, events.take(i).map_values(f), f(events[i]));
}

} // verus!
