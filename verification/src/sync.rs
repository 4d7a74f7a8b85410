//! The three primitives a pool of workers shares: the byte counter and the
//! stop flag (verified reader-writer locks), and the start/end rendezvous
//! barriers (the standard library's barrier, behind a trusted wrapper).

use vstd::prelude::*;
use vstd::rwlock::{RwLock, RwLockPredicate};

verus! {

/// Lock predicate for the shared byte counter: every count is admissible.
pub struct CounterPred {}

impl RwLockPredicate<u128> for CounterPred {
    open spec fn inv(self, v: u128) -> bool {
        true
    }
}

/// The shared byte counter: mutated under mutual exclusion by every
/// worker, read once by the orchestrator after the end barrier.
pub type ByteCounter = RwLock<u128, CounterPred>;

/// Lock predicate for the stop flag: both values are admissible.
pub struct FlagPred {}

impl RwLockPredicate<bool> for FlagPred {
    open spec fn inv(self, v: bool) -> bool {
        true
    }
}

/// The shared stop flag: written once (false to true) by the
/// orchestrator, polled by every worker once per operation.
pub type StopFlag = RwLock<bool, FlagPred>;

/// A fresh shared byte counter starting at zero.
pub fn new_byte_counter() -> (counter: ByteCounter) {
    RwLock::new(0u128, Ghost(CounterPred {  }))
}

/// A fresh stop flag, initially unset.
pub fn new_stop_flag() -> (flag: StopFlag) {
    RwLock::new(false, Ghost(FlagPred {  }))
}

/// Credit `delta` bytes to the shared counter under the write lock. The
/// counter never decreases and never wraps: a credit that would overflow
/// (unreachable over any real measurement window) is dropped instead.
pub fn counter_add(counter: &ByteCounter, delta: u64) {
    let (current, handle) = counter.acquire_write();
    let next: u128 = if current <= u128::MAX - delta as u128 {
        current + delta as u128
    } else {
        current
    };
    handle.release_write(next);
}

/// Read the shared counter under the read lock.
pub fn read_counter(counter: &ByteCounter) -> u128 {
    let handle = counter.acquire_read();
    let value: u128 = *handle.borrow();
    handle.release_read();
    value
}

/// Set the stop flag (the orchestrator's one false-to-true transition).
pub fn set_stop(flag: &StopFlag) {
    let (_, handle) = flag.acquire_write();
    handle.release_write(true);
}

/// Poll the stop flag without blocking on other readers.
pub fn stop_is_set(flag: &StopFlag) -> bool {
    let handle = flag.acquire_read();
    let value: bool = *handle.borrow();
    handle.release_read();
    value
}

#[verifier::external_type_specification]
#[verifier::external_body]
pub struct ExBarrier(std::sync::Barrier);

/// Relies on std::sync::Barrier::wait: blocks until every party of the
/// barrier has arrived, then releases them all together.
#[verifier::external_body]
pub(crate) fn barrier_wait(barrier: &std::sync::Barrier) {
    let _ = barrier.wait();
}

} // verus!
