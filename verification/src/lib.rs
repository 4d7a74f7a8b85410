//! A concurrent network performance probe core: latency probing, bounded
//! connection retry, and download/upload throughput workers that accumulate
//! transferred bytes into a shared counter over a synchronized measurement
//! window.

pub mod clock;
pub mod connect;
pub mod cycle;
pub mod epoch;
pub mod fmt;
pub mod ping;
pub mod request;
pub mod sync;
pub mod target;
pub mod worker;
