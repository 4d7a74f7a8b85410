//! Tests of the probe's pure pieces: decimal rendering, request heads,
//! the upload payload, latency masking, and the retry policy.

use netprobe::connect::{establishment_result, Establishment, DEFAULT_CONNECT_ATTEMPTS};
use netprobe::fmt::dec_u128;
use netprobe::ping::{ping_latency_micros, PING_SENTINEL_MICROS};
use netprobe::request::{download_request_head, upload_chunk, upload_request_head};
use netprobe::target::Target;

fn example_target() -> Target {
    Target::new(b"example.com".to_vec(), 80, b"/garbage".to_vec())
}

#[test]
fn dec_renders_zero() {
    assert_eq!(dec_u128(0), b"0".to_vec());
}

#[test]
fn dec_renders_chunk_size() {
    assert_eq!(dec_u128(65536), b"65536".to_vec());
}

#[test]
fn dec_renders_large_size() {
    assert_eq!(dec_u128(15_728_640_000), b"15728640000".to_vec());
}

#[test]
fn host_port_renders_with_colon() {
    let t = Target::new(b"example.com".to_vec(), 8080, b"/".to_vec());
    assert_eq!(t.host_port(), b"example.com:8080".to_vec());
}

#[test]
fn download_head_exact_bytes() {
    let t = example_target();
    let hp = t.host_port();
    let head = download_request_head(&t.path, &hp, 123, 50, 52_428_800);
    let expected = format!(
        "GET /garbage?cors=true&r=123&ckSize=50&size=52428800 HTTP/1.1\r\nHost: example.com:80\r\nUser-Agent: bim/1.0\r\n\r\n"
    );
    assert_eq!(head, expected.into_bytes());
}

#[test]
fn upload_head_exact_bytes() {
    let t = example_target();
    let hp = t.host_port();
    let head = upload_request_head(&t.path, &hp, 999, 52_428_800);
    let expected = format!(
        "POST /garbage?r=999 HTTP/1.1\r\nHost: example.com:80\r\nUser-Agent: bim/1.0\r\nContent-Length: 52428800\r\n\r\n"
    );
    assert_eq!(head, expected.into_bytes());
}

#[test]
fn upload_chunk_is_repeating_pattern_of_64_kib() {
    let chunk = upload_chunk();
    assert_eq!(chunk.len(), 65536);
    let expected = "0123456789AaBbCcDdEeFfGgHhIiJjKkLlMmNnOoPpQqRrSsTtUuVvWwXxYyZz-="
        .repeat(1024)
        .into_bytes();
    assert_eq!(chunk, expected);
}

#[test]
fn ping_success_reports_measured_elapsed() {
    assert_eq!(ping_latency_micros(Some(1234)), 1234);
    assert!(ping_latency_micros(Some(999_999)) < PING_SENTINEL_MICROS);
}

#[test]
fn ping_failure_reports_exact_sentinel() {
    assert_eq!(ping_latency_micros(None), 1_000_000);
    assert_eq!(PING_SENTINEL_MICROS, 1_000_000);
}

#[test]
fn retry_succeeds_on_third_attempt() {
    let outcomes = vec![false, false, true];
    match establishment_result(&outcomes, DEFAULT_CONNECT_ATTEMPTS) {
        Establishment::Connected { attempts } => assert_eq!(attempts, 3),
        Establishment::Failed { .. } => panic!("establishment should have succeeded"),
    }
}

#[test]
fn retry_fails_after_exactly_three_attempts() {
    let outcomes = vec![false, false, false];
    match establishment_result(&outcomes, DEFAULT_CONNECT_ATTEMPTS) {
        Establishment::Connected { .. } => panic!("establishment should have failed"),
        Establishment::Failed { attempts } => assert_eq!(attempts, 3),
    }
}

#[test]
fn retry_short_circuits_on_first_success() {
    let outcomes = vec![true, false, false];
    match establishment_result(&outcomes, DEFAULT_CONNECT_ATTEMPTS) {
        Establishment::Connected { attempts } => assert_eq!(attempts, 1),
        Establishment::Failed { .. } => panic!("establishment should have succeeded"),
    }
}
