//! The wire protocol the probe emits: minimal HTTP/1.1 request lines for
//! download (`GET`) and upload (`POST`), plus the fixed 64 KiB payload
//! chunk written during upload. Responses are never parsed; only these
//! outgoing bytes matter.

use vstd::prelude::*;
use vstd::string::StringSliceAdditionalSpecFns;
use vstd::utf8::{is_ascii_chars, is_ascii_chars_encode_utf8};
use crate::fmt::spec_dec;

verus! {

/// The request head a download worker sends to start one cycle:
/// a `GET` whose query encodes a cache-busting timestamp, the declared
/// chunk count and the declared total resource size.
pub open spec fn spec_download_head(
    path: Seq<u8>,
    host_port: Seq<u8>,
    now_ms: nat,
    chunk_count: nat,
    data_size: nat,
) -> Seq<u8> {
    ("GET ").spec_bytes() + path + ("?cors=true&r=").spec_bytes() + spec_dec(now_ms) + (
    "&ckSize=").spec_bytes() + spec_dec(chunk_count) + ("&size=").spec_bytes() + spec_dec(data_size)
        + (" HTTP/1.1\r\nHost: ").spec_bytes() + host_port + ("\r\nUser-Agent: bim/1.0\r\n\r\n").spec_bytes()
}

/// The request head an upload worker sends to start one cycle: a `POST`
/// with a cache-busting timestamp and a `Content-Length` declaring the
/// total body size of the cycle.
pub open spec fn spec_upload_head(
    path: Seq<u8>,
    host_port: Seq<u8>,
    now_ms: nat,
    data_size: nat,
) -> Seq<u8> {
    ("POST ").spec_bytes() + path + ("?r=").spec_bytes() + spec_dec(now_ms) + (
    " HTTP/1.1\r\nHost: ").spec_bytes() + host_port + ("\r\nUser-Agent: bim/1.0\r\nContent-Length: ").spec_bytes()
        + spec_dec(data_size) + ("\r\n\r\n").spec_bytes()
}

/// Append the UTF-8 bytes of `s` to `out`.
fn append_str_bytes(out: &mut Vec<u8>, s: &str)
    ensures
        final(out)@ == old(out)@ + s.spec_bytes(),
{
    out.extend_from_slice(s.as_bytes());
}

/// Append a copy of `extra` to `out`.
fn append_bytes(out: &mut Vec<u8>, extra: &Vec<u8>)
    ensures
        final(out)@ == old(out)@ + extra@,
{
    out.extend_from_slice(extra.as_slice());
}

/// Build the download request head for one cycle.
pub fn download_request_head(
    path: &Vec<u8>,
    host_port: &Vec<u8>,
    now_ms: u128,
    chunk_count: u64,
    data_size: u128,
) -> (head: Vec<u8>)
    ensures
        head@ == spec_download_head(
            path@,
            host_port@,
            now_ms as nat,
            chunk_count as nat,
            data_size as nat,
        ),
{
    let mut head: Vec<u8> = Vec::new();
    append_str_bytes(&mut head, "GET ");
    append_bytes(&mut head, path);
    append_str_bytes(&mut head, "?cors=true&r=");
    let now_digits = crate::fmt::dec_u128(now_ms);
    append_bytes(&mut head, &now_digits);
    append_str_bytes(&mut head, "&ckSize=");
    let count_digits = crate::fmt::dec_u128(chunk_count as u128);
    append_bytes(&mut head, &count_digits);
    append_str_bytes(&mut head, "&size=");
    let size_digits = crate::fmt::dec_u128(data_size);
    append_bytes(&mut head, &size_digits);
    append_str_bytes(&mut head, " HTTP/1.1\r\nHost: ");
    append_bytes(&mut head, host_port);
    append_str_bytes(&mut head, "\r\nUser-Agent: bim/1.0\r\n\r\n");
    proof {
        assert(head@ =~= spec_download_head(
            path@,
            host_port@,
            now_ms as nat,
            chunk_count as nat,
            data_size as nat,
        ));
    }
    head
}

/// Build the upload request head for one cycle.
pub fn upload_request_head(
    path: &Vec<u8>,
    host_port: &Vec<u8>,
    now_ms: u128,
    data_size: u128,
) -> (head: Vec<u8>)
    ensures
        head@ == spec_upload_head(path@, host_port@, now_ms as nat, data_size as nat),
{
    let mut head: Vec<u8> = Vec::new();
    append_str_bytes(&mut head, "POST ");
    append_bytes(&mut head, path);
    append_str_bytes(&mut head, "?r=");
    let now_digits = crate::fmt::dec_u128(now_ms);
    append_bytes(&mut head, &now_digits);
    append_str_bytes(&mut head, " HTTP/1.1\r\nHost: ");
    append_bytes(&mut head, host_port);
    append_str_bytes(&mut head, "\r\nUser-Agent: bim/1.0\r\nContent-Length: ");
    let size_digits = crate::fmt::dec_u128(data_size);
    append_bytes(&mut head, &size_digits);
    append_str_bytes(&mut head, "\r\n\r\n");
    proof {
        assert(head@ =~= spec_upload_head(path@, host_port@, now_ms as nat, data_size as nat));
    }
    head
}

/// The 64-byte printable pattern an upload worker repeats to fill its
/// payload; the content is irrelevant to the measurement.
pub open spec fn spec_upload_pattern() -> Seq<u8> {
    ("0123456789AaBbCcDdEeFfGgHhIiJjKkLlMmNnOoPpQqRrSsTtUuVvWwXxYyZz-=").spec_bytes()
}

/// `s` repeated `n` times.
pub open spec fn spec_repeat(s: Seq<u8>, n: nat) -> Seq<u8>
    decreases n,
{
    if n == 0 {
        Seq::empty()
    } else {
        spec_repeat(s, (n - 1) as nat) + s
    }
}

/// The fixed upload payload chunk: the pattern repeated 1024 times.
pub open spec fn spec_upload_chunk() -> Seq<u8> {
    spec_repeat(spec_upload_pattern(), 1024)
}

/// The pattern is 64 ASCII bytes, so the payload chunk is exactly 64 KiB.
pub proof fn lemma_upload_pattern_len()
    ensures
        spec_upload_pattern().len() == 64,
{
    reveal_strlit("0123456789AaBbCcDdEeFfGgHhIiJjKkLlMmNnOoPpQqRrSsTtUuVvWwXxYyZz-=");
    let chars = ("0123456789AaBbCcDdEeFfGgHhIiJjKkLlMmNnOoPpQqRrSsTtUuVvWwXxYyZz-=")@;
    assert(is_ascii_chars(chars));
    is_ascii_chars_encode_utf8(chars);
}

/// Repetition adds lengths.
pub proof fn lemma_repeat_len(s: Seq<u8>, n: nat)
    ensures
        spec_repeat(s, n).len() as int == (n as int) * (s.len() as int),
    decreases n,
{
    let len: int = s.len() as int;
    if n == 0 {
        assert(spec_repeat(s, n).len() == 0);
        assert((n as int) * len == 0) by (nonlinear_arith)
            requires
                n == 0,
        ;
    } else {
        let m: nat = (n - 1) as nat;
        lemma_repeat_len(s, m);
        assert(spec_repeat(s, n) == spec_repeat(s, m) + s);
        assert(spec_repeat(s, n).len() as int == (m as int) * len + len);
        assert((n as int) * len == (m as int) * len + len) by (nonlinear_arith)
            requires
                n >= 1 && m == n - 1,
        ;
    }
}

/// Build the upload payload chunk (65536 bytes of repeating pattern).
pub fn upload_chunk() -> (chunk: Vec<u8>)
    ensures
        chunk@ == spec_upload_chunk(),
        chunk@.len() == 65536,
{
    let mut chunk: Vec<u8> = Vec::new();
    let mut i: usize = 0;
    while i < 1024
        invariant
            i <= 1024,
            chunk@ == spec_repeat(spec_upload_pattern(), i as nat),
        decreases 1024 - i,
    {
        append_str_bytes(&mut chunk, "0123456789AaBbCcDdEeFfGgHhIiJjKkLlMmNnOoPpQqRrSsTtUuVvWwXxYyZz-=");
        i = i + 1;
    }
    proof {
        lemma_upload_pattern_len();
        lemma_repeat_len(spec_upload_pattern(), 1024);
    }
    chunk
}

} // verus!
