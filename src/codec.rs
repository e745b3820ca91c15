use vstd::arithmetic::div_mod::lemma_fundamental_div_mod;
use vstd::prelude::*;
use vstd::string::*;

verus! {

/// Length of the fixed raw-socket header that precedes every payload.
pub const HEADER_LEN: usize = 16;

/// Opcode of the raw-socket EXECUTE command.
pub const OPCODE_EXECUTE: u8 = 0;

/// Body that `GET /secret` must return for a port to count as an executor.
pub const EXECUTOR_SECRET: &'static str = "0xdeadbeef";

/// The four little-endian bytes of `n`.
pub open spec fn le_bytes(n: u32) -> Seq<u8> {
    seq![
        (n % 256) as u8,
        ((n / 256) % 256) as u8,
        ((n / 256 / 256) % 256) as u8,
        (n / 256 / 256 / 256) as u8,
    ]
}

/// The number that four bytes spell in little-endian order.
pub open spec fn le_value(b: Seq<u8>) -> int
    recommends
        b.len() == 4,
{
    b[0] + 256 * (b[1] + 256 * (b[2] + 256 * b[3]))
}

/// A raw-socket message: opcode at byte 0, payload length as a little-endian
/// u32 at bytes 8..12, every other header byte zero, then the payload.
pub open spec fn frame(opcode: u8, payload: Seq<u8>) -> Seq<u8>
    recommends
        payload.len() <= u32::MAX,
{
    seq![opcode, 0u8, 0u8, 0u8, 0u8, 0u8, 0u8, 0u8]
        + le_bytes(payload.len() as u32)
        + seq![0u8, 0u8, 0u8, 0u8]
        + payload
}

/// Reading the little-endian bytes of `n` back gives `n`.
pub proof fn lemma_le_round_trip(n: u32)
    ensures
        le_value(le_bytes(n)) == n,
{
    let q1 = n / 256;
    let q2 = q1 / 256;
    lemma_fundamental_div_mod(n as int, 256);
    lemma_fundamental_div_mod(q1 as int, 256);
    lemma_fundamental_div_mod(q2 as int, 256);
    assert(q2 / 256 < 256);
}

/// An EXECUTE message with a payload of length N is exactly 16 + N bytes
/// long, and its bytes 8..12 read back as N in little-endian order.
pub proof fn lemma_execute_frame_round_trip(payload: Seq<u8>)
    requires
        payload.len() <= u32::MAX,
    ensures
        frame(OPCODE_EXECUTE, payload).len() == HEADER_LEN + payload.len(),
        le_value(frame(OPCODE_EXECUTE, payload).subrange(8, 12)) == payload.len(),
        frame(OPCODE_EXECUTE, payload)[0] == OPCODE_EXECUTE,
        frame(OPCODE_EXECUTE, payload).subrange(16, 16 + payload.len() as int) == payload,
{
    let f = frame(OPCODE_EXECUTE, payload);
    lemma_le_round_trip(payload.len() as u32);
    assert(f.subrange(8, 12) =~= le_bytes(payload.len() as u32));
    assert(f.subrange(16, 16 + payload.len() as int) =~= payload);
}

/// Encodes a raw-socket message with the given opcode around `payload`.
pub fn encode_message(opcode: u8, payload: &[u8]) -> (r: Vec<u8>)
    requires
        payload@.len() <= u32::MAX,
    ensures
        r@ == frame(opcode, payload@),
{
    let n = payload.len() as u32;
    let q1 = n / 256;
    let q2 = q1 / 256;
    let mut out: Vec<u8> = Vec::new();
    out.push(opcode);
    let mut k: usize = 0;
    while k < 7
        invariant
            0 <= k <= 7,
            out@ =~= seq![opcode] + Seq::new(k as nat, |i: int| 0u8),
        decreases 7 - k,
    {
        out.push(0u8);
        k = k + 1;
    }
    out.push((n % 256) as u8);
    out.push((q1 % 256) as u8);
    out.push((q2 % 256) as u8);
    out.push((q2 / 256) as u8);
    out.push(0u8);
    out.push(0u8);
    out.push(0u8);
    out.push(0u8);
    let ghost header = out@;
    assert(header =~= seq![opcode, 0u8, 0u8, 0u8, 0u8, 0u8, 0u8, 0u8] + le_bytes(n) + seq![0u8, 0u8, 0u8, 0u8]);
    let mut i: usize = 0;
    while i < payload.len()
        invariant
            0 <= i <= payload@.len(),
            header.len() == HEADER_LEN,
            out@ =~= header + payload@.subrange(0, i as int),
        decreases payload@.len() - i,
    {
        out.push(payload[i]);
        i = i + 1;
    }
    assert(payload@.subrange(0, payload@.len() as int) =~= payload@);
    out
}

/// Encodes an EXECUTE message carrying `script`.
pub fn encode_execute(script: &[u8]) -> (r: Vec<u8>)
    requires
        script@.len() <= u32::MAX,
    ensures
        r@ == frame(OPCODE_EXECUTE, script@),
        r@.len() == HEADER_LEN + script@.len(),
{
    proof { lemma_execute_frame_round_trip(script@); }
    encode_message(OPCODE_EXECUTE, script)
}

/// Reads the opcode and the declared payload length from the header at the
/// start of `bytes`; `None` when fewer than 16 bytes are given.
pub fn decode_header(bytes: &[u8]) -> (r: Option<(u8, u32)>)
    ensures
        bytes@.len() < HEADER_LEN ==> r is None,
        bytes@.len() >= HEADER_LEN ==> r == Some(
            (bytes@[0], le_value(bytes@.subrange(8, 12)) as u32),
        ),
{
    if bytes.len() < HEADER_LEN {
        return None;
    }
    let b0 = bytes[8] as u32;
    let b1 = bytes[9] as u32;
    let b2 = bytes[10] as u32;
    let b3 = bytes[11] as u32;
    let len = b0 + 256 * (b1 + 256 * (b2 + 256 * b3));
    Some((bytes[0], len))
}

/// Whether a raw-socket message in `bytes` is complete: its header is
/// present and the payload it declares follows in full.
pub fn is_complete_frame(bytes: &[u8]) -> (r: bool)
    ensures
        r == (bytes@.len() >= HEADER_LEN && bytes@.len() - HEADER_LEN == le_value(
            bytes@.subrange(8, 12),
        )),
{
    match decode_header(bytes) {
        None => false,
        Some((_, len)) => (bytes.len() - HEADER_LEN) as u64 == len as u64,
    }
}

/// Whether the body returned by `GET /secret` identifies an executor.
pub fn is_executor_secret(body: &str) -> (r: bool)
    ensures
        r == (body@ == EXECUTOR_SECRET@),
{
    let a = body.to_owned();
    let b = EXECUTOR_SECRET.to_owned();
    a == b
}

/// The script that changes executor setting `key` to `value`.
pub fn setting_payload(key: &str, value: &str) -> (r: String)
    ensures
        r@ == key@ + " "@ + value@,
{
    let mut r = key.to_owned();
    r.append(" ");
    r.append(value);
    r
}

/// Whether an HTTP status code reports success (any 2xx).
pub fn is_success_status(status: u16) -> (r: bool)
    ensures
        r == (200 <= status <= 299),
{
    200 <= status && status <= 299
}

} // verus!
