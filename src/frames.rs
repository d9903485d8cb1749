//! The wire format of the frames that cross the dispatch boundary.
//!
//! A request frame is `[method: u8][path_len: u32 LE][path bytes][body_len: u32 LE][body]`;
//! a response frame is `[status: u16 LE][body_len: u32 LE][body]`.
use vstd::prelude::*;
use vstd::string::StringSliceAdditionalSpecFns;

verus! {

/// The largest length that a frame's 4-byte length field can carry.
pub const MAX_FIELD_LEN: usize = 0xffff_ffff;

/// The two little-endian bytes of `n`.
pub open spec fn le16(n: u16) -> Seq<u8> {
    seq![(n % 256) as u8, (n / 256) as u8]
}

/// The four little-endian bytes of `n`.
pub open spec fn le32(n: nat) -> Seq<u8> {
    seq![
        (n % 256) as u8,
        ((n / 256) % 256) as u8,
        ((n / 65536) % 256) as u8,
        ((n / 16777216) % 256) as u8,
    ]
}

/// The number stored little-endian in `b[i]`, `b[i + 1]`.
pub open spec fn read_le16(b: Seq<u8>, i: int) -> u16 {
    (b[i] as int + 256 * b[i + 1] as int) as u16
}

/// The number stored little-endian in `b[i]` .. `b[i + 3]`.
pub open spec fn read_le32(b: Seq<u8>, i: int) -> nat {
    (b[i] as int + 256 * b[i + 1] as int + 65536 * b[i + 2] as int + 16777216 * b[i + 3] as int) as nat
}

/// The request frame for `method`, the path's bytes and the body.
pub open spec fn request_frame(method: u8, path: Seq<u8>, body: Seq<u8>) -> Seq<u8> {
    seq![method] + le32(path.len()) + path + le32(body.len()) + body
}

/// The response frame for `status` and `body`.
pub open spec fn response_frame(status: u16, body: Seq<u8>) -> Seq<u8> {
    le16(status) + le32(body.len()) + body
}

/// What a response frame decodes to: nothing if the buffer is shorter than the
/// six header bytes or than the header and the body length it declares; else
/// the status and exactly the declared number of body bytes (bytes past them are
/// ignored).
pub open spec fn decoded_response(b: Seq<u8>) -> Option<(u16, Seq<u8>)> {
    if b.len() < 6 {
        None
    } else if b.len() < 6 + read_le32(b, 2) {
        None
    } else {
        Some((read_le16(b, 0), b.subrange(6, 6 + read_le32(b, 2) as int)))
    }
}

proof fn lemma_le16_round_trip(n: u16)
    ensures
        read_le16(le16(n), 0) == n,
{
    let b = le16(n);
    assert(b[0] as int == n % 256);
    assert(b[1] as int == n / 256);
    assert(n % 256 + 256 * (n / 256) == n) by (nonlinear_arith);
}

proof fn lemma_le32_round_trip(n: nat)
    requires
        n <= MAX_FIELD_LEN,
    ensures
        read_le32(le32(n), 0) == n,
{
    let b = le32(n);
    let q1 = n / 256;
    let q2 = q1 / 256;
    let q3 = q2 / 256;
    assert(n == n % 256 + 256 * q1);
    assert(q1 == q1 % 256 + 256 * q2);
    assert(q2 == q2 % 256 + 256 * q3);
    assert(q2 == n / 65536) by (nonlinear_arith)
        requires q1 == n / 256, q2 == q1 / 256;
    assert(q3 == n / 16777216) by (nonlinear_arith)
        requires q1 == n / 256, q2 == q1 / 256, q3 == q2 / 256;
    assert(q3 < 256) by (nonlinear_arith)
        requires q3 == n / 16777216, n <= 0xffff_ffff;
    assert(b[0] as int == n % 256);
    assert(b[1] as int == q1 % 256);
    assert(b[2] as int == q2 % 256);
    assert(b[3] as int == q3 % 256);
    assert(q3 % 256 == q3);
}

/// Decoding a response frame gives back the status and body it was made of.
pub proof fn lemma_response_round_trip(status: u16, body: Seq<u8>)
    requires
        body.len() <= MAX_FIELD_LEN,
    ensures
        decoded_response(response_frame(status, body)) == Some((status, body)),
{
    let f = response_frame(status, body);
    lemma_le16_round_trip(status);
    lemma_le32_round_trip(body.len());
    assert(read_le16(f, 0) == read_le16(le16(status), 0));
    assert(read_le32(f, 2) == read_le32(le32(body.len()), 0));
    assert(f.subrange(6, 6 + body.len() as int) =~= body);
}

/// Every prefix of a response frame that is shorter than the whole frame
/// decodes to nothing.
pub proof fn lemma_truncated_response(status: u16, body: Seq<u8>, k: int)
    requires
        body.len() <= MAX_FIELD_LEN,
        0 <= k < response_frame(status, body).len(),
    ensures
        decoded_response(response_frame(status, body).subrange(0, k)) is None,
{
    let f = response_frame(status, body);
    let p = f.subrange(0, k);
    lemma_le32_round_trip(body.len());
    if k >= 6 {
        assert(read_le32(p, 2) == read_le32(f, 2));
        assert(read_le32(f, 2) == read_le32(le32(body.len()), 0));
    }
}

/// Appends the four little-endian bytes of `n`.
fn push_le32(out: &mut Vec<u8>, n: u32)
    ensures
        final(out)@ == old(out)@ + le32(n as nat),
{
    out.push((n % 256) as u8);
    out.push(((n / 256) % 256) as u8);
    out.push(((n / 65536) % 256) as u8);
    out.push(((n / 16777216) % 256) as u8);
    assert(final(out)@ =~= old(out)@ + le32(n as nat));
}

/// Appends all of `src`.
pub(crate) fn push_all(out: &mut Vec<u8>, src: &[u8])
    ensures
        final(out)@ == old(out)@ + src@,
{
    let ghost start = out@;
    let mut i: usize = 0;
    while i < src.len()
        invariant
            i <= src@.len(),
            out@ == start + src@.subrange(0, i as int),
        decreases src@.len() - i,
    {
        out.push(src[i]);
        i = i + 1;
        assert(out@ =~= start + src@.subrange(0, i as int));
    }
    assert(src@.subrange(0, i as int) =~= src@);
}

/// Encodes a request as a frame: the method, the path's UTF-8 bytes and the
/// body, each of the last two after its exact byte length.
pub fn encode_request(method: u8, path: &str, body: &[u8]) -> (r: Vec<u8>)
    requires
        path.spec_bytes().len() <= MAX_FIELD_LEN,
        body@.len() <= MAX_FIELD_LEN,
    ensures
        r@ == request_frame(method, path.spec_bytes(), body@),
{
    let path_bytes = path.as_bytes();
    let mut out: Vec<u8> = Vec::new();
    out.push(method);
    push_le32(&mut out, path_bytes.len() as u32);
    push_all(&mut out, path_bytes);
    push_le32(&mut out, body.len() as u32);
    push_all(&mut out, body);
    assert(out@ =~= request_frame(method, path.spec_bytes(), body@));
    out
}

/// Encodes a response as a frame: the status, then the body after its exact
/// byte length.
pub fn encode_response(status: u16, body: &[u8]) -> (r: Vec<u8>)
    requires
        body@.len() <= MAX_FIELD_LEN,
    ensures
        r@ == response_frame(status, body@),
{
    let mut out: Vec<u8> = Vec::new();
    out.push((status % 256) as u8);
    out.push((status / 256) as u8);
    push_le32(&mut out, body.len() as u32);
    push_all(&mut out, body);
    assert(out@ =~= response_frame(status, body@));
    out
}

/// Decodes a response frame into its status and body; `None` when the buffer
/// is shorter than its header or than the body length the header declares.
/// Never reads past the end of `bytes`.
pub fn decode_response(bytes: &[u8]) -> (r: Option<(u16, Vec<u8>)>)
    ensures
        match r {
            None => decoded_response(bytes@) is None,
            Some((status, body)) => decoded_response(bytes@) == Some((status, body@)),
        },
{
    if bytes.len() < 6 {
        return None;
    }
    let status: u16 = bytes[0] as u16 + 256 * (bytes[1] as u16);
    let body_len: u32 = bytes[2] as u32 + 256 * (bytes[3] as u32) + 65536 * (bytes[4] as u32)
        + 16777216 * (bytes[5] as u32);
    assert(status == read_le16(bytes@, 0));
    assert(body_len == read_le32(bytes@, 2));
    if ((bytes.len() - 6) as u64) < (body_len as u64) {
        return None;
    }
    let end: usize = 6 + body_len as usize;
    let mut body: Vec<u8> = Vec::new();
    let mut i: usize = 6;
    while i < end
        invariant
            6 <= i <= end <= bytes@.len(),
            body@ == bytes@.subrange(6, i as int),
        decreases end - i,
    {
        body.push(bytes[i]);
        i = i + 1;
        assert(body@ =~= bytes@.subrange(6, i as int));
    }
    Some((status, body))
}

} // verus!
