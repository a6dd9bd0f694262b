use vstd::prelude::*;
use vstd::slice::slice_to_vec;

use crate::error::KvError;

verus! {

/// Bytes taken by the frame header.
pub const LEN_LEN: usize = 4;

/// The payload length must stay below this: it has 31 bits.
pub const MAX_FRAME: usize = 2 * 1024 * 1024 * 1024;

/// Payloads longer than this are gzipped: an Ethernet MTU of 1500 less 20 bytes
/// of IP header, 20 of TCP header, 20 kept for options and 4 for the frame header.
pub const COMPRESSION_LIMIT: usize = 1436;

/// The header bit that marks a gzipped payload.
pub const COMPRESSION_BIT: u32 = 0x8000_0000;

/// The big-endian bytes of `x`.
pub open spec fn be_bytes(x: u32) -> Seq<u8> {
    seq![(x >> 24u32) as u8, (x >> 16u32) as u8, (x >> 8u32) as u8, x as u8]
}

/// The big-endian word in the first four bytes of `s`.
pub open spec fn be_read(s: Seq<u8>) -> u32 {
    ((s[0] as u32) << 24u32) | ((s[1] as u32) << 16u32) | ((s[2] as u32) << 8u32) | (s[3] as u32)
}

/// The header word for a payload of `len` bytes.
pub open spec fn header_of(len: u32, compressed: bool) -> u32 {
    if compressed {
        len | COMPRESSION_BIT
    } else {
        len
    }
}

/// The payload length a header announces.
pub open spec fn header_len(h: u32) -> u32 {
    h & 0x7fff_ffffu32
}

/// Whether a header marks its payload as gzipped.
pub open spec fn header_compressed(h: u32) -> bool {
    h & COMPRESSION_BIT != 0
}

/// The gzip stream that flate2 writes for `data` at the default level.
pub uninterp spec fn gzip_of(data: Seq<u8>) -> Seq<u8>;

/// What flate2 reads back from the gzip stream `data`, or `None` where `data` is no such stream.
pub uninterp spec fn gunzip_of(data: Seq<u8>) -> Option<Seq<u8>>;

/// The frame for `payload`, or `None` where it cannot be framed: too long,
/// or still too long once compressed.
pub open spec fn frame_of(payload: Seq<u8>) -> Option<Seq<u8>> {
    if payload.len() >= MAX_FRAME {
        None
    } else if payload.len() > COMPRESSION_LIMIT {
        let c = gzip_of(payload);
        if c.len() < MAX_FRAME {
            Some(be_bytes(header_of(c.len() as u32, true)) + c)
        } else {
            None
        }
    } else {
        Some(be_bytes(header_of(payload.len() as u32, false)) + payload)
    }
}

/// The payload of the frame at the start of `s` and the bytes the frame takes,
/// or `None` where `s` does not start with a whole, well-formed frame.
pub open spec fn unframe(s: Seq<u8>) -> Option<(Seq<u8>, int)> {
    if s.len() < LEN_LEN {
        None
    } else {
        let h = be_read(s);
        let end = LEN_LEN + header_len(h);
        if end > s.len() {
            None
        } else {
            let body = s.subrange(LEN_LEN as int, end);
            if header_compressed(h) {
                match gunzip_of(body) {
                    Some(d) => Some((d, end)),
                    None => None,
                }
            } else {
                Some((body, end))
            }
        }
    }
}

/// Relies on flate2::write::GzEncoder over a `Vec`, at the default level: the
/// gzip stream of `data`, which flate2's decoder reads back to `data`. Writing
/// into a `Vec` does not fail, and the stream holds at least the 10-byte header
/// and the 8-byte trailer.
#[verifier::external_body]
fn gzip(data: &[u8]) -> (r: Result<Vec<u8>, String>)
    ensures
        r is Ok,
        r matches Ok(c) ==> c@ == gzip_of(data@),
        r matches Ok(c) ==> gunzip_of(c@) == Some(data@),
        r matches Ok(c) ==> c@.len() >= 18,
{
    let mut encoder = flate2::write::GzEncoder::new(Vec::new(), flate2::Compression::default());
    match std::io::Write::write_all(&mut encoder, data) {
        Ok(()) => encoder.finish().map_err(|e| e.to_string()),
        Err(e) => Err(e.to_string()),
    }
}

/// Relies on flate2::read::GzDecoder: decompresses the gzip stream `data`.
#[verifier::external_body]
fn gunzip(data: &[u8]) -> (r: Result<Vec<u8>, String>)
    ensures
        match r {
            Ok(d) => gunzip_of(data@) == Some(d@),
            Err(_) => gunzip_of(data@) is None,
        },
{
    let mut out = Vec::new();
    match std::io::Read::read_to_end(&mut flate2::read::GzDecoder::new(data), &mut out) {
        Ok(_) => Ok(out),
        Err(e) => Err(e.to_string()),
    }
}

proof fn lemma_be_round_trip(x: u32)
    ensures
        be_read(be_bytes(x)) == x,
{
    assert(((((x >> 24u32) as u8) as u32) << 24u32) | ((((x >> 16u32) as u8) as u32) << 16u32) | ((((
    x >> 8u32) as u8) as u32) << 8u32) | ((x as u8) as u32) == x) by (bit_vector);
}

/// The header packs the compression flag in bit 31 above the payload length,
/// and both come back out of it unchanged.
pub proof fn lemma_header_math(len: u32, compressed: bool)
    requires
        len < MAX_FRAME,
    ensures
        header_of(len, compressed) == ((if compressed { 1u32 } else { 0u32 }) << 31u32) | len,
        header_len(header_of(len, compressed)) == len,
        header_compressed(header_of(len, compressed)) == compressed,
        be_read(be_bytes(header_of(len, compressed))) == header_of(len, compressed),
{
    let h = header_of(len, compressed);
    lemma_be_round_trip(h);
    if compressed {
        assert(((1u32 << 31u32) | len) == (len | 0x8000_0000u32)) by (bit_vector);
        assert((len | 0x8000_0000u32) & 0x7fff_ffffu32 == len) by (bit_vector)
            requires len < 0x8000_0000u32;
        assert((len | 0x8000_0000u32) & 0x8000_0000u32 != 0) by (bit_vector);
    } else {
        assert(((0u32 << 31u32) | len) == len) by (bit_vector);
        assert(len & 0x7fff_ffffu32 == len) by (bit_vector)
            requires len < 0x8000_0000u32;
        assert(len & 0x8000_0000u32 == 0) by (bit_vector)
            requires len < 0x8000_0000u32;
    }
}

/// A frame's compression bit is set exactly when its payload is longer than
/// `COMPRESSION_LIMIT`, and its header announces exactly the bytes that follow it.
pub proof fn lemma_compression_trigger(payload: Seq<u8>)
    requires
        frame_of(payload) is Some,
    ensures
        frame_of(payload)->0.len() >= LEN_LEN,
        frame_of(payload)->0.len() - LEN_LEN < MAX_FRAME,
        header_compressed(be_read(frame_of(payload)->0)) == (payload.len() > COMPRESSION_LIMIT),
        header_len(be_read(frame_of(payload)->0)) == frame_of(payload)->0.len() - LEN_LEN,
        be_read(frame_of(payload)->0) == header_of(
            (frame_of(payload)->0.len() - LEN_LEN) as u32,
            payload.len() > COMPRESSION_LIMIT,
        ),
{
    let f = frame_of(payload)->0;
    let compressed = payload.len() > COMPRESSION_LIMIT;
    let len = if compressed {
        gzip_of(payload).len() as u32
    } else {
        payload.len() as u32
    };
    let h = header_of(len, compressed);
    lemma_header_math(len, compressed);
    assert(f.subrange(0, 4) =~= be_bytes(h));
    assert(be_read(f) == be_read(be_bytes(h)));
}

/// Append the big-endian bytes of `x`.
fn put_u32(buf: &mut Vec<u8>, x: u32)
    ensures
        final(buf)@ == old(buf)@ + be_bytes(x),
{
    buf.push((x >> 24u32) as u8);
    buf.push((x >> 16u32) as u8);
    buf.push((x >> 8u32) as u8);
    buf.push(x as u8);
    assert(final(buf)@ =~= old(buf)@ + be_bytes(x));
}

/// The big-endian word in the first four bytes.
fn get_u32(buf: &[u8]) -> (r: u32)
    requires
        buf@.len() >= 4,
    ensures
        r == be_read(buf@),
{
    ((buf[0] as u32) << 24u32) | ((buf[1] as u32) << 16u32) | ((buf[2] as u32) << 8u32) | (buf[3] as u32)
}

/// The header word for a payload of `len` bytes.
pub fn encode_header(len: u32, compressed: bool) -> (r: u32)
    requires
        len < MAX_FRAME,
    ensures
        r == header_of(len, compressed),
{
    if compressed {
        len | COMPRESSION_BIT
    } else {
        len
    }
}

/// Split a header word into payload length and compression flag.
pub fn decode_header(header: u32) -> (r: (usize, bool))
    ensures
        r.0 == header_len(header),
        r.1 == header_compressed(header),
{
    let compressed = header & COMPRESSION_BIT != 0;
    let len = header & 0x7fff_ffffu32;
    (len as usize, compressed)
}

/// Append the frame of `payload` to `buf`: a header, then the payload,
/// gzipped when it is longer than `COMPRESSION_LIMIT`.
///
/// Every frame written this way decodes, whatever follows it, to `payload`.
pub fn encode_frame(payload: &[u8], buf: &mut Vec<u8>) -> (r: Result<(), KvError>)
    ensures
        r is Ok <==> frame_of(payload@) is Some,
        match frame_of(payload@) {
            Some(f) => final(buf)@ == old(buf)@ + f && forall|rest: Seq<u8>|
                #[trigger] unframe(f + rest) == Some((payload@, f.len() as int)),
            None => final(buf)@ == old(buf)@,
        },
        r is Err ==> r == Err::<(), KvError>(KvError::FrameError),
        frame_of(payload@) is Some && payload@.len() > COMPRESSION_LIMIT ==> frame_of(payload@)->0.len()
            >= LEN_LEN + 18,
{
    let size = payload.len();
    if size >= MAX_FRAME {
        return Err(KvError::FrameError);
    }
    if size > COMPRESSION_LIMIT {
        match gzip(payload) {
            Ok(c) => {
                let mut c = c;
                if c.len() >= MAX_FRAME {
                    return Err(KvError::FrameError);
                }
                let header = encode_header(c.len() as u32, true);
                let ghost cs = c@;
                put_u32(buf, header);
                buf.append(&mut c);
                proof {
                    let f = be_bytes(header) + cs;
                    assert(final(buf)@ =~= old(buf)@ + f);
                    assert forall|rest: Seq<u8>| #[trigger]
                        unframe(f + rest) == Some((payload@, f.len() as int)) by {
                        lemma_be_round_trip(header);
                        let s = f + rest;
                        assert(s.subrange(0, 4) =~= be_bytes(header));
                        assert(be_read(s) == be_read(be_bytes(header)));
                        let l = cs.len() as u32;
                        assert((l | 0x8000_0000u32) & 0x7fff_ffffu32 == l) by (bit_vector)
                            requires l < 0x8000_0000u32;
                        assert((l | 0x8000_0000u32) & 0x8000_0000u32 != 0) by (bit_vector);
                        assert(s.subrange(4, 4 + cs.len() as int) =~= cs);
                    }
                }
                Ok(())
            },
            Err(msg) => Err(KvError::IoError(msg)),
        }
    } else {
        let header = encode_header(size as u32, false);
        put_u32(buf, header);
        let mut body = slice_to_vec(payload);
        buf.append(&mut body);
        proof {
            let f = be_bytes(header) + payload@;
            assert(final(buf)@ =~= old(buf)@ + f);
            assert forall|rest: Seq<u8>| #[trigger]
                unframe(f + rest) == Some((payload@, f.len() as int)) by {
                lemma_be_round_trip(header);
                let s = f + rest;
                assert(s.subrange(0, 4) =~= be_bytes(header));
                assert(be_read(s) == be_read(be_bytes(header)));
                let l = size as u32;
                assert(l & 0x7fff_ffffu32 == l) by (bit_vector)
                    requires l < 0x8000_0000u32;
                assert(l & 0x8000_0000u32 == 0) by (bit_vector)
                    requires l < 0x8000_0000u32;
                assert(s.subrange(4, 4 + payload@.len() as int) =~= payload@);
            }
        }
        Ok(())
    }
}

/// Take the frame at the start of `buf` off it and return its payload,
/// gunzipped where the header says so. Where `buf` does not start with a whole,
/// well-formed frame, `buf` is left as it was.
pub fn decode_frame(buf: &mut Vec<u8>) -> (r: Result<Vec<u8>, KvError>)
    ensures
        match unframe(old(buf)@) {
            Some((p, n)) => r matches Ok(d) && d@ == p && final(buf)@ == old(buf)@.subrange(
                n,
                old(buf)@.len() as int,
            ),
            None => r is Err && final(buf)@ == old(buf)@,
        },
{
    if buf.len() < LEN_LEN {
        return Err(KvError::FrameError);
    }
    let header = get_u32(buf.as_slice());
    let (len, compressed) = decode_header(header);
    if len > buf.len() - LEN_LEN {
        return Err(KvError::FrameError);
    }
    let end = LEN_LEN + len;
    let payload = if compressed {
        match gunzip(&buf.as_slice()[LEN_LEN..end]) {
            Ok(d) => d,
            Err(msg) => {
                return Err(KvError::IoError(msg));
            },
        }
    } else {
        slice_to_vec(&buf.as_slice()[LEN_LEN..end])
    };
    let mut rest = buf.split_off(end);
    std::mem::swap(buf, &mut rest);
    Ok(payload)
}

} // verus!
