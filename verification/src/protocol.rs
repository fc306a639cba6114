use vstd::prelude::*;
use crate::errors::BraidError;
use crate::util::append_bytes;
use vstd::bytes::{
    lemma_auto_spec_u16_to_from_le_bytes, lemma_auto_spec_u32_to_from_le_bytes,
    lemma_auto_spec_u64_to_from_le_bytes, spec_u16_from_le_bytes, spec_u16_to_le_bytes,
    spec_u32_from_le_bytes, spec_u32_to_le_bytes, spec_u64_from_le_bytes, spec_u64_to_le_bytes,
    u16_from_le_bytes, u16_to_le_bytes, u32_from_le_bytes, u32_to_le_bytes, u64_from_le_bytes,
    u64_to_le_bytes,
};
use vstd::slice::{slice_index_get, slice_subrange, slice_to_vec};

verus! {

broadcast use vstd::seq_lib::group_seq_lib_default, vstd::seq::group_seq_axioms;

/// First byte of every frame on the wire.
pub const FRAME_VERSION: u8 = 1;

/// Length of an origin identifier inside a frame.
pub const ORIGIN_LEN: usize = 32;

/// A document path on the wire is at most this long.
pub const MAX_PATH_LEN: usize = 0xFFFF;

/// A payload on the wire is at most this long.
pub const MAX_PAYLOAD_LEN: usize = 0xFFFF_FFFF;

/// Mathematical model of one wire-level update frame: the origin peer that
/// authored it, that origin's ordering token, the document path it belongs
/// to, and the opaque update payload.
pub ghost struct FrameModel {
    pub origin: Seq<u8>,
    pub token: u64,
    pub path: Seq<u8>,
    pub payload: Seq<u8>,
}

impl FrameModel {
    /// Structural bounds that every encodable frame meets.
    pub open spec fn wf(self) -> bool {
        &&& self.origin.len() == ORIGIN_LEN
        &&& 0 < self.path.len() <= MAX_PATH_LEN
        &&& self.payload.len() <= MAX_PAYLOAD_LEN
    }
}

/// One wire-level update exchanged over a topic.
#[derive(Debug, PartialEq, Eq)]
pub struct UpdateFrame {
    /// Identifier of the peer that authored the update.
    pub origin: Vec<u8>,
    /// Per-origin monotonic ordering token; comparable only between frames
    /// of the same origin.
    pub token: u64,
    /// The document path the update belongs to.
    pub path: Vec<u8>,
    /// Opaque update bytes; their meaning is the application layer's.
    pub payload: Vec<u8>,
}

impl View for UpdateFrame {
    type V = FrameModel;

    open spec fn view(&self) -> FrameModel {
        FrameModel {
            origin: self.origin@,
            token: self.token,
            path: self.path@,
            payload: self.payload@,
        }
    }
}

/// The exact byte string that a frame serializes to: a version byte, the
/// origin, the token, the path length and path, then the payload length and
/// payload, with all lengths little-endian.
pub open spec fn frame_bytes(f: FrameModel) -> Seq<u8> {
    seq![FRAME_VERSION] + f.origin + spec_u64_to_le_bytes(f.token) + spec_u16_to_le_bytes(
        f.path.len() as u16,
    ) + f.path + spec_u32_to_le_bytes(f.payload.len() as u32) + f.payload
}

/// The exact result of decoding a byte string: the unique well-formed frame
/// it serializes, `MalformedFrame` where its structure is broken, and
/// `TruncatedFrame` where the declared payload length does not match the
/// bytes actually present.
pub open spec fn decode_spec(b: Seq<u8>) -> Result<FrameModel, BraidError> {
    if b.len() < 43 {
        Err(BraidError::MalformedFrame)
    } else if b[0] != FRAME_VERSION {
        Err(BraidError::MalformedFrame)
    } else {
        let path_len = spec_u16_from_le_bytes(b.subrange(41, 43)) as int;
        if path_len == 0 {
            Err(BraidError::MalformedFrame)
        } else if b.len() < 47 + path_len {
            Err(BraidError::MalformedFrame)
        } else {
            let payload_len = spec_u32_from_le_bytes(
                b.subrange(43 + path_len, 47 + path_len),
            ) as int;
            if b.len() - (47 + path_len) != payload_len {
                Err(BraidError::TruncatedFrame)
            } else {
                Ok(
                    FrameModel {
                        origin: b.subrange(1, 33),
                        token: spec_u64_from_le_bytes(b.subrange(33, 41)),
                        path: b.subrange(43, 43 + path_len),
                        payload: b.subrange(47 + path_len, b.len() as int),
                    },
                )
            }
        }
    }
}

/// Serializes a frame. Encoding is pure and deterministic: the result is
/// exactly `frame_bytes` of the frame's model.
pub fn encode(frame: &UpdateFrame) -> (r: Vec<u8>)
    requires
        frame@.wf(),
    ensures
        r@ == frame_bytes(frame@),
{
    let mut out: Vec<u8> = Vec::new();
    out.push(FRAME_VERSION);
    append_bytes(&mut out, frame.origin.as_slice());
    let token_bytes = u64_to_le_bytes(frame.token);
    append_bytes(&mut out, token_bytes.as_slice());
    let path_len_bytes = u16_to_le_bytes(frame.path.len() as u16);
    append_bytes(&mut out, path_len_bytes.as_slice());
    append_bytes(&mut out, frame.path.as_slice());
    let payload_len_bytes = u32_to_le_bytes(frame.payload.len() as u32);
    append_bytes(&mut out, payload_len_bytes.as_slice());
    append_bytes(&mut out, frame.payload.as_slice());
    proof {
        assert(out@ =~= frame_bytes(frame@));
    }
    out
}

/// Deserializes a frame, validating structural integrity only: the result is
/// exactly `decode_spec` of the input bytes, and every decoded frame is
/// well formed.
pub fn decode(bytes: &[u8]) -> (r: Result<UpdateFrame, BraidError>)
    ensures
        match r {
            Ok(f) => decode_spec(bytes@) == Ok::<FrameModel, BraidError>(f@) && f@.wf(),
            Err(e) => decode_spec(bytes@) == Err::<FrameModel, BraidError>(e),
        },
{
    if bytes.len() < 43 {
        return Err(BraidError::MalformedFrame);
    }
    let version = *slice_index_get(bytes, 0);
    if version != FRAME_VERSION {
        return Err(BraidError::MalformedFrame);
    }
    let path_len = u16_from_le_bytes(slice_subrange(bytes, 41, 43)) as usize;
    if path_len == 0 {
        return Err(BraidError::MalformedFrame);
    }
    if bytes.len() < 47 + path_len {
        return Err(BraidError::MalformedFrame);
    }
    let payload_len = u32_from_le_bytes(slice_subrange(bytes, 43 + path_len, 47 + path_len));
    let avail = bytes.len() - (47 + path_len);
    if payload_len as usize != avail {
        return Err(BraidError::TruncatedFrame);
    }
    let origin = slice_to_vec(slice_subrange(bytes, 1, 33));
    let token = u64_from_le_bytes(slice_subrange(bytes, 33, 41));
    let path = slice_to_vec(slice_subrange(bytes, 43, 43 + path_len));
    let payload = slice_to_vec(slice_subrange(bytes, 47 + path_len, bytes.len()));
    let frame = UpdateFrame { origin, token, path, payload };
    Ok(frame)
}

/// Decoding inverts encoding: every well-formed frame comes back from its
/// own bytes exactly, so the codec loses nothing in either direction.
pub proof fn lemma_decode_encode(f: FrameModel)
    requires
        f.wf(),
    ensures
        decode_spec(frame_bytes(f)) == Ok::<FrameModel, BraidError>(f),
{
    lemma_auto_spec_u16_to_from_le_bytes();
    lemma_auto_spec_u32_to_from_le_bytes();
    lemma_auto_spec_u64_to_from_le_bytes();
    let b = frame_bytes(f);
    let plen = f.path.len() as int;
    assert(b.len() == 47 + plen + f.payload.len());
    assert(b[0] == FRAME_VERSION);
    assert(b.subrange(41, 43) =~= spec_u16_to_le_bytes(f.path.len() as u16));
    assert(spec_u16_from_le_bytes(b.subrange(41, 43)) as int == plen);
    assert(b.subrange(1, 33) =~= f.origin);
    assert(b.subrange(33, 41) =~= spec_u64_to_le_bytes(f.token));
    assert(b.subrange(43, 43 + plen) =~= f.path);
    assert(b.subrange(43 + plen, 47 + plen) =~= spec_u32_to_le_bytes(f.payload.len() as u32));
    assert(spec_u32_from_le_bytes(b.subrange(43 + plen, 47 + plen)) as int == f.payload.len());
    assert(b.subrange(47 + plen, b.len() as int) =~= f.payload);
}

} // verus!
