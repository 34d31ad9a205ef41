//! Reply framing: every answered message gets exactly one frame, a 16-byte
//! header (total length, signed error, echoed request id) followed by the
//! payload regions of the operation's reply record.

use vstd::prelude::*;

verus! {

use vstd::bytes::{
    lemma_auto_spec_u32_to_from_le_bytes, lemma_auto_spec_u64_to_from_le_bytes,
    spec_u32_to_le_bytes, spec_u64_to_le_bytes, u32_to_le_bytes,
};
use vstd::slice::slice_to_vec;
use crate::codec::{le32_at, le64_at, push_u32, push_u64, read_u32, read_u64};
use crate::wire::{
    AttrOut, BmapOut, EntryOut, GetxattrOut, InitOut, OpenOut, StatfsOut, WriteOut, XtimesOut,
    EIO, OUT_HEADER_SIZE,
};

/// A value whose bytes can stand as the payload of a success reply.
pub trait Sendable {
    /// The payload bytes this value encodes to.
    spec fn payload(&self) -> Seq<u8>;

    /// Build the payload bytes.
    fn to_bytes(&self) -> (r: Vec<u8>)
        ensures
            r@ == self.payload(),
    ;
}

impl Sendable for () {
    open spec fn payload(&self) -> Seq<u8> {
        Seq::empty()
    }

    fn to_bytes(&self) -> (r: Vec<u8>) {
        Vec::new()
    }
}

impl Sendable for Vec<u8> {
    open spec fn payload(&self) -> Seq<u8> {
        self@
    }

    fn to_bytes(&self) -> (r: Vec<u8>) {
        slice_to_vec(self.as_slice())
    }
}

impl Sendable for EntryOut {
    open spec fn payload(&self) -> Seq<u8> {
        self.encoded()
    }

    fn to_bytes(&self) -> (r: Vec<u8>) {
        let mut v = Vec::new();
        self.append_to(&mut v);
        proof {
            assert(v@ =~= self.encoded());
        }
        v
    }
}

impl Sendable for AttrOut {
    open spec fn payload(&self) -> Seq<u8> {
        self.encoded()
    }

    fn to_bytes(&self) -> (r: Vec<u8>) {
        let mut v = Vec::new();
        self.append_to(&mut v);
        proof {
            assert(v@ =~= self.encoded());
        }
        v
    }
}

impl Sendable for OpenOut {
    open spec fn payload(&self) -> Seq<u8> {
        self.encoded()
    }

    fn to_bytes(&self) -> (r: Vec<u8>) {
        let mut v = Vec::new();
        self.append_to(&mut v);
        proof {
            assert(v@ =~= self.encoded());
        }
        v
    }
}

impl Sendable for WriteOut {
    open spec fn payload(&self) -> Seq<u8> {
        self.encoded()
    }

    fn to_bytes(&self) -> (r: Vec<u8>) {
        let mut v = Vec::new();
        self.append_to(&mut v);
        proof {
            assert(v@ =~= self.encoded());
        }
        v
    }
}

impl Sendable for StatfsOut {
    open spec fn payload(&self) -> Seq<u8> {
        self.encoded()
    }

    fn to_bytes(&self) -> (r: Vec<u8>) {
        let mut v = Vec::new();
        self.append_to(&mut v);
        proof {
            assert(v@ =~= self.encoded());
        }
        v
    }
}

impl Sendable for GetxattrOut {
    open spec fn payload(&self) -> Seq<u8> {
        self.encoded()
    }

    fn to_bytes(&self) -> (r: Vec<u8>) {
        let mut v = Vec::new();
        self.append_to(&mut v);
        proof {
            assert(v@ =~= self.encoded());
        }
        v
    }
}

impl Sendable for BmapOut {
    open spec fn payload(&self) -> Seq<u8> {
        self.encoded()
    }

    fn to_bytes(&self) -> (r: Vec<u8>) {
        let mut v = Vec::new();
        self.append_to(&mut v);
        proof {
            assert(v@ =~= self.encoded());
        }
        v
    }
}

impl Sendable for InitOut {
    open spec fn payload(&self) -> Seq<u8> {
        self.encoded()
    }

    fn to_bytes(&self) -> (r: Vec<u8>) {
        let mut v = Vec::new();
        self.append_to(&mut v);
        proof {
            assert(v@ =~= self.encoded());
        }
        v
    }
}

impl Sendable for XtimesOut {
    open spec fn payload(&self) -> Seq<u8> {
        self.encoded()
    }

    fn to_bytes(&self) -> (r: Vec<u8>) {
        let mut v = Vec::new();
        self.append_to(&mut v);
        proof {
            assert(v@ =~= self.encoded());
        }
        v
    }
}

/// The 16 header bytes of a reply: total length, raw error field, request id.
pub open spec fn out_header_bytes(len: u32, error: i32, unique: u64) -> Seq<u8> {
    spec_u32_to_le_bytes(len) + spec_u32_to_le_bytes(error as u32) + spec_u64_to_le_bytes(unique)
}

/// The full reply frame for a request `unique`: a header whose length field
/// covers the header itself plus the payload, then the payload bytes.
pub open spec fn frame_bytes(unique: u64, error: i32, payload: Seq<u8>) -> Seq<u8>
    recommends
        payload.len() + OUT_HEADER_SIZE <= u32::MAX,
{
    out_header_bytes((payload.len() + OUT_HEADER_SIZE) as u32, error, unique) + payload
}

/// Errors travel as a positive errno; anything else is turned into `EIO`.
pub open spec fn clamp_errno(e: i32) -> i32 {
    if 0 < e {
        e
    } else {
        EIO
    }
}

/// The empty-payload frame that reports errno `errno` (sent negated).
pub open spec fn error_frame(unique: u64, errno: i32) -> Seq<u8>
    recommends
        0 < errno,
{
    frame_bytes(unique, (-errno) as i32, Seq::empty())
}

/// The length field a kernel-side reader finds in a frame.
pub open spec fn frame_len_field(s: Seq<u8>) -> u32 {
    le32_at(s, 0)
}

/// The signed error field a kernel-side reader finds in a frame.
pub open spec fn frame_error_field(s: Seq<u8>) -> i32 {
    le32_at(s, 4) as i32
}

/// The echoed request id a kernel-side reader finds in a frame.
pub open spec fn frame_unique_field(s: Seq<u8>) -> u64 {
    le64_at(s, 8)
}

/// What the kernel depends on to parse reply frames: the frame holds a full
/// header and its length field equals the frame's total byte length.
pub open spec fn valid_reply(s: Seq<u8>) -> bool {
    &&& s.len() >= OUT_HEADER_SIZE
    &&& s.len() <= u32::MAX
    &&& frame_len_field(s) == s.len()
}

/// Reply framing law: a frame built for `(unique, error, payload)` decodes,
/// read the way the kernel side reads it, to a length field equal to the
/// header size plus the payload length (the frame's total length), the given
/// error field, the echoed id, and exactly the payload bytes after the header.
pub proof fn lemma_frame_round_trip(unique: u64, error: i32, payload: Seq<u8>)
    requires
        payload.len() + OUT_HEADER_SIZE <= u32::MAX,
    ensures
        ({
            let s = frame_bytes(unique, error, payload);
            &&& s.len() == OUT_HEADER_SIZE + payload.len()
            &&& frame_len_field(s) == s.len()
            &&& frame_error_field(s) == error
            &&& frame_unique_field(s) == unique
            &&& s.subrange(OUT_HEADER_SIZE as int, s.len() as int) == payload
            &&& valid_reply(s)
        }),
{
    lemma_auto_spec_u32_to_from_le_bytes();
    lemma_auto_spec_u64_to_from_le_bytes();
    let s = frame_bytes(unique, error, payload);
    let a = spec_u32_to_le_bytes((payload.len() + OUT_HEADER_SIZE) as u32);
    let b = spec_u32_to_le_bytes(error as u32);
    let c = spec_u64_to_le_bytes(unique);
    assert(s.subrange(0, 4) =~= a);
    assert(s.subrange(4, 8) =~= b);
    assert(s.subrange(8, 16) =~= c);
    assert(s.subrange(OUT_HEADER_SIZE as int, s.len() as int) =~= payload);
    assert(((error as u32) as i32) == error) by (bit_vector);
}

/// The 4-byte two's-complement image of a signed error field.
fn error_bits(x: i32) -> (r: u32)
    ensures
        r == x as u32,
{
    #[verifier::truncate] (x as u32)
}

/// The signed reading of a raw error field.
fn error_signed(x: u32) -> (r: i32)
    ensures
        r == x as i32,
{
    #[verifier::truncate] (x as i32)
}

/// Assemble one reply frame: header, then payload.
pub fn build_frame(unique: u64, error: i32, payload: Vec<u8>) -> (r: Vec<u8>)
    requires
        payload@.len() + OUT_HEADER_SIZE <= u32::MAX,
    ensures
        r@ == frame_bytes(unique, error, payload@),
        valid_reply(r@),
        frame_unique_field(r@) == unique,
{
    proof {
        lemma_frame_round_trip(unique, error, payload@);
    }
    let len: u32 = (payload.len() as u32) + (OUT_HEADER_SIZE as u32);
    let mut r = u32_to_le_bytes(len);
    push_u32(&mut r, error_bits(error));
    push_u64(&mut r, unique);
    let mut p = payload;
    r.append(&mut p);
    proof {
        assert(r@ =~= frame_bytes(unique, error, payload@));
    }
    r
}

/// Decode a reply header the way the kernel side does: total length, signed
/// error, echoed request id.
pub fn parse_out_header(frame: &Vec<u8>) -> (r: (u32, i32, u64))
    requires
        frame@.len() >= OUT_HEADER_SIZE,
    ensures
        r.0 == frame_len_field(frame@),
        r.1 == frame_error_field(frame@),
        r.2 == frame_unique_field(frame@),
{
    let len = read_u32(frame, 0);
    let err = error_signed(read_u32(frame, 4));
    let unique = read_u64(frame, 8);
    (len, err, unique)
}

} // verus!
