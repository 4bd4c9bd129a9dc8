//! Packet framing: request packets the client sends and the normalized
//! response packet decoded from a (possibly reassembled) datagram.

use vstd::prelude::*;
use vstd::slice::slice_to_vec;
use crate::buffer::{Bufferer, ReadFail, err_matches, sp_u8, sp_u32};
use crate::errors::{GDError, GDResult};
use crate::types::Request;

verus! {

/// Header marking a complete, unsplit packet.
pub const HEADER_SINGLE: u32 = 0xFFFFFFFF;

/// Response kind byte that demands the challenge handshake.
pub const KIND_CHALLENGE: u8 = 0x41;

/// First byte of a datagram that carries a split-response fragment.
pub const SPLIT_MARKER: u8 = 0xFE;

/// The big-endian bytes of a 32-bit value, as `to_bytes` writes the header.
pub open spec fn be32_bytes(h: u32) -> Seq<u8> {
    seq![
        (h / 0x1000000) as u8,
        ((h / 0x10000) % 0x100) as u8,
        ((h / 0x100) % 0x100) as u8,
        (h % 0x100) as u8,
    ]
}

/// The fixed ASCII preamble of an INFO request: "Source Engine Query" and a
/// NUL terminator.
pub open spec fn spec_info_preamble() -> Seq<u8> {
    seq![
        0x53u8, 0x6f, 0x75, 0x72, 0x63, 0x65, 0x20, 0x45, 0x6e, 0x67, 0x69, 0x6e, 0x65,
        0x20, 0x51, 0x75, 0x65, 0x72, 0x79, 0x00,
    ]
}

/// The initial request body: the preamble for INFO, an all-ones challenge
/// placeholder for every other kind.
pub open spec fn spec_initial_payload(kind: Request) -> Seq<u8> {
    if kind is INFO {
        spec_info_preamble()
    } else {
        seq![0xFFu8, 0xFF, 0xFF, 0xFF]
    }
}

/// The challenge request body: for INFO the server expects the preamble
/// repeated before the echoed token; otherwise the token alone.
pub open spec fn spec_challenge_payload(kind: Request, challenge: Seq<u8>) -> Seq<u8> {
    if kind is INFO {
        spec_info_preamble() + challenge
    } else {
        challenge
    }
}

/// Decoding a complete packet from a flat buffer: a little-endian 32-bit
/// header, a kind byte, and the remainder as payload.
pub open spec fn sp_packet(d: Seq<u8>) -> Result<(u32, u8, Seq<u8>), ReadFail> {
    match sp_u32(d, 0) {
        Err(k) => Err(k),
        Ok(h) => match sp_u8(d, h.1) {
            Err(k) => Err(k),
            Ok(kb) => Ok((h.0, kb.0, d.subrange(kb.1, d.len() as int))),
        },
    }
}

/// A complete, unsplit packet: header marker, kind tag and payload.
#[derive(Debug, Clone)]
pub struct Packet {
    pub header: u32,
    pub kind: u8,
    pub payload: Vec<u8>,
}

impl Packet {
    /// The initial request packet for a request kind.
    pub fn initial(kind: Request) -> (r: Packet)
        ensures
            r.header == HEADER_SINGLE,
            r.kind == kind.spec_code(),
            r.payload@ == spec_initial_payload(kind),
    {
        let payload: Vec<u8> = match kind {
            Request::INFO => info_preamble(),
            _ => {
                let v = vec![0xFFu8, 0xFF, 0xFF, 0xFF];
                proof {
                    assert(v@ =~= seq![0xFFu8, 0xFF, 0xFF, 0xFF]);
                }
                v
            },
        };
        Packet { header: HEADER_SINGLE, kind: kind.code(), payload }
    }

    /// The challenge request packet: the initial body with the echoed
    /// challenge token appended for INFO, or the token alone otherwise.
    pub fn challenge(kind: Request, challenge: Vec<u8>) -> (r: Packet)
        ensures
            r.header == HEADER_SINGLE,
            r.kind == kind.spec_code(),
            r.payload@ == spec_challenge_payload(kind, challenge@),
    {
        let mut initial = Packet::initial(kind);
        match kind {
            Request::INFO => {
                let mut tail = challenge;
                initial.payload.append(&mut tail);
                Packet { header: initial.header, kind: initial.kind, payload: initial.payload }
            },
            _ => Packet { header: initial.header, kind: initial.kind, payload: challenge },
        }
    }

    /// The wire bytes of this packet: big-endian header, kind byte, payload.
    pub fn to_bytes(&self) -> (r: Vec<u8>)
        ensures
            r@ == be32_bytes(self.header) + seq![self.kind] + self.payload@,
    {
        let h = self.header;
        let mut buf: Vec<u8> = Vec::new();
        buf.push((h / 0x1000000) as u8);
        buf.push(((h / 0x10000) % 0x100) as u8);
        buf.push(((h / 0x100) % 0x100) as u8);
        buf.push((h % 0x100) as u8);
        buf.push(self.kind);
        let mut tail = slice_to_vec(self.payload.as_slice());
        buf.append(&mut tail);
        proof {
            assert(buf@ =~= be32_bytes(self.header) + seq![self.kind] + self.payload@);
        }
        buf
    }

    /// Decode a complete packet from the start of a buffer; the whole
    /// remainder becomes the payload. Fails with underflow when the buffer
    /// is shorter than the header and kind fields.
    pub fn decode(buffer: &mut Bufferer) -> (r: GDResult<Packet>)
        requires
            old(buffer).wf(),
            old(buffer).spos() == 0,
        ensures
            final(buffer).wf(),
            match sp_packet(old(buffer).sdata()) {
                Ok(t) => r matches Ok(p) && p.header == t.0 && p.kind == t.1 && p.payload@ == t.2,
                Err(k) => r matches Err(e) && err_matches(e, k),
            },
    {
        let header = buffer.get_u32()?;
        let kind = buffer.get_u8()?;
        let payload = buffer.take_remaining();
        Ok(Packet { header, kind, payload })
    }
}

/// The INFO preamble as a fresh byte vector.
fn info_preamble() -> (r: Vec<u8>)
    ensures
        r@ == spec_info_preamble(),
{
    let v = vec![
        0x53u8, 0x6f, 0x75, 0x72, 0x63, 0x65, 0x20, 0x45, 0x6e, 0x67, 0x69, 0x6e, 0x65,
        0x20, 0x51, 0x75, 0x65, 0x72, 0x79, 0x00,
    ];
    proof {
        assert(v@ =~= spec_info_preamble());
    }
    v
}

} // verus!
