//! Split-response fragments, reassembly and payload integrity.
//!
//! A response too large for one datagram arrives as fragments marked by a
//! leading split byte. The engine gathers exactly the declared number of
//! fragments, concatenates their payloads in arrival order and, when the
//! stream id carries the compression bit, decompresses and checks the
//! declared size and CRC-32 before the payload is framed as a packet.

use vstd::prelude::*;
use vstd::slice::slice_to_vec;
use crate::buffer::{Bufferer, ReadFail, err_matches, sp_u8, sp_u16, sp_u32};
use crate::errors::{GDError, GDResult};
use crate::packet::{Packet, sp_packet, SPLIT_MARKER};
use crate::types::{App, spec_is_css};

verus! {

/// Fragment size the protocol-7 Counter-Strike: Source quirk hardcodes
/// instead of carrying the field on the wire.
pub const CSS_FIXED_SIZE: u16 = 1248;

/// The CRC-32 checksum of a byte sequence, as crc32fast computes it. The
/// checksum is a function of the bytes alone.
pub uninterp spec fn crc32_of(b: Seq<u8>) -> u32;

/// Relies on crc32fast::hash: the CRC-32 checksum of the bytes, a function
/// of the bytes alone.
#[verifier::external_body]
pub fn crc32(b: &Vec<u8>) -> (r: u32)
    ensures
        r == crc32_of(b@),
{
    crc32fast::hash(b.as_slice())
}

/// What bzip2 decompression yields on a byte sequence: the decompressed
/// bytes, or nothing when the stream is not a complete, valid bzip2 file.
/// The outcome is a function of the bytes alone.
pub uninterp spec fn bunzip_of(b: Seq<u8>) -> Option<Seq<u8>>;

/// Relies on bzip2_rs::decoder::Decoder: decompression is a function of the
/// input bytes alone; a malformed or truncated stream reports an error.
#[verifier::external_body]
fn bunzip(data: &Vec<u8>) -> (r: Option<Vec<u8>>)
    ensures
        r is Some <==> bunzip_of(data@) is Some,
        r matches Some(v) ==> bunzip_of(data@) == Some(v@),
{
    let mut dec = bzip2_rs::decoder::Decoder::new();
    let (mut out, mut w, mut stall, mut chunk) = (Vec::new(), 0usize, 0u32, [0u8; 8192]);
    while stall <= 2 {
        match dec.write(&data[w..]) {
            Ok(bzip2_rs::decoder::WriteState::Written(n)) => { w += n; if n > 0 { stall = 0 } },
            Ok(_) => {}, Err(_) => return None,
        }
        match dec.read(&mut chunk) {
            Ok(bzip2_rs::decoder::ReadState::Read(n)) => { stall = 0; out.extend_from_slice(&chunk[..n]) },
            Ok(bzip2_rs::decoder::ReadState::Eof) => return Some(out),
            Ok(_) => stall += 1, Err(_) => return None,
        }
    }
    None
}

/// Whether a stream id carries the compression flag (its top bit).
pub open spec fn spec_compressed(id: u32) -> bool {
    id >= 0x80000000
}

/// The wire-level content of one split fragment.
pub ghost struct SplitModel {
    pub header: u32,
    pub id: u32,
    pub total: u8,
    pub number: u8,
    pub size: u16,
    pub compressed: bool,
    pub decompressed_size: Option<u32>,
    pub uncompressed_crc32: Option<u32>,
    pub payload: Seq<u8>,
}

/// Decoding one split fragment from the start of a datagram. The layout
/// branches on the app identity: GoldSrc packs total and number into one
/// byte's nibbles and has no size or compression fields; Source reads total,
/// number and (except for the protocol-7 Counter-Strike: Source quirk) a
/// size field, takes the compression flag from the id's top bit and, when
/// compressed, reads the declared decompressed size and CRC-32.
pub open spec fn sp_split(app: App, protocol: u8, d: Seq<u8>) -> Result<SplitModel, ReadFail> {
    match sp_u32(d, 0) {
        Err(k) => Err(k),
        Ok(h) => match sp_u32(d, h.1) {
            Err(k) => Err(k),
            Ok(idp) => match app {
                App::GoldSrc(_) => match sp_u8(d, idp.1) {
                    Err(k) => Err(k),
                    Ok(b) => Ok(SplitModel {
                        header: h.0,
                        id: idp.0,
                        total: (b.0 % 16) as u8,
                        number: (b.0 / 16) as u8,
                        size: 0,
                        compressed: false,
                        decompressed_size: None,
                        uncompressed_crc32: None,
                        payload: d.subrange(b.1, d.len() as int),
                    }),
                },
                App::Source(_) => match sp_u8(d, idp.1) {
                    Err(k) => Err(k),
                    Ok(t) => match sp_u8(d, t.1) {
                        Err(k) => Err(k),
                        Ok(n) => {
                            let sized = if protocol == 7 && spec_is_css(app) {
                                Ok((CSS_FIXED_SIZE, n.1))
                            } else {
                                sp_u16(d, n.1)
                            };
                            match sized {
                                Err(k) => Err(k),
                                Ok(s) => {
                                    if spec_compressed(idp.0) {
                                        match sp_u32(d, s.1) {
                                            Err(k) => Err(k),
                                            Ok(ds) => match sp_u32(d, ds.1) {
                                                Err(k) => Err(k),
                                                Ok(crc) => Ok(SplitModel {
                                                    header: h.0,
                                                    id: idp.0,
                                                    total: t.0,
                                                    number: n.0,
                                                    size: s.0,
                                                    compressed: true,
                                                    decompressed_size: Some(ds.0),
                                                    uncompressed_crc32: Some(crc.0),
                                                    payload: d.subrange(crc.1, d.len() as int),
                                                }),
                                            },
                                        }
                                    } else {
                                        Ok(SplitModel {
                                            header: h.0,
                                            id: idp.0,
                                            total: t.0,
                                            number: n.0,
                                            size: s.0,
                                            compressed: false,
                                            decompressed_size: None,
                                            uncompressed_crc32: None,
                                            payload: d.subrange(s.1, d.len() as int),
                                        })
                                    }
                                },
                            }
                        },
                    },
                },
            },
        },
    }
}

/// One received fragment of a split response.
#[derive(Debug, Clone)]
pub struct SplitPacket {
    pub header: u32,
    pub id: u32,
    pub total: u8,
    pub number: u8,
    pub size: u16,
    pub compressed: bool,
    pub decompressed_size: Option<u32>,
    pub uncompressed_crc32: Option<u32>,
    pub payload: Vec<u8>,
}

impl SplitPacket {
    /// Whether this fragment equals a wire-level model.
    pub open spec fn matches(self, m: SplitModel) -> bool {
        &&& self.header == m.header
        &&& self.id == m.id
        &&& self.total == m.total
        &&& self.number == m.number
        &&& self.size == m.size
        &&& self.compressed == m.compressed
        &&& self.decompressed_size == m.decompressed_size
        &&& self.uncompressed_crc32 == m.uncompressed_crc32
        &&& self.payload@ == m.payload
    }

    /// Decode one fragment from the start of a buffer.
    pub fn decode(app: &App, protocol: u8, buffer: &mut Bufferer) -> (r: GDResult<SplitPacket>)
        requires
            old(buffer).wf(),
            old(buffer).spos() == 0,
        ensures
            final(buffer).wf(),
            match sp_split(*app, protocol, old(buffer).sdata()) {
                Ok(m) => r matches Ok(sp) && sp.matches(m),
                Err(k) => r matches Err(e) && err_matches(e, k),
            },
    {
        let header = buffer.get_u32()?;
        let id = buffer.get_u32()?;
        match app {
            App::GoldSrc(_) => {
                let b = buffer.get_u8()?;
                let payload = buffer.take_remaining();
                Ok(SplitPacket {
                    header,
                    id,
                    total: b % 16,
                    number: b / 16,
                    size: 0,
                    compressed: false,
                    decompressed_size: None,
                    uncompressed_crc32: None,
                    payload,
                })
            },
            App::Source(_) => {
                let total = buffer.get_u8()?;
                let number = buffer.get_u8()?;
                let size = if protocol == 7 && app.is_css() {
                    CSS_FIXED_SIZE
                } else {
                    buffer.get_u16()?
                };
                let compressed = id >= 0x80000000;
                let (decompressed_size, uncompressed_crc32) = if compressed {
                    (Some(buffer.get_u32()?), Some(buffer.get_u32()?))
                } else {
                    (None, None)
                };
                let payload = buffer.take_remaining();
                Ok(SplitPacket {
                    header,
                    id,
                    total,
                    number,
                    size,
                    compressed,
                    decompressed_size,
                    uncompressed_crc32,
                    payload,
                })
            },
        }
    }
}

/// How reassembly can fail, as spec-level tags.
pub enum AsmFail {
    /// A datagram failed to decode.
    Read(ReadFail),
    /// Fewer datagrams arrived than the first fragment declared.
    NotEnough,
    /// Decompression failed, or the decompressed bytes did not match the
    /// declared size or CRC-32.
    Integrity,
}

/// Which `GDError` a reassembly failure tag stands for.
pub open spec fn asm_err_matches(e: GDError, k: AsmFail) -> bool {
    match k {
        AsmFail::Read(rk) => err_matches(e, rk),
        AsmFail::NotEnough => e is PacketReceive,
        AsmFail::Integrity => e is Decompress,
    }
}

/// The concatenation, in arrival order, of the payloads of the first `n`
/// datagrams, each decoded as a split fragment.
pub open spec fn sp_frag_payloads(app: App, protocol: u8, dgs: Seq<Seq<u8>>, n: int) -> Result<
    Seq<u8>,
    ReadFail,
>
    decreases n,
{
    if n <= 0 {
        Ok(Seq::empty())
    } else {
        match sp_frag_payloads(app, protocol, dgs, n - 1) {
            Err(k) => Err(k),
            Ok(acc) => match sp_split(app, protocol, dgs[n - 1]) {
                Err(k) => Err(k),
                Ok(m) => Ok(acc + m.payload),
            },
        }
    }
}

/// A fragment-decode failure at any consumed position makes the whole
/// concatenation fail with that failure.
pub proof fn lemma_frag_err(app: App, protocol: u8, dgs: Seq<Seq<u8>>, m: int, n: int, k: ReadFail)
    requires
        0 <= m <= n,
        sp_frag_payloads(app, protocol, dgs, m) == Err::<Seq<u8>, ReadFail>(k),
    ensures
        sp_frag_payloads(app, protocol, dgs, n) == Err::<Seq<u8>, ReadFail>(k),
    decreases n - m,
{
    if n > m {
        lemma_frag_err(app, protocol, dgs, m, n - 1, k);
    }
}

/// The flat payload of a reassembled split response: the concatenated
/// fragment payloads, decompressed and checked against the declared size and
/// CRC-32 when the first fragment is marked compressed. Either mismatch is a
/// hard integrity failure; no partial payload survives it.
pub open spec fn sp_flat_payload(first: SplitModel, c: Seq<u8>) -> Result<Seq<u8>, AsmFail> {
    if first.compressed {
        match bunzip_of(c) {
            None => Err(AsmFail::Integrity),
            Some(v) => {
                if v.len() != first.decompressed_size->Some_0 {
                    Err(AsmFail::Integrity)
                } else if crc32_of(v) != first.uncompressed_crc32->Some_0 {
                    Err(AsmFail::Integrity)
                } else {
                    Ok(v)
                }
            },
        }
    } else {
        Ok(c)
    }
}

/// How many datagrams a split response consumes: the declared total, with a
/// degenerate declared total of zero still consuming the one datagram that
/// arrived.
pub open spec fn spec_consumed(total: u8) -> int {
    if total == 0 {
        1
    } else {
        total as int
    }
}

/// The outcome of receiving one logical response from a sequence of
/// datagrams in arrival order: the decoded packet as a (header, kind,
/// payload) triple and the number of datagrams consumed.
pub open spec fn sp_assemble(app: App, protocol: u8, dgs: Seq<Seq<u8>>) -> Result<
    ((u32, u8, Seq<u8>), int),
    AsmFail,
> {
    if dgs.len() == 0 {
        Err(AsmFail::NotEnough)
    } else if dgs[0].len() >= 1 && dgs[0][0] == SPLIT_MARKER {
        match sp_split(app, protocol, dgs[0]) {
            Err(k) => Err(AsmFail::Read(k)),
            Ok(first) => {
                let n = spec_consumed(first.total);
                if dgs.len() < n {
                    Err(AsmFail::NotEnough)
                } else {
                    match sp_frag_payloads(app, protocol, dgs, n) {
                        Err(k) => Err(AsmFail::Read(k)),
                        Ok(c) => match sp_flat_payload(first, c) {
                            Err(k) => Err(k),
                            Ok(flat) => match sp_packet(flat) {
                                Err(k) => Err(AsmFail::Read(k)),
                                Ok(t) => Ok((t, n)),
                            },
                        },
                    }
                }
            },
        }
    } else {
        match sp_packet(dgs[0]) {
            Err(k) => Err(AsmFail::Read(k)),
            Ok(t) => Ok((t, 1)),
        }
    }
}

/// Decompress a concatenated split payload and check it against the declared
/// decompressed size and CRC-32. Both checks must pass; either mismatch
/// discards the whole payload as a decompression failure.
pub fn decompress_checked(data: &Vec<u8>, expected_size: u32, expected_crc: u32) -> (r: GDResult<
    Vec<u8>,
>)
    ensures
        match bunzip_of(data@) {
            None => r matches Err(e) && e is Decompress,
            Some(v) => {
                if v.len() != expected_size {
                    r matches Err(e) && e is Decompress
                } else if crc32_of(v) != expected_crc {
                    r matches Err(e) && e is Decompress
                } else {
                    r matches Ok(out) && out@ == v
                }
            },
        },
{
    match bunzip(data) {
        None => Err(GDError::Decompress("The payload is not a valid bzip2 stream.".to_string())),
        Some(decompressed) => {
            if decompressed.len() as u64 != expected_size as u64 {
                Err(GDError::Decompress(
                    "The decompressed payload size doesn't match the expected one.".to_string(),
                ))
            } else if crc32(&decompressed) != expected_crc {
                Err(GDError::Decompress(
                    "The decompressed crc32 hash does not match the expected one.".to_string(),
                ))
            } else {
                Ok(decompressed)
            }
        },
    }
}

/// Receive one logical response from datagrams in arrival order: a datagram
/// starting with the split marker opens a split response that consumes
/// exactly the declared number of fragments and concatenates their payloads
/// in that order; any other datagram is decoded as a complete packet by
/// itself. Returns the packet and how many datagrams were consumed.
#[verifier::loop_isolation(false)]
pub fn assemble_packets(app: &App, protocol: u8, datagrams: &Vec<Vec<u8>>) -> (r: GDResult<
    (Packet, usize),
>)
    ensures
        match sp_assemble(*app, protocol, datagrams.deep_view()) {
            Ok(t) => r matches Ok(pair) && pair.0.header == t.0.0 && pair.0.kind == t.0.1
                && pair.0.payload@ == t.0.2 && pair.1 == t.1,
            Err(k) => r matches Err(e) && asm_err_matches(e, k),
        },
{
    let ghost dgs = datagrams.deep_view();
    if datagrams.len() == 0 {
        return Err(GDError::PacketReceive("No datagram arrived.".to_string()));
    }
    let first_dg: &Vec<u8> = &datagrams[0];
    proof {
        assert(dgs[0] == first_dg@);
    }
    if first_dg.len() >= 1 && *vstd::slice::slice_index_get(first_dg.as_slice(), 0) == SPLIT_MARKER {
        let mut buf = Bufferer::new_with_data(slice_to_vec(first_dg.as_slice()));
        let first = SplitPacket::decode(app, protocol, &mut buf)?;
        let total = first.total;
        let ghost n = spec_consumed(total);
        let needed: usize = if total == 0 { 1 } else { total as usize };
        if datagrams.len() < needed {
            return Err(GDError::PacketReceive(
                "Fewer datagrams arrived than the split response declared.".to_string(),
            ));
        }
        let mut acc = first.payload;
        let mut i: usize = 1;
        proof {
            assert(sp_frag_payloads(*app, protocol, dgs, 0) == Ok::<Seq<u8>, ReadFail>(
                Seq::empty(),
            ));
            assert(Seq::<u8>::empty() + acc@ =~= acc@);
        }
        while i < needed
            invariant
                1 <= i <= needed,
                needed == spec_consumed(total),
                needed <= datagrams.len(),
                dgs == datagrams.deep_view(),
                sp_frag_payloads(*app, protocol, dgs, i as int) == Ok::<Seq<u8>, ReadFail>(acc@),
            decreases needed - i,
        {
            let dg: &Vec<u8> = &datagrams[i];
            proof {
                assert(dgs[i as int] == dg@);
            }
            let mut fbuf = Bufferer::new_with_data(slice_to_vec(dg.as_slice()));
            let chunk = match SplitPacket::decode(app, protocol, &mut fbuf) {
                Ok(c) => c,
                Err(e) => {
                    proof {
                        let k = sp_split(*app, protocol, dgs[i as int])->Err_0;
                        assert(sp_frag_payloads(*app, protocol, dgs, i + 1) == Err::<
                            Seq<u8>,
                            ReadFail,
                        >(k));
                        lemma_frag_err(*app, protocol, dgs, i + 1, needed as int, k);
                    }
                    return Err(e);
                },
            };
            let mut tail = chunk.payload;
            acc.append(&mut tail);
            i = i + 1;
        }
        let flat = if first.compressed {
            let expected_size = match first.decompressed_size {
                Some(s) => s,
                None => 0,
            };
            let expected_crc = match first.uncompressed_crc32 {
                Some(c) => c,
                None => 0,
            };
            decompress_checked(&acc, expected_size, expected_crc)?
        } else {
            acc
        };
        let mut pbuf = Bufferer::new_with_data(flat);
        let packet = Packet::decode(&mut pbuf)?;
        Ok((packet, needed))
    } else {
        let mut buf = Bufferer::new_with_data(slice_to_vec(first_dg.as_slice()));
        let packet = Packet::decode(&mut buf)?;
        Ok((packet, 1))
    }
}

} // verus!
