use vstd::prelude::*;
use vstd::utf8::encode_utf8;
use crate::codec::{
    decode_vec_from, encode_vec_into, lemma_part, lemma_vec_round_trip, spec_dec_vec, spec_enc_vec,
    wf_seq, Codec,
};
use crate::compress::{compress_bytes, decompress_bytes, deflate_of, inflate_of};
use crate::ice40::minimized::{
    MinimizedBelInfoPOD, MinimizedBelInfoView, MinimizedChipInfoPOD, MinimizedChipInfoView,
    MinimizedPipInfoPOD, MinimizedWireInfoPOD, MinimizedWireInfoView, MinimizedWireSegmentPOD,
};
use crate::varint::{
    dec_i16, dec_i32, dec_i8, dec_str, enc_i16, enc_i32, enc_i8, enc_str, lemma_i16_round_trip,
    lemma_i32_round_trip, lemma_i8_round_trip, lemma_str_round_trip, spec_dec_i16, spec_dec_i32,
    spec_dec_i8, spec_dec_str, spec_enc_i16, spec_enc_i32, spec_enc_i8, spec_enc_str,
};
use crate::CodecError;

verus! {

impl Codec for MinimizedBelInfoPOD {
    open spec fn wf(v: MinimizedBelInfoView) -> bool {
        encode_utf8(v.name).len() <= u64::MAX
    }

    open spec fn enc(v: MinimizedBelInfoView) -> Seq<u8> {
        spec_enc_str(v.name) + spec_enc_i32(v.kind) + spec_enc_i8(v.x) + spec_enc_i8(v.y)
            + spec_enc_i8(v.z)
    }

    open spec fn dec(data: Seq<u8>, pos: int) -> Option<(MinimizedBelInfoView, int)> {
        match spec_dec_str(data, pos) {
            None => None,
            Some((name, p1)) => match spec_dec_i32(data, p1) {
                None => None,
                Some((kind, p2)) => match spec_dec_i8(data, p2) {
                    None => None,
                    Some((x, p3)) => match spec_dec_i8(data, p3) {
                        None => None,
                        Some((y, p4)) => match spec_dec_i8(data, p4) {
                            None => None,
                            Some((z, p5)) => Some(
                                (MinimizedBelInfoView { name, kind, x, y, z }, p5),
                            ),
                        },
                    },
                },
            },
        }
    }

    proof fn lemma_round_trip(v: MinimizedBelInfoView, data: Seq<u8>, pos: int) {
        let e1 = spec_enc_str(v.name);
        let e2 = spec_enc_i32(v.kind);
        let e3 = spec_enc_i8(v.x);
        let e4 = spec_enc_i8(v.y);
        let e5 = spec_enc_i8(v.z);
        let e = Self::enc(v);
        let l1 = e1.len() as int;
        let l2 = l1 + e2.len() as int;
        let l3 = l2 + e3.len() as int;
        let l4 = l3 + e4.len() as int;
        let l5 = l4 + e5.len() as int;
        assert(e.subrange(0, l1) =~= e1);
        lemma_part(data, pos, e, 0, l1);
        lemma_str_round_trip(v.name, data, pos);
        assert(e.subrange(l1, l2) =~= e2);
        lemma_part(data, pos, e, l1, l2);
        lemma_i32_round_trip(v.kind, data, pos + l1);
        assert(e.subrange(l2, l3) =~= e3);
        lemma_part(data, pos, e, l2, l3);
        lemma_i8_round_trip(v.x, data, pos + l2);
        assert(e.subrange(l3, l4) =~= e4);
        lemma_part(data, pos, e, l3, l4);
        lemma_i8_round_trip(v.y, data, pos + l3);
        assert(e.subrange(l4, l5) =~= e5);
        lemma_part(data, pos, e, l4, l5);
        lemma_i8_round_trip(v.z, data, pos + l4);
    }

    fn encode_into(&self, out: &mut Vec<u8>) {
        enc_str(out, &self.name);
        enc_i32(out, self.kind);
        enc_i8(out, self.x);
        enc_i8(out, self.y);
        enc_i8(out, self.z);
        proof {
            assert(out@ =~= old(out)@ + Self::enc(self@));
        }
    }

    fn decode_from(data: &[u8], pos: usize) -> (r: Option<(Self, usize)>) {
        match dec_str(data, pos) {
            None => None,
            Some((name, p1)) => match dec_i32(data, p1) {
                None => None,
                Some((kind, p2)) => match dec_i8(data, p2) {
                    None => None,
                    Some((x, p3)) => match dec_i8(data, p3) {
                        None => None,
                        Some((y, p4)) => match dec_i8(data, p4) {
                            None => None,
                            Some((z, p5)) => Some(
                                (MinimizedBelInfoPOD { name, kind, x, y, z }, p5),
                            ),
                        },
                    },
                },
            },
        }
    }
}

impl Codec for MinimizedWireSegmentPOD {
    open spec fn wf(v: MinimizedWireSegmentPOD) -> bool {
        true
    }

    open spec fn enc(v: MinimizedWireSegmentPOD) -> Seq<u8> {
        spec_enc_i8(v.x) + spec_enc_i8(v.y) + spec_enc_i16(v.index)
    }

    open spec fn dec(data: Seq<u8>, pos: int) -> Option<(MinimizedWireSegmentPOD, int)> {
        match spec_dec_i8(data, pos) {
            None => None,
            Some((x, p1)) => match spec_dec_i8(data, p1) {
                None => None,
                Some((y, p2)) => match spec_dec_i16(data, p2) {
                    None => None,
                    Some((index, p3)) => Some((MinimizedWireSegmentPOD { x, y, index }, p3)),
                },
            },
        }
    }

    proof fn lemma_round_trip(v: MinimizedWireSegmentPOD, data: Seq<u8>, pos: int) {
        let e1 = spec_enc_i8(v.x);
        let e2 = spec_enc_i8(v.y);
        let e3 = spec_enc_i16(v.index);
        let e = Self::enc(v);
        let l1 = e1.len() as int;
        let l2 = l1 + e2.len() as int;
        let l3 = l2 + e3.len() as int;
        assert(e.subrange(0, l1) =~= e1);
        lemma_part(data, pos, e, 0, l1);
        lemma_i8_round_trip(v.x, data, pos);
        assert(e.subrange(l1, l2) =~= e2);
        lemma_part(data, pos, e, l1, l2);
        lemma_i8_round_trip(v.y, data, pos + l1);
        assert(e.subrange(l2, l3) =~= e3);
        lemma_part(data, pos, e, l2, l3);
        lemma_i16_round_trip(v.index, data, pos + l2);
    }

    fn encode_into(&self, out: &mut Vec<u8>) {
        enc_i8(out, self.x);
        enc_i8(out, self.y);
        enc_i16(out, self.index);
        proof {
            assert(out@ =~= old(out)@ + Self::enc(self@));
        }
    }

    fn decode_from(data: &[u8], pos: usize) -> (r: Option<(Self, usize)>) {
        match dec_i8(data, pos) {
            None => None,
            Some((x, p1)) => match dec_i8(data, p1) {
                None => None,
                Some((y, p2)) => match dec_i16(data, p2) {
                    None => None,
                    Some((index, p3)) => Some((MinimizedWireSegmentPOD { x, y, index }, p3)),
                },
            },
        }
    }
}

impl Codec for MinimizedWireInfoPOD {
    open spec fn wf(v: MinimizedWireInfoView) -> bool {
        encode_utf8(v.name).len() <= u64::MAX && wf_seq::<MinimizedWireSegmentPOD>(v.segments)
    }

    open spec fn enc(v: MinimizedWireInfoView) -> Seq<u8> {
        spec_enc_str(v.name) + spec_enc_vec::<MinimizedWireSegmentPOD>(v.segments) + spec_enc_i8(
            v.x,
        ) + spec_enc_i8(v.y)
    }

    open spec fn dec(data: Seq<u8>, pos: int) -> Option<(MinimizedWireInfoView, int)> {
        match spec_dec_str(data, pos) {
            None => None,
            Some((name, p1)) => match spec_dec_vec::<MinimizedWireSegmentPOD>(data, p1) {
                None => None,
                Some((segments, p2)) => match spec_dec_i8(data, p2) {
                    None => None,
                    Some((x, p3)) => match spec_dec_i8(data, p3) {
                        None => None,
                        Some((y, p4)) => Some((MinimizedWireInfoView { name, segments, x, y }, p4)),
                    },
                },
            },
        }
    }

    proof fn lemma_round_trip(v: MinimizedWireInfoView, data: Seq<u8>, pos: int) {
        let e1 = spec_enc_str(v.name);
        let e2 = spec_enc_vec::<MinimizedWireSegmentPOD>(v.segments);
        let e3 = spec_enc_i8(v.x);
        let e4 = spec_enc_i8(v.y);
        let e = Self::enc(v);
        let l1 = e1.len() as int;
        let l2 = l1 + e2.len() as int;
        let l3 = l2 + e3.len() as int;
        let l4 = l3 + e4.len() as int;
        assert(e.subrange(0, l1) =~= e1);
        lemma_part(data, pos, e, 0, l1);
        lemma_str_round_trip(v.name, data, pos);
        assert(e.subrange(l1, l2) =~= e2);
        lemma_part(data, pos, e, l1, l2);
        lemma_vec_round_trip::<MinimizedWireSegmentPOD>(v.segments, data, pos + l1);
        assert(e.subrange(l2, l3) =~= e3);
        lemma_part(data, pos, e, l2, l3);
        lemma_i8_round_trip(v.x, data, pos + l2);
        assert(e.subrange(l3, l4) =~= e4);
        lemma_part(data, pos, e, l3, l4);
        lemma_i8_round_trip(v.y, data, pos + l3);
    }

    fn encode_into(&self, out: &mut Vec<u8>) {
        enc_str(out, &self.name);
        encode_vec_into::<MinimizedWireSegmentPOD>(&self.segments, out);
        enc_i8(out, self.x);
        enc_i8(out, self.y);
        proof {
            assert(out@ =~= old(out)@ + Self::enc(self@));
        }
    }

    fn decode_from(data: &[u8], pos: usize) -> (r: Option<(Self, usize)>) {
        match dec_str(data, pos) {
            None => None,
            Some((name, p1)) => match decode_vec_from::<MinimizedWireSegmentPOD>(data, p1) {
                None => None,
                Some((segments, p2)) => match dec_i8(data, p2) {
                    None => None,
                    Some((x, p3)) => match dec_i8(data, p3) {
                        None => None,
                        Some((y, p4)) => Some((MinimizedWireInfoPOD { name, segments, x, y }, p4)),
                    },
                },
            },
        }
    }
}

impl Codec for MinimizedPipInfoPOD {
    open spec fn wf(v: MinimizedPipInfoPOD) -> bool {
        true
    }

    open spec fn enc(v: MinimizedPipInfoPOD) -> Seq<u8> {
        spec_enc_i32(v.src) + spec_enc_i32(v.dst) + spec_enc_i8(v.x) + spec_enc_i8(v.y)
            + spec_enc_i16(v.src_seg) + spec_enc_i16(v.dst_seg)
    }

    open spec fn dec(data: Seq<u8>, pos: int) -> Option<(MinimizedPipInfoPOD, int)> {
        match spec_dec_i32(data, pos) {
            None => None,
            Some((src, p1)) => match spec_dec_i32(data, p1) {
                None => None,
                Some((dst, p2)) => match spec_dec_i8(data, p2) {
                    None => None,
                    Some((x, p3)) => match spec_dec_i8(data, p3) {
                        None => None,
                        Some((y, p4)) => match spec_dec_i16(data, p4) {
                            None => None,
                            Some((src_seg, p5)) => match spec_dec_i16(data, p5) {
                                None => None,
                                Some((dst_seg, p6)) => Some(
                                    (MinimizedPipInfoPOD { src, dst, x, y, src_seg, dst_seg }, p6),
                                ),
                            },
                        },
                    },
                },
            },
        }
    }

    proof fn lemma_round_trip(v: MinimizedPipInfoPOD, data: Seq<u8>, pos: int) {
        let e1 = spec_enc_i32(v.src);
        let e2 = spec_enc_i32(v.dst);
        let e3 = spec_enc_i8(v.x);
        let e4 = spec_enc_i8(v.y);
        let e5 = spec_enc_i16(v.src_seg);
        let e6 = spec_enc_i16(v.dst_seg);
        let e = Self::enc(v);
        let l1 = e1.len() as int;
        let l2 = l1 + e2.len() as int;
        let l3 = l2 + e3.len() as int;
        let l4 = l3 + e4.len() as int;
        let l5 = l4 + e5.len() as int;
        let l6 = l5 + e6.len() as int;
        assert(e.subrange(0, l1) =~= e1);
        lemma_part(data, pos, e, 0, l1);
        lemma_i32_round_trip(v.src, data, pos);
        assert(e.subrange(l1, l2) =~= e2);
        lemma_part(data, pos, e, l1, l2);
        lemma_i32_round_trip(v.dst, data, pos + l1);
        assert(e.subrange(l2, l3) =~= e3);
        lemma_part(data, pos, e, l2, l3);
        lemma_i8_round_trip(v.x, data, pos + l2);
        assert(e.subrange(l3, l4) =~= e4);
        lemma_part(data, pos, e, l3, l4);
        lemma_i8_round_trip(v.y, data, pos + l3);
        assert(e.subrange(l4, l5) =~= e5);
        lemma_part(data, pos, e, l4, l5);
        lemma_i16_round_trip(v.src_seg, data, pos + l4);
        assert(e.subrange(l5, l6) =~= e6);
        lemma_part(data, pos, e, l5, l6);
        lemma_i16_round_trip(v.dst_seg, data, pos + l5);
    }

    fn encode_into(&self, out: &mut Vec<u8>) {
        enc_i32(out, self.src);
        enc_i32(out, self.dst);
        enc_i8(out, self.x);
        enc_i8(out, self.y);
        enc_i16(out, self.src_seg);
        enc_i16(out, self.dst_seg);
        proof {
            assert(out@ =~= old(out)@ + Self::enc(self@));
        }
    }

    fn decode_from(data: &[u8], pos: usize) -> (r: Option<(Self, usize)>) {
        match dec_i32(data, pos) {
            None => None,
            Some((src, p1)) => match dec_i32(data, p1) {
                None => None,
                Some((dst, p2)) => match dec_i8(data, p2) {
                    None => None,
                    Some((x, p3)) => match dec_i8(data, p3) {
                        None => None,
                        Some((y, p4)) => match dec_i16(data, p4) {
                            None => None,
                            Some((src_seg, p5)) => match dec_i16(data, p5) {
                                None => None,
                                Some((dst_seg, p6)) => Some(
                                    (MinimizedPipInfoPOD { src, dst, x, y, src_seg, dst_seg }, p6),
                                ),
                            },
                        },
                    },
                },
            },
        }
    }
}

/// The reduced flat chip fits the transport format.
pub open spec fn wf_min_chip(c: MinimizedChipInfoView) -> bool {
    wf_seq::<MinimizedBelInfoPOD>(c.bel_data) && wf_seq::<MinimizedWireInfoPOD>(c.wire_data)
        && wf_seq::<MinimizedPipInfoPOD>(c.pip_data) && wf_seq::<u32>(c.tile_grid)
}

/// The canonical byte encoding of a reduced flat chip: its fields in
/// declaration order.
pub open spec fn spec_enc_min_chip(c: MinimizedChipInfoView) -> Seq<u8> {
    spec_enc_i32(c.width) + spec_enc_i32(c.height) + spec_enc_vec::<MinimizedBelInfoPOD>(
        c.bel_data,
    ) + spec_enc_vec::<MinimizedWireInfoPOD>(c.wire_data) + spec_enc_vec::<MinimizedPipInfoPOD>(
        c.pip_data,
    ) + spec_enc_vec::<u32>(c.tile_grid)
}

/// Reads one reduced flat chip at `pos`.
pub open spec fn spec_dec_min_chip(data: Seq<u8>, pos: int) -> Option<(MinimizedChipInfoView, int)> {
    match spec_dec_i32(data, pos) {
        None => None,
        Some((width, p1)) => match spec_dec_i32(data, p1) {
            None => None,
            Some((height, p2)) => match spec_dec_vec::<MinimizedBelInfoPOD>(data, p2) {
                None => None,
                Some((bel_data, p3)) => match spec_dec_vec::<MinimizedWireInfoPOD>(data, p3) {
                    None => None,
                    Some((wire_data, p4)) => match spec_dec_vec::<MinimizedPipInfoPOD>(data, p4) {
                        None => None,
                        Some((pip_data, p5)) => match spec_dec_vec::<u32>(data, p5) {
                            None => None,
                            Some((tile_grid, p6)) => Some(
                                (
                                    MinimizedChipInfoView {
                                        width,
                                        height,
                                        bel_data,
                                        wire_data,
                                        pip_data,
                                        tile_grid,
                                    },
                                    p6,
                                ),
                            ),
                        },
                    },
                },
            },
        },
    }
}

/// Law: decoding the canonical encoding of any reduced flat chip that
/// fits the transport format yields that chip again, exactly.  The
/// deflate layer wrapped around this encoding is inverted by the
/// compressor, as the contracts of `encode` and `decode` state.
#[verifier::rlimit(60)]
#[verifier::spinoff_prover]
pub proof fn lemma_min_chip_round_trip(c: MinimizedChipInfoView)
    requires
        wf_min_chip(c),
    ensures
        spec_dec_min_chip(spec_enc_min_chip(c), 0) == Some(
            (c, spec_enc_min_chip(c).len() as int),
        ),
{
    let e1 = spec_enc_i32(c.width);
    let e2 = spec_enc_i32(c.height);
    let e3 = spec_enc_vec::<MinimizedBelInfoPOD>(c.bel_data);
    let e4 = spec_enc_vec::<MinimizedWireInfoPOD>(c.wire_data);
    let e5 = spec_enc_vec::<MinimizedPipInfoPOD>(c.pip_data);
    let e6 = spec_enc_vec::<u32>(c.tile_grid);
    let e = spec_enc_min_chip(c);
    let l1 = e1.len() as int;
    let l2 = l1 + e2.len() as int;
    let l3 = l2 + e3.len() as int;
    let l4 = l3 + e4.len() as int;
    let l5 = l4 + e5.len() as int;
    let l6 = l5 + e6.len() as int;
    assert(e.subrange(0, e.len() as int) =~= e);
    assert(e.subrange(0, l1) =~= e1);
    lemma_part(e, 0, e, 0, l1);
    lemma_i32_round_trip(c.width, e, 0);
    assert(e.subrange(l1, l2) =~= e2);
    lemma_part(e, 0, e, l1, l2);
    lemma_i32_round_trip(c.height, e, l1);
    assert(e.subrange(l2, l3) =~= e3);
    lemma_part(e, 0, e, l2, l3);
    lemma_vec_round_trip::<MinimizedBelInfoPOD>(c.bel_data, e, l2);
    assert(e.subrange(l3, l4) =~= e4);
    lemma_part(e, 0, e, l3, l4);
    lemma_vec_round_trip::<MinimizedWireInfoPOD>(c.wire_data, e, l3);
    assert(e.subrange(l4, l5) =~= e5);
    lemma_part(e, 0, e, l4, l5);
    lemma_vec_round_trip::<MinimizedPipInfoPOD>(c.pip_data, e, l4);
    assert(e.subrange(l5, l6) =~= e6);
    lemma_part(e, 0, e, l5, l6);
    lemma_vec_round_trip::<u32>(c.tile_grid, e, l5);
}

impl MinimizedChipInfoPOD {
    /// Serializes the reduced flat chip in its canonical encoding and
    /// compresses the result at a fixed level.
    pub fn encode(&self) -> (r: Vec<u8>)
        ensures
            r@ == deflate_of(spec_enc_min_chip(self@), 5),
            inflate_of(r@) == Some(spec_enc_min_chip(self@)),
            wf_min_chip(self@),
    {
        let mut payload: Vec<u8> = Vec::new();
        enc_i32(&mut payload, self.width);
        enc_i32(&mut payload, self.height);
        encode_vec_into::<MinimizedBelInfoPOD>(&self.bel_data, &mut payload);
        encode_vec_into::<MinimizedWireInfoPOD>(&self.wire_data, &mut payload);
        encode_vec_into::<MinimizedPipInfoPOD>(&self.pip_data, &mut payload);
        encode_vec_into::<u32>(&self.tile_grid, &mut payload);
        proof {
            assert(crate::reltypes::views_of(self.tile_grid@) =~= self.tile_grid@);
            assert(Seq::<u8>::empty() + spec_enc_i32(self@.width) =~= spec_enc_i32(self@.width));
            assert(payload@ =~= spec_enc_min_chip(self@));
        }
        compress_bytes(payload.as_slice(), 5)
    }

    /// Decompresses a transport blob and decodes the canonical encoding
    /// back into a reduced flat chip; the exact inverse of `encode`.
    pub fn decode(chipdata: &[u8]) -> (r: Result<Self, CodecError>)
        ensures
            match inflate_of(chipdata@) {
                None => r == Err::<Self, CodecError>(CodecError::DecompressionError),
                Some(payload) => match spec_dec_min_chip(payload, 0) {
                    Some((v, _)) => r is Ok && r->Ok_0@ == v,
                    None => r == Err::<Self, CodecError>(CodecError::DecodeError),
                },
            },
    {
        let payload = match decompress_bytes(chipdata) {
            Some(p) => p,
            None => {
                return Err(CodecError::DecompressionError);
            },
        };
        let data = payload.as_slice();
        match dec_i32(data, 0) {
            None => Err(CodecError::DecodeError),
            Some((width, p1)) => match dec_i32(data, p1) {
                None => Err(CodecError::DecodeError),
                Some((height, p2)) => match decode_vec_from::<MinimizedBelInfoPOD>(data, p2) {
                    None => Err(CodecError::DecodeError),
                    Some((bel_data, p3)) => match decode_vec_from::<MinimizedWireInfoPOD>(
                        data,
                        p3,
                    ) {
                        None => Err(CodecError::DecodeError),
                        Some((wire_data, p4)) => match decode_vec_from::<MinimizedPipInfoPOD>(
                            data,
                            p4,
                        ) {
                            None => Err(CodecError::DecodeError),
                            Some((pip_data, p5)) => match decode_vec_from::<u32>(data, p5) {
                                None => Err(CodecError::DecodeError),
                                Some((tile_grid, _)) => {
                                    proof {
                                        assert(crate::reltypes::views_of(tile_grid@)
                                            =~= tile_grid@);
                                    }
                                    Ok(
                                        MinimizedChipInfoPOD {
                                            width,
                                            height,
                                            bel_data,
                                            wire_data,
                                            pip_data,
                                            tile_grid,
                                        },
                                    )
                                },
                            },
                        },
                    },
                },
            },
        }
    }
}

/// Decodes a reduced flat chip from a compressed transport blob.
pub fn get_min_chipinfo(chipdata: &[u8]) -> (r: Result<MinimizedChipInfoPOD, CodecError>)
    ensures
        match inflate_of(chipdata@) {
            None => r == Err::<MinimizedChipInfoPOD, CodecError>(CodecError::DecompressionError),
            Some(payload) => match spec_dec_min_chip(payload, 0) {
                Some((v, _)) => r is Ok && r->Ok_0@ == v,
                None => r == Err::<MinimizedChipInfoPOD, CodecError>(CodecError::DecodeError),
            },
        },
{
    MinimizedChipInfoPOD::decode(chipdata)
}

} // verus!
