use vstd::prelude::*;
use vstd::utf8::encode_utf8;
use crate::codec::{
    decode_vec_from, encode_vec_into, lemma_part, lemma_vec_round_trip, spec_dec_vec, spec_enc_vec,
    wf_seq, Codec,
};
use crate::compress::{compress_bytes, decompress_bytes, deflate_of, inflate_of};
use crate::constids::{
    lemma_const_id_tag_round_trip, lemma_tile_wire_tag_round_trip, ConstId, GfxTileWireId,
};
use crate::ecp5::minimized::{
    MinimizedBelInfoPOD, MinimizedBelInfoView, MinimizedChipInfoPOD, MinimizedChipInfoView,
    MinimizedLocationPOD, MinimizedLocationTypePOD, MinimizedLocationTypeView, MinimizedPipInfoPOD,
    MinimizedWireInfoPOD, MinimizedWireInfoView,
};
use crate::varint::{
    dec_i16, dec_i32, dec_str, dec_u32, enc_i16, enc_i32, enc_str, enc_u32, lemma_i16_round_trip,
    lemma_i32_round_trip, lemma_str_round_trip, lemma_u32_round_trip, spec_dec_i16, spec_dec_i32,
    spec_dec_str, spec_dec_u32, spec_enc_i16, spec_enc_i32, spec_enc_str, spec_enc_u32,
};
use crate::CodecError;

verus! {

impl Codec for MinimizedBelInfoPOD {
    open spec fn wf(v: MinimizedBelInfoView) -> bool {
        encode_utf8(v.name).len() <= u64::MAX
    }

    open spec fn enc(v: MinimizedBelInfoView) -> Seq<u8> {
        spec_enc_str(v.name) + spec_enc_u32(v.kind.spec_tag()) + spec_enc_i32(v.z)
    }

    open spec fn dec(data: Seq<u8>, pos: int) -> Option<(MinimizedBelInfoView, int)> {
        match spec_dec_str(data, pos) {
            None => None,
            Some((name, p1)) => match spec_dec_u32(data, p1) {
                None => None,
                Some((tag, p2)) => match ConstId::spec_from_tag(tag) {
                    None => None,
                    Some(kind) => match spec_dec_i32(data, p2) {
                        None => None,
                        Some((z, p3)) => Some((MinimizedBelInfoView { name, kind, z }, p3)),
                    },
                },
            },
        }
    }

    proof fn lemma_round_trip(v: MinimizedBelInfoView, data: Seq<u8>, pos: int) {
        let e1 = spec_enc_str(v.name);
        let e2 = spec_enc_u32(v.kind.spec_tag());
        let e3 = spec_enc_i32(v.z);
        let e = Self::enc(v);
        let l1 = e1.len() as int;
        let l2 = e2.len() as int;
        let l3 = e3.len() as int;
        assert(e.subrange(0, l1) =~= e1);
        lemma_part(data, pos, e, 0, l1);
        lemma_str_round_trip(v.name, data, pos);
        assert(e.subrange(l1, l1 + l2) =~= e2);
        lemma_part(data, pos, e, l1, l1 + l2);
        lemma_u32_round_trip(v.kind.spec_tag(), data, pos + l1);
        lemma_const_id_tag_round_trip(v.kind);
        assert(e.subrange(l1 + l2, l1 + l2 + l3) =~= e3);
        lemma_part(data, pos, e, l1 + l2, l1 + l2 + l3);
        lemma_i32_round_trip(v.z, data, pos + l1 + l2);
    }

    fn encode_into(&self, out: &mut Vec<u8>) {
        enc_str(out, &self.name);
        enc_u32(out, self.kind.tag());
        enc_i32(out, self.z);
        proof {
            assert(out@ =~= old(out)@ + Self::enc(self@));
        }
    }

    fn decode_from(data: &[u8], pos: usize) -> (r: Option<(Self, usize)>) {
        match dec_str(data, pos) {
            None => None,
            Some((name, p1)) => match dec_u32(data, p1) {
                None => None,
                Some((tag, p2)) => match ConstId::from_tag(tag) {
                    None => None,
                    Some(kind) => match dec_i32(data, p2) {
                        None => None,
                        Some((z, p3)) => Some((MinimizedBelInfoPOD { name, kind, z }, p3)),
                    },
                },
            },
        }
    }
}

impl Codec for MinimizedWireInfoPOD {
    open spec fn wf(v: MinimizedWireInfoView) -> bool {
        encode_utf8(v.name).len() <= u64::MAX
    }

    open spec fn enc(v: MinimizedWireInfoView) -> Seq<u8> {
        spec_enc_str(v.name) + spec_enc_u32(v.kind.spec_tag()) + spec_enc_u32(
            v.tile_wire.spec_tag(),
        )
    }

    open spec fn dec(data: Seq<u8>, pos: int) -> Option<(MinimizedWireInfoView, int)> {
        match spec_dec_str(data, pos) {
            None => None,
            Some((name, p1)) => match spec_dec_u32(data, p1) {
                None => None,
                Some((tag, p2)) => match ConstId::spec_from_tag(tag) {
                    None => None,
                    Some(kind) => match spec_dec_u32(data, p2) {
                        None => None,
                        Some((wtag, p3)) => match GfxTileWireId::spec_from_tag(wtag) {
                            None => None,
                            Some(tile_wire) => Some(
                                (MinimizedWireInfoView { name, kind, tile_wire }, p3),
                            ),
                        },
                    },
                },
            },
        }
    }

    proof fn lemma_round_trip(v: MinimizedWireInfoView, data: Seq<u8>, pos: int) {
        let e1 = spec_enc_str(v.name);
        let e2 = spec_enc_u32(v.kind.spec_tag());
        let e3 = spec_enc_u32(v.tile_wire.spec_tag());
        let e = Self::enc(v);
        let l1 = e1.len() as int;
        let l2 = e2.len() as int;
        let l3 = e3.len() as int;
        assert(e.subrange(0, l1) =~= e1);
        lemma_part(data, pos, e, 0, l1);
        lemma_str_round_trip(v.name, data, pos);
        assert(e.subrange(l1, l1 + l2) =~= e2);
        lemma_part(data, pos, e, l1, l1 + l2);
        lemma_u32_round_trip(v.kind.spec_tag(), data, pos + l1);
        lemma_const_id_tag_round_trip(v.kind);
        assert(e.subrange(l1 + l2, l1 + l2 + l3) =~= e3);
        lemma_part(data, pos, e, l1 + l2, l1 + l2 + l3);
        lemma_u32_round_trip(v.tile_wire.spec_tag(), data, pos + l1 + l2);
        lemma_tile_wire_tag_round_trip(v.tile_wire);
    }

    fn encode_into(&self, out: &mut Vec<u8>) {
        enc_str(out, &self.name);
        enc_u32(out, self.kind.tag());
        enc_u32(out, self.tile_wire.tag());
        proof {
            assert(out@ =~= old(out)@ + Self::enc(self@));
        }
    }

    fn decode_from(data: &[u8], pos: usize) -> (r: Option<(Self, usize)>) {
        match dec_str(data, pos) {
            None => None,
            Some((name, p1)) => match dec_u32(data, p1) {
                None => None,
                Some((tag, p2)) => match ConstId::from_tag(tag) {
                    None => None,
                    Some(kind) => match dec_u32(data, p2) {
                        None => None,
                        Some((wtag, p3)) => match GfxTileWireId::from_tag(wtag) {
                            None => None,
                            Some(tile_wire) => Some(
                                (MinimizedWireInfoPOD { name, kind, tile_wire }, p3),
                            ),
                        },
                    },
                },
            },
        }
    }
}

impl Codec for MinimizedPipInfoPOD {
    open spec fn wf(v: MinimizedPipInfoPOD) -> bool {
        true
    }

    open spec fn enc(v: MinimizedPipInfoPOD) -> Seq<u8> {
        spec_enc_i16(v.rel_src_loc.x) + spec_enc_i16(v.rel_src_loc.y) + spec_enc_i16(
            v.rel_dst_loc.x,
        ) + spec_enc_i16(v.rel_dst_loc.y) + spec_enc_i16(v.src_idx) + spec_enc_i16(v.dst_idx)
    }

    open spec fn dec(data: Seq<u8>, pos: int) -> Option<(MinimizedPipInfoPOD, int)> {
        match spec_dec_i16(data, pos) {
            None => None,
            Some((sx, p1)) => match spec_dec_i16(data, p1) {
                None => None,
                Some((sy, p2)) => match spec_dec_i16(data, p2) {
                    None => None,
                    Some((dx, p3)) => match spec_dec_i16(data, p3) {
                        None => None,
                        Some((dy, p4)) => match spec_dec_i16(data, p4) {
                            None => None,
                            Some((src_idx, p5)) => match spec_dec_i16(data, p5) {
                                None => None,
                                Some((dst_idx, p6)) => Some(
                                    (
                                        MinimizedPipInfoPOD {
                                            rel_src_loc: MinimizedLocationPOD { x: sx, y: sy },
                                            rel_dst_loc: MinimizedLocationPOD { x: dx, y: dy },
                                            src_idx,
                                            dst_idx,
                                        },
                                        p6,
                                    ),
                                ),
                            },
                        },
                    },
                },
            },
        }
    }

    proof fn lemma_round_trip(v: MinimizedPipInfoPOD, data: Seq<u8>, pos: int) {
        let e1 = spec_enc_i16(v.rel_src_loc.x);
        let e2 = spec_enc_i16(v.rel_src_loc.y);
        let e3 = spec_enc_i16(v.rel_dst_loc.x);
        let e4 = spec_enc_i16(v.rel_dst_loc.y);
        let e5 = spec_enc_i16(v.src_idx);
        let e6 = spec_enc_i16(v.dst_idx);
        let e = Self::enc(v);
        let l1 = e1.len() as int;
        let l2 = l1 + e2.len() as int;
        let l3 = l2 + e3.len() as int;
        let l4 = l3 + e4.len() as int;
        let l5 = l4 + e5.len() as int;
        let l6 = l5 + e6.len() as int;
        assert(e.subrange(0, l1) =~= e1);
        lemma_part(data, pos, e, 0, l1);
        lemma_i16_round_trip(v.rel_src_loc.x, data, pos);
        assert(e.subrange(l1, l2) =~= e2);
        lemma_part(data, pos, e, l1, l2);
        lemma_i16_round_trip(v.rel_src_loc.y, data, pos + l1);
        assert(e.subrange(l2, l3) =~= e3);
        lemma_part(data, pos, e, l2, l3);
        lemma_i16_round_trip(v.rel_dst_loc.x, data, pos + l2);
        assert(e.subrange(l3, l4) =~= e4);
        lemma_part(data, pos, e, l3, l4);
        lemma_i16_round_trip(v.rel_dst_loc.y, data, pos + l3);
        assert(e.subrange(l4, l5) =~= e5);
        lemma_part(data, pos, e, l4, l5);
        lemma_i16_round_trip(v.src_idx, data, pos + l4);
        assert(e.subrange(l5, l6) =~= e6);
        lemma_part(data, pos, e, l5, l6);
        lemma_i16_round_trip(v.dst_idx, data, pos + l5);
    }

    fn encode_into(&self, out: &mut Vec<u8>) {
        enc_i16(out, self.rel_src_loc.x);
        enc_i16(out, self.rel_src_loc.y);
        enc_i16(out, self.rel_dst_loc.x);
        enc_i16(out, self.rel_dst_loc.y);
        enc_i16(out, self.src_idx);
        enc_i16(out, self.dst_idx);
        proof {
            assert(out@ =~= old(out)@ + Self::enc(self@));
        }
    }

    fn decode_from(data: &[u8], pos: usize) -> (r: Option<(Self, usize)>) {
        match dec_i16(data, pos) {
            None => None,
            Some((sx, p1)) => match dec_i16(data, p1) {
                None => None,
                Some((sy, p2)) => match dec_i16(data, p2) {
                    None => None,
                    Some((dx, p3)) => match dec_i16(data, p3) {
                        None => None,
                        Some((dy, p4)) => match dec_i16(data, p4) {
                            None => None,
                            Some((src_idx, p5)) => match dec_i16(data, p5) {
                                None => None,
                                Some((dst_idx, p6)) => Some(
                                    (
                                        MinimizedPipInfoPOD {
                                            rel_src_loc: MinimizedLocationPOD { x: sx, y: sy },
                                            rel_dst_loc: MinimizedLocationPOD { x: dx, y: dy },
                                            src_idx,
                                            dst_idx,
                                        },
                                        p6,
                                    ),
                                ),
                            },
                        },
                    },
                },
            },
        }
    }
}

impl Codec for MinimizedLocationTypePOD {
    open spec fn wf(v: MinimizedLocationTypeView) -> bool {
        wf_seq::<MinimizedBelInfoPOD>(v.bel_data) && wf_seq::<MinimizedWireInfoPOD>(v.wire_data)
            && wf_seq::<MinimizedPipInfoPOD>(v.pip_data)
    }

    open spec fn enc(v: MinimizedLocationTypeView) -> Seq<u8> {
        spec_enc_vec::<MinimizedBelInfoPOD>(v.bel_data) + spec_enc_vec::<MinimizedWireInfoPOD>(
            v.wire_data,
        ) + spec_enc_vec::<MinimizedPipInfoPOD>(v.pip_data)
    }

    open spec fn dec(data: Seq<u8>, pos: int) -> Option<(MinimizedLocationTypeView, int)> {
        match spec_dec_vec::<MinimizedBelInfoPOD>(data, pos) {
            None => None,
            Some((bel_data, p1)) => match spec_dec_vec::<MinimizedWireInfoPOD>(data, p1) {
                None => None,
                Some((wire_data, p2)) => match spec_dec_vec::<MinimizedPipInfoPOD>(data, p2) {
                    None => None,
                    Some((pip_data, p3)) => Some(
                        (MinimizedLocationTypeView { bel_data, wire_data, pip_data }, p3),
                    ),
                },
            },
        }
    }

    proof fn lemma_round_trip(v: MinimizedLocationTypeView, data: Seq<u8>, pos: int) {
        let e1 = spec_enc_vec::<MinimizedBelInfoPOD>(v.bel_data);
        let e2 = spec_enc_vec::<MinimizedWireInfoPOD>(v.wire_data);
        let e3 = spec_enc_vec::<MinimizedPipInfoPOD>(v.pip_data);
        let e = Self::enc(v);
        let l1 = e1.len() as int;
        let l2 = l1 + e2.len() as int;
        let l3 = l2 + e3.len() as int;
        assert(e.subrange(0, l1) =~= e1);
        lemma_part(data, pos, e, 0, l1);
        lemma_vec_round_trip::<MinimizedBelInfoPOD>(v.bel_data, data, pos);
        assert(e.subrange(l1, l2) =~= e2);
        lemma_part(data, pos, e, l1, l2);
        lemma_vec_round_trip::<MinimizedWireInfoPOD>(v.wire_data, data, pos + l1);
        assert(e.subrange(l2, l3) =~= e3);
        lemma_part(data, pos, e, l2, l3);
        lemma_vec_round_trip::<MinimizedPipInfoPOD>(v.pip_data, data, pos + l2);
    }

    fn encode_into(&self, out: &mut Vec<u8>) {
        encode_vec_into::<MinimizedBelInfoPOD>(&self.bel_data, out);
        encode_vec_into::<MinimizedWireInfoPOD>(&self.wire_data, out);
        encode_vec_into::<MinimizedPipInfoPOD>(&self.pip_data, out);
        proof {
            assert(out@ =~= old(out)@ + Self::enc(self@));
        }
    }

    fn decode_from(data: &[u8], pos: usize) -> (r: Option<(Self, usize)>) {
        match decode_vec_from::<MinimizedBelInfoPOD>(data, pos) {
            None => None,
            Some((bel_data, p1)) => match decode_vec_from::<MinimizedWireInfoPOD>(data, p1) {
                None => None,
                Some((wire_data, p2)) => match decode_vec_from::<MinimizedPipInfoPOD>(data, p2) {
                    None => None,
                    Some((pip_data, p3)) => Some(
                        (MinimizedLocationTypePOD { bel_data, wire_data, pip_data }, p3),
                    ),
                },
            },
        }
    }
}

/// The reduced chip fits the transport format.
pub open spec fn wf_min_chip(c: MinimizedChipInfoView) -> bool {
    wf_seq::<MinimizedLocationTypePOD>(c.locations) && wf_seq::<i32>(c.location_type)
}

/// The canonical byte encoding of a reduced chip: its fields in
/// declaration order.
pub open spec fn spec_enc_min_chip(c: MinimizedChipInfoView) -> Seq<u8> {
    spec_enc_i32(c.width) + spec_enc_i32(c.height) + spec_enc_i32(c.num_tiles) + spec_enc_vec::<
        MinimizedLocationTypePOD,
    >(c.locations) + spec_enc_vec::<i32>(c.location_type)
}

/// Reads one reduced chip at `pos`.
pub open spec fn spec_dec_min_chip(data: Seq<u8>, pos: int) -> Option<(MinimizedChipInfoView, int)> {
    match spec_dec_i32(data, pos) {
        None => None,
        Some((width, p1)) => match spec_dec_i32(data, p1) {
            None => None,
            Some((height, p2)) => match spec_dec_i32(data, p2) {
                None => None,
                Some((num_tiles, p3)) => match spec_dec_vec::<MinimizedLocationTypePOD>(
                    data,
                    p3,
                ) {
                    None => None,
                    Some((locations, p4)) => match spec_dec_vec::<i32>(data, p4) {
                        None => None,
                        Some((location_type, p5)) => Some(
                            (
                                MinimizedChipInfoView {
                                    width,
                                    height,
                                    num_tiles,
                                    locations,
                                    location_type,
                                },
                                p5,
                            ),
                        ),
                    },
                },
            },
        },
    }
}

/// Law: decoding the canonical encoding of any reduced chip that fits
/// the transport format yields that chip again, exactly.  The deflate
/// layer wrapped around this encoding is inverted by the compressor, as
/// the contracts of `encode` and `decode` state.
pub proof fn lemma_min_chip_round_trip(c: MinimizedChipInfoView)
    requires
        wf_min_chip(c),
    ensures
        spec_dec_min_chip(spec_enc_min_chip(c), 0) == Some(
            (c, spec_enc_min_chip(c).len() as int),
        ),
{
    let e1 = spec_enc_i32(c.width);
    let e2 = spec_enc_i32(c.height);
    let e3 = spec_enc_i32(c.num_tiles);
    let e4 = spec_enc_vec::<MinimizedLocationTypePOD>(c.locations);
    let e5 = spec_enc_vec::<i32>(c.location_type);
    let e = spec_enc_min_chip(c);
    let l1 = e1.len() as int;
    let l2 = l1 + e2.len() as int;
    let l3 = l2 + e3.len() as int;
    let l4 = l3 + e4.len() as int;
    let l5 = l4 + e5.len() as int;
    assert(e.subrange(0, e.len() as int) =~= e);
    assert(e.subrange(0, l1) =~= e1);
    lemma_part(e, 0, e, 0, l1);
    lemma_i32_round_trip(c.width, e, 0);
    assert(e.subrange(l1, l2) =~= e2);
    lemma_part(e, 0, e, l1, l2);
    lemma_i32_round_trip(c.height, e, l1);
    assert(e.subrange(l2, l3) =~= e3);
    lemma_part(e, 0, e, l2, l3);
    lemma_i32_round_trip(c.num_tiles, e, l2);
    assert(e.subrange(l3, l4) =~= e4);
    lemma_part(e, 0, e, l3, l4);
    lemma_vec_round_trip::<MinimizedLocationTypePOD>(c.locations, e, l3);
    assert(e.subrange(l4, l5) =~= e5);
    lemma_part(e, 0, e, l4, l5);
    lemma_vec_round_trip::<i32>(c.location_type, e, l4);
}

impl MinimizedChipInfoPOD {
    /// Serializes the reduced chip in its canonical encoding and
    /// compresses the result at a fixed level.
    pub fn encode(&self) -> (r: Vec<u8>)
        ensures
            r@ == deflate_of(spec_enc_min_chip(self@), 5),
            inflate_of(r@) == Some(spec_enc_min_chip(self@)),
            wf_min_chip(self@),
    {
        let mut payload: Vec<u8> = Vec::new();
        enc_i32(&mut payload, self.width);
        enc_i32(&mut payload, self.height);
        enc_i32(&mut payload, self.num_tiles);
        encode_vec_into::<MinimizedLocationTypePOD>(&self.locations, &mut payload);
        encode_vec_into::<i32>(&self.location_type, &mut payload);
        proof {
            assert(crate::reltypes::views_of(self.location_type@) =~= self.location_type@);
            assert(Seq::<u8>::empty() + spec_enc_i32(self@.width) =~= spec_enc_i32(self@.width));
            assert(payload@ =~= spec_enc_min_chip(self@));
        }
        compress_bytes(payload.as_slice(), 5)
    }

    /// Decompresses a transport blob and decodes the canonical encoding
    /// back into a reduced chip; the exact inverse of `encode`.
    pub fn decode(chipdata: &[u8]) -> (r: Result<Self, CodecError>)
        ensures
            match inflate_of(chipdata@) {
                None => r == Err::<Self, CodecError>(CodecError::DecompressionError),
                Some(payload) => match spec_dec_min_chip(payload, 0) {
                    Some((v, _)) => r is Ok && r->Ok_0@ == v,
                    None => r == Err::<Self, CodecError>(CodecError::DecodeError),
                },
            },
    {
        let payload = match decompress_bytes(chipdata) {
            Some(p) => p,
            None => {
                return Err(CodecError::DecompressionError);
            },
        };
        let data = payload.as_slice();
        match dec_i32(data, 0) {
            None => Err(CodecError::DecodeError),
            Some((width, p1)) => match dec_i32(data, p1) {
                None => Err(CodecError::DecodeError),
                Some((height, p2)) => match dec_i32(data, p2) {
                    None => Err(CodecError::DecodeError),
                    Some((num_tiles, p3)) => match decode_vec_from::<MinimizedLocationTypePOD>(
                        data,
                        p3,
                    ) {
                        None => Err(CodecError::DecodeError),
                        Some((locations, p4)) => match decode_vec_from::<i32>(data, p4) {
                            None => Err(CodecError::DecodeError),
                            Some((location_type, _)) => {
                                proof {
                                    assert(crate::reltypes::views_of(location_type@)
                                        =~= location_type@);
                                }
                                Ok(
                                    MinimizedChipInfoPOD {
                                        width,
                                        height,
                                        num_tiles,
                                        locations,
                                        location_type,
                                    },
                                )
                            },
                        },
                    },
                },
            },
        }
    }
}

/// Decodes a reduced tile-template chip from a compressed transport
/// blob.
pub fn get_min_chipinfo(chipdata: &[u8]) -> (r: Result<MinimizedChipInfoPOD, CodecError>)
    ensures
        match inflate_of(chipdata@) {
            None => r == Err::<MinimizedChipInfoPOD, CodecError>(CodecError::DecompressionError),
            Some(payload) => match spec_dec_min_chip(payload, 0) {
                Some((v, _)) => r is Ok && r->Ok_0@ == v,
                None => r == Err::<MinimizedChipInfoPOD, CodecError>(CodecError::DecodeError),
            },
        },
{
    MinimizedChipInfoPOD::decode(chipdata)
}

} // verus!
