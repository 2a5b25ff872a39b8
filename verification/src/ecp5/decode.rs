use vstd::prelude::*;
use crate::constids::{ConstId, GfxTileWireId};
use crate::cursor::{in_range, lemma_prefix_u16_le, lemma_prefix_u32_le, spec_u16_be_at, spec_u16_le_at, spec_u32_le_at, Cursor};
use crate::reltypes::{
    lemma_relslice_truncation_fails_closed, lemma_relstring_fails_truncated, read_reli32arr,
    read_relslice, read_relstring, read_relstringarr, spec_relslice, spec_relstring, POD,
};
use crate::DecodeError;
use crate::ecp5::types::{
    BelInfoPOD, BelInfoView, BelPortPOD, BelWirePOD, CellPropDelayPOD, CellSetupHoldPOD,
    CellTimingPOD, CellTimingView, ChipInfoPOD, ChipInfoView, GlobalInfoPOD, LocationPOD,
    LocationTypePOD, LocationTypeView, PIOInfoPOD, PIOInfoView, PackageInfoPOD, PackageInfoView,
    PackagePinPOD, PackagePinView, PipDelayPOD, PipInfoPOD, PipLocatorPOD, SpeedGradePOD,
    SpeedGradeView, TileInfoPOD, TileInfoView, TileNamePOD, TileNameView, WireInfoPOD,
    WireInfoView,
};

verus! {

impl POD for LocationPOD {
    open spec fn header_size() -> int {
        4
    }

    open spec fn spec_new(data: Seq<u8>, pos: int) -> Result<LocationPOD, DecodeError> {
        if !in_range(data, pos, 4) {
            Err(DecodeError::Truncated)
        } else {
            Ok(LocationPOD {
                x: spec_u16_le_at(data, pos) as i16,
                y: spec_u16_le_at(data, pos + 2) as i16,
            })
        }
    }

    fn new(cur: &mut Cursor) -> (r: Result<LocationPOD, DecodeError>) {
        let x = cur.read_i16_le()?;
        let y = cur.read_i16_le()?;
        Ok(LocationPOD { x, y })
    }
    proof fn lemma_truncation_fails_closed(data: Seq<u8>, pos: int, k: int) {
    }
}

impl POD for BelWirePOD {
    open spec fn header_size() -> int {
        16
    }

    open spec fn spec_new(data: Seq<u8>, pos: int) -> Result<BelWirePOD, DecodeError> {
        match LocationPOD::spec_new(data, pos) {
            Err(e) => Err(e),
            Ok(rel_wire_loc) => if !in_range(data, pos + 4, 12) {
                Err(DecodeError::Truncated)
            } else {
                Ok(BelWirePOD {
                    rel_wire_loc,
                    wire_index: spec_u32_le_at(data, pos + 4) as i32,
                    port: spec_u32_le_at(data, pos + 8) as i32,
                    kind: spec_u32_le_at(data, pos + 12) as i32,
                })
            },
        }
    }

    fn new(cur: &mut Cursor) -> (r: Result<BelWirePOD, DecodeError>) {
        let rel_wire_loc = LocationPOD::new(cur)?;
        let wire_index = cur.read_i32_le()?;
        let port = cur.read_i32_le()?;
        let kind = cur.read_i32_le()?;
        Ok(BelWirePOD { rel_wire_loc, wire_index, port, kind })
    }
    proof fn lemma_truncation_fails_closed(data: Seq<u8>, pos: int, k: int) {
    }
}

impl POD for BelInfoPOD {
    open spec fn header_size() -> int {
        20
    }

    open spec fn spec_new(data: Seq<u8>, pos: int) -> Result<BelInfoView, DecodeError> {
        match spec_relstring(data, pos) {
            Err(e) => Err(e),
            Ok(name) => if !in_range(data, pos + 4, 4) {
                Err(DecodeError::Truncated)
            } else {
                let tag = spec_u32_le_at(data, pos + 4);
                match ConstId::spec_from_tag(tag) {
                    None => Err(DecodeError::UnknownTag(tag)),
                    Some(kind) => if !in_range(data, pos + 8, 4) {
                        Err(DecodeError::Truncated)
                    } else {
                        match spec_relslice::<BelWirePOD>(data, pos + 12) {
                            Err(e) => Err(e),
                            Ok(bel_wires) => Ok(BelInfoView {
                                name,
                                kind,
                                z: spec_u32_le_at(data, pos + 8) as i32,
                                bel_wires,
                            }),
                        }
                    },
                }
            },
        }
    }

    fn new(cur: &mut Cursor) -> (r: Result<BelInfoPOD, DecodeError>) {
        let name = read_relstring(cur)?;
        let tag = cur.read_u32_le()?;
        let kind = match ConstId::from_tag(tag) {
            Some(k) => k,
            None => {
                return Err(DecodeError::UnknownTag(tag));
            },
        };
        let z = cur.read_i32_le()?;
        let bel_wires = read_relslice::<BelWirePOD>(cur)?;
        Ok(BelInfoPOD { name, kind, z, bel_wires })
    }
    proof fn lemma_truncation_fails_closed(data: Seq<u8>, pos: int, k: int) {
        let pre = data.subrange(0, k);
        lemma_relstring_fails_truncated(pre, pos);
        if spec_relstring(pre, pos) is Ok {
            if in_range(pre, pos + 4, 4) {
                lemma_prefix_u32_le(data, k, pos + 4);
                if in_range(pre, pos + 8, 4) {
                    lemma_relslice_truncation_fails_closed::<BelWirePOD>(data, pos + 12, k);
                }
            }
        }
    }
}

impl POD for BelPortPOD {
    open spec fn header_size() -> int {
        12
    }

    open spec fn spec_new(data: Seq<u8>, pos: int) -> Result<BelPortPOD, DecodeError> {
        match LocationPOD::spec_new(data, pos) {
            Err(e) => Err(e),
            Ok(rel_bel_loc) => if !in_range(data, pos + 4, 8) {
                Err(DecodeError::Truncated)
            } else {
                Ok(BelPortPOD {
                    rel_bel_loc,
                    bel_index: spec_u32_le_at(data, pos + 4) as i32,
                    port: spec_u32_le_at(data, pos + 8) as i32,
                })
            },
        }
    }

    fn new(cur: &mut Cursor) -> (r: Result<BelPortPOD, DecodeError>) {
        let rel_bel_loc = LocationPOD::new(cur)?;
        let bel_index = cur.read_i32_le()?;
        let port = cur.read_i32_le()?;
        Ok(BelPortPOD { rel_bel_loc, bel_index, port })
    }
    proof fn lemma_truncation_fails_closed(data: Seq<u8>, pos: int, k: int) {
    }
}

impl POD for PipInfoPOD {
    open spec fn header_size() -> int {
        20
    }

    open spec fn spec_new(data: Seq<u8>, pos: int) -> Result<PipInfoPOD, DecodeError> {
        match LocationPOD::spec_new(data, pos) {
            Err(e) => Err(e),
            Ok(rel_src_loc) => match LocationPOD::spec_new(data, pos + 4) {
                Err(e) => Err(e),
                Ok(rel_dst_loc) => if !in_range(data, pos + 8, 12) {
                    Err(DecodeError::Truncated)
                } else {
                    Ok(PipInfoPOD {
                        rel_src_loc,
                        rel_dst_loc,
                        src_idx: spec_u16_le_at(data, pos + 8) as i16,
                        dst_idx: spec_u16_le_at(data, pos + 10) as i16,
                        timing_class: spec_u16_le_at(data, pos + 12) as i16,
                        tile_type: data[pos + 14] as i8,
                        pip_type: data[pos + 15] as i8,
                        lutperm_flags: spec_u16_be_at(data, pos + 16) as i16,
                        padding: spec_u16_be_at(data, pos + 18) as i16,
                    })
                },
            },
        }
    }

    fn new(cur: &mut Cursor) -> (r: Result<PipInfoPOD, DecodeError>) {
        let rel_src_loc = LocationPOD::new(cur)?;
        let rel_dst_loc = LocationPOD::new(cur)?;
        let src_idx = cur.read_i16_le()?;
        let dst_idx = cur.read_i16_le()?;
        let timing_class = cur.read_i16_le()?;
        let tile_type = cur.read_i8()?;
        let pip_type = cur.read_i8()?;
        let lutperm_flags = cur.read_i16_be()?;
        let padding = cur.read_i16_be()?;
        Ok(PipInfoPOD {
            rel_src_loc,
            rel_dst_loc,
            src_idx,
            dst_idx,
            timing_class,
            tile_type,
            pip_type,
            lutperm_flags,
            padding,
        })
    }
    proof fn lemma_truncation_fails_closed(data: Seq<u8>, pos: int, k: int) {
    }
}

impl POD for PipLocatorPOD {
    open spec fn header_size() -> int {
        8
    }

    open spec fn spec_new(data: Seq<u8>, pos: int) -> Result<PipLocatorPOD, DecodeError> {
        match LocationPOD::spec_new(data, pos) {
            Err(e) => Err(e),
            Ok(rel_loc) => if !in_range(data, pos + 4, 4) {
                Err(DecodeError::Truncated)
            } else {
                Ok(PipLocatorPOD { rel_loc, index: spec_u32_le_at(data, pos + 4) as i32 })
            },
        }
    }

    fn new(cur: &mut Cursor) -> (r: Result<PipLocatorPOD, DecodeError>) {
        let rel_loc = LocationPOD::new(cur)?;
        let index = cur.read_i32_le()?;
        Ok(PipLocatorPOD { rel_loc, index })
    }
    proof fn lemma_truncation_fails_closed(data: Seq<u8>, pos: int, k: int) {
    }
}

impl POD for WireInfoPOD {
    open spec fn header_size() -> int {
        32
    }

    open spec fn spec_new(data: Seq<u8>, pos: int) -> Result<WireInfoView, DecodeError> {
        match spec_relstring(data, pos) {
            Err(e) => Err(e),
            Ok(name) => if !in_range(data, pos + 4, 2) {
                Err(DecodeError::Truncated)
            } else {
                let tag = (spec_u16_le_at(data, pos + 4) as i16) as u32;
                match ConstId::spec_from_tag(tag) {
                    None => Err(DecodeError::UnknownTag(tag)),
                    Some(kind) => if !in_range(data, pos + 6, 2) {
                        Err(DecodeError::Truncated)
                    } else {
                        let wtag = (spec_u16_le_at(data, pos + 6) as i16) as u32;
                        match GfxTileWireId::spec_from_tag(wtag) {
                            None => Err(DecodeError::UnknownTag(wtag)),
                            Some(tile_wire) => match spec_relslice::<PipLocatorPOD>(data, pos + 8) {
                                Err(e) => Err(e),
                                Ok(pips_uphill) => match spec_relslice::<PipLocatorPOD>(
                                    data,
                                    pos + 16,
                                ) {
                                    Err(e) => Err(e),
                                    Ok(pips_downhill) => match spec_relslice::<BelPortPOD>(
                                        data,
                                        pos + 24,
                                    ) {
                                        Err(e) => Err(e),
                                        Ok(bel_pins) => Ok(WireInfoView {
                                            name,
                                            kind,
                                            tile_wire,
                                            pips_uphill,
                                            pips_downhill,
                                            bel_pins,
                                        }),
                                    },
                                },
                            },
                        }
                    },
                }
            },
        }
    }

    fn new(cur: &mut Cursor) -> (r: Result<WireInfoPOD, DecodeError>) {
        let name = read_relstring(cur)?;
        let ktag = cur.read_i16_le()?;
        let kind = match ConstId::from_tag(ktag as u32) {
            Some(k) => k,
            None => {
                return Err(DecodeError::UnknownTag(ktag as u32));
            },
        };
        let wtag = cur.read_i16_le()?;
        let tile_wire = match GfxTileWireId::from_tag(wtag as u32) {
            Some(w) => w,
            None => {
                return Err(DecodeError::UnknownTag(wtag as u32));
            },
        };
        let pips_uphill = read_relslice::<PipLocatorPOD>(cur)?;
        let pips_downhill = read_relslice::<PipLocatorPOD>(cur)?;
        let bel_pins = read_relslice::<BelPortPOD>(cur)?;
        Ok(WireInfoPOD { name, kind, tile_wire, pips_uphill, pips_downhill, bel_pins })
    }
    proof fn lemma_truncation_fails_closed(data: Seq<u8>, pos: int, k: int) {
        let pre = data.subrange(0, k);
        lemma_relstring_fails_truncated(pre, pos);
        if spec_relstring(pre, pos) is Ok {
            if in_range(pre, pos + 4, 2) {
                lemma_prefix_u16_le(data, k, pos + 4);
                if in_range(pre, pos + 6, 2) {
                    lemma_prefix_u16_le(data, k, pos + 6);
                    lemma_relslice_truncation_fails_closed::<PipLocatorPOD>(data, pos + 8, k);
                    if spec_relslice::<PipLocatorPOD>(pre, pos + 8) is Ok {
                        lemma_relslice_truncation_fails_closed::<PipLocatorPOD>(data, pos + 16, k);
                        if spec_relslice::<PipLocatorPOD>(pre, pos + 16) is Ok {
                            lemma_relslice_truncation_fails_closed::<BelPortPOD>(data, pos + 24, k);
                        }
                    }
                }
            }
        }
    }
}

impl POD for LocationTypePOD {
    open spec fn header_size() -> int {
        24
    }

    open spec fn spec_new(data: Seq<u8>, pos: int) -> Result<LocationTypeView, DecodeError> {
        match spec_relslice::<BelInfoPOD>(data, pos) {
            Err(e) => Err(e),
            Ok(bel_data) => match spec_relslice::<WireInfoPOD>(data, pos + 8) {
                Err(e) => Err(e),
                Ok(wire_data) => match spec_relslice::<PipInfoPOD>(data, pos + 16) {
                    Err(e) => Err(e),
                    Ok(pip_data) => Ok(LocationTypeView { bel_data, wire_data, pip_data }),
                },
            },
        }
    }

    fn new(cur: &mut Cursor) -> (r: Result<LocationTypePOD, DecodeError>) {
        let bel_data = read_relslice::<BelInfoPOD>(cur)?;
        let wire_data = read_relslice::<WireInfoPOD>(cur)?;
        let pip_data = read_relslice::<PipInfoPOD>(cur)?;
        Ok(LocationTypePOD { bel_data, wire_data, pip_data })
    }
    proof fn lemma_truncation_fails_closed(data: Seq<u8>, pos: int, k: int) {
        let pre = data.subrange(0, k);
        lemma_relslice_truncation_fails_closed::<BelInfoPOD>(data, pos, k);
        if spec_relslice::<BelInfoPOD>(pre, pos) is Ok {
            lemma_relslice_truncation_fails_closed::<WireInfoPOD>(data, pos + 8, k);
            if spec_relslice::<WireInfoPOD>(pre, pos + 8) is Ok {
                lemma_relslice_truncation_fails_closed::<PipInfoPOD>(data, pos + 16, k);
            }
        }
    }
}

impl POD for PIOInfoPOD {
    open spec fn header_size() -> int {
        16
    }

    open spec fn spec_new(data: Seq<u8>, pos: int) -> Result<PIOInfoView, DecodeError> {
        match LocationPOD::spec_new(data, pos) {
            Err(e) => Err(e),
            Ok(abs_loc) => if !in_range(data, pos + 4, 4) {
                Err(DecodeError::Truncated)
            } else {
                match spec_relstring(data, pos + 8) {
                    Err(e) => Err(e),
                    Ok(function_name) => if !in_range(data, pos + 12, 4) {
                        Err(DecodeError::Truncated)
                    } else {
                        Ok(PIOInfoView {
                            abs_loc,
                            bel_index: spec_u32_le_at(data, pos + 4) as i32,
                            function_name,
                            bank: spec_u16_le_at(data, pos + 12) as i16,
                            dqsgroup: spec_u16_le_at(data, pos + 14) as i16,
                        })
                    },
                }
            },
        }
    }

    fn new(cur: &mut Cursor) -> (r: Result<PIOInfoPOD, DecodeError>) {
        let abs_loc = LocationPOD::new(cur)?;
        let bel_index = cur.read_i32_le()?;
        let function_name = read_relstring(cur)?;
        let bank = cur.read_i16_le()?;
        let dqsgroup = cur.read_i16_le()?;
        Ok(PIOInfoPOD { abs_loc, bel_index, function_name, bank, dqsgroup })
    }
    proof fn lemma_truncation_fails_closed(data: Seq<u8>, pos: int, k: int) {
        lemma_relstring_fails_truncated(data.subrange(0, k), pos + 8);
    }
}

impl POD for PackagePinPOD {
    open spec fn header_size() -> int {
        12
    }

    open spec fn spec_new(data: Seq<u8>, pos: int) -> Result<PackagePinView, DecodeError> {
        match spec_relstring(data, pos) {
            Err(e) => Err(e),
            Ok(name) => match LocationPOD::spec_new(data, pos + 4) {
                Err(e) => Err(e),
                Ok(abs_loc) => if !in_range(data, pos + 8, 4) {
                    Err(DecodeError::Truncated)
                } else {
                    Ok(PackagePinView {
                        name,
                        abs_loc,
                        bel_index: spec_u32_le_at(data, pos + 8) as i32,
                    })
                },
            },
        }
    }

    fn new(cur: &mut Cursor) -> (r: Result<PackagePinPOD, DecodeError>) {
        let name = read_relstring(cur)?;
        let abs_loc = LocationPOD::new(cur)?;
        let bel_index = cur.read_i32_le()?;
        Ok(PackagePinPOD { name, abs_loc, bel_index })
    }
    proof fn lemma_truncation_fails_closed(data: Seq<u8>, pos: int, k: int) {
        lemma_relstring_fails_truncated(data.subrange(0, k), pos);
    }
}

impl POD for PackageInfoPOD {
    open spec fn header_size() -> int {
        12
    }

    open spec fn spec_new(data: Seq<u8>, pos: int) -> Result<PackageInfoView, DecodeError> {
        match spec_relstring(data, pos) {
            Err(e) => Err(e),
            Ok(name) => match spec_relslice::<PackagePinPOD>(data, pos + 4) {
                Err(e) => Err(e),
                Ok(pin_data) => Ok(PackageInfoView { name, pin_data }),
            },
        }
    }

    fn new(cur: &mut Cursor) -> (r: Result<PackageInfoPOD, DecodeError>) {
        let name = read_relstring(cur)?;
        let pin_data = read_relslice::<PackagePinPOD>(cur)?;
        Ok(PackageInfoPOD { name, pin_data })
    }
    proof fn lemma_truncation_fails_closed(data: Seq<u8>, pos: int, k: int) {
        let pre = data.subrange(0, k);
        lemma_relstring_fails_truncated(pre, pos);
        if spec_relstring(pre, pos) is Ok {
            lemma_relslice_truncation_fails_closed::<PackagePinPOD>(data, pos + 4, k);
        }
    }
}

impl POD for TileNamePOD {
    open spec fn header_size() -> int {
        8
    }

    open spec fn spec_new(data: Seq<u8>, pos: int) -> Result<TileNameView, DecodeError> {
        match spec_relstring(data, pos) {
            Err(e) => Err(e),
            Ok(name) => if !in_range(data, pos + 4, 4) {
                Err(DecodeError::Truncated)
            } else {
                Ok(TileNameView {
                    name,
                    type_idx: spec_u16_le_at(data, pos + 4) as i16,
                    padding: spec_u16_le_at(data, pos + 6) as i16,
                })
            },
        }
    }

    fn new(cur: &mut Cursor) -> (r: Result<TileNamePOD, DecodeError>) {
        let name = read_relstring(cur)?;
        let type_idx = cur.read_i16_le()?;
        let padding = cur.read_i16_le()?;
        Ok(TileNamePOD { name, type_idx, padding })
    }
    proof fn lemma_truncation_fails_closed(data: Seq<u8>, pos: int, k: int) {
        lemma_relstring_fails_truncated(data.subrange(0, k), pos);
    }
}

impl POD for TileInfoPOD {
    open spec fn header_size() -> int {
        8
    }

    open spec fn spec_new(data: Seq<u8>, pos: int) -> Result<TileInfoView, DecodeError> {
        match spec_relslice::<TileNamePOD>(data, pos) {
            Err(e) => Err(e),
            Ok(tile_names) => Ok(TileInfoView { tile_names }),
        }
    }

    fn new(cur: &mut Cursor) -> (r: Result<TileInfoPOD, DecodeError>) {
        let tile_names = read_relslice::<TileNamePOD>(cur)?;
        Ok(TileInfoPOD { tile_names })
    }
    proof fn lemma_truncation_fails_closed(data: Seq<u8>, pos: int, k: int) {
        lemma_relslice_truncation_fails_closed::<TileNamePOD>(data, pos, k);
    }
}

impl POD for GlobalInfoPOD {
    open spec fn header_size() -> int {
        8
    }

    open spec fn spec_new(data: Seq<u8>, pos: int) -> Result<GlobalInfoPOD, DecodeError> {
        if !in_range(data, pos, 8) {
            Err(DecodeError::Truncated)
        } else {
            Ok(GlobalInfoPOD {
                tap_col: spec_u16_le_at(data, pos) as i16,
                tap_dir: data[pos + 2] as i8,
                quad: data[pos + 3] as i8,
                spine_row: spec_u16_le_at(data, pos + 4) as i16,
                spine_col: spec_u16_le_at(data, pos + 6) as i16,
            })
        }
    }

    fn new(cur: &mut Cursor) -> (r: Result<GlobalInfoPOD, DecodeError>) {
        let tap_col = cur.read_i16_le()?;
        let tap_dir = cur.read_i8()?;
        let quad = cur.read_i8()?;
        let spine_row = cur.read_i16_le()?;
        let spine_col = cur.read_i16_le()?;
        Ok(GlobalInfoPOD { tap_col, tap_dir, quad, spine_row, spine_col })
    }
    proof fn lemma_truncation_fails_closed(data: Seq<u8>, pos: int, k: int) {
    }
}

impl POD for CellPropDelayPOD {
    open spec fn header_size() -> int {
        16
    }

    open spec fn spec_new(data: Seq<u8>, pos: int) -> Result<CellPropDelayPOD, DecodeError> {
        if !in_range(data, pos, 16) {
            Err(DecodeError::Truncated)
        } else {
            Ok(CellPropDelayPOD {
                from_port: spec_u32_le_at(data, pos) as i32,
                to_port: spec_u32_le_at(data, pos + 4) as i32,
                min_delay: spec_u32_le_at(data, pos + 8) as i32,
                max_delay: spec_u32_le_at(data, pos + 12) as i32,
            })
        }
    }

    fn new(cur: &mut Cursor) -> (r: Result<CellPropDelayPOD, DecodeError>) {
        let from_port = cur.read_i32_le()?;
        let to_port = cur.read_i32_le()?;
        let min_delay = cur.read_i32_le()?;
        let max_delay = cur.read_i32_le()?;
        Ok(CellPropDelayPOD { from_port, to_port, min_delay, max_delay })
    }
    proof fn lemma_truncation_fails_closed(data: Seq<u8>, pos: int, k: int) {
    }
}

impl POD for CellSetupHoldPOD {
    open spec fn header_size() -> int {
        24
    }

    open spec fn spec_new(data: Seq<u8>, pos: int) -> Result<CellSetupHoldPOD, DecodeError> {
        if !in_range(data, pos, 24) {
            Err(DecodeError::Truncated)
        } else {
            Ok(CellSetupHoldPOD {
                sig_port: spec_u32_le_at(data, pos) as i32,
                clock_port: spec_u32_le_at(data, pos + 4) as i32,
                min_setup: spec_u32_le_at(data, pos + 8) as i32,
                max_setup: spec_u32_le_at(data, pos + 12) as i32,
                min_hold: spec_u32_le_at(data, pos + 16) as i32,
                max_hold: spec_u32_le_at(data, pos + 20) as i32,
            })
        }
    }

    fn new(cur: &mut Cursor) -> (r: Result<CellSetupHoldPOD, DecodeError>) {
        let sig_port = cur.read_i32_le()?;
        let clock_port = cur.read_i32_le()?;
        let min_setup = cur.read_i32_le()?;
        let max_setup = cur.read_i32_le()?;
        let min_hold = cur.read_i32_le()?;
        let max_hold = cur.read_i32_le()?;
        Ok(CellSetupHoldPOD { sig_port, clock_port, min_setup, max_setup, min_hold, max_hold })
    }
    proof fn lemma_truncation_fails_closed(data: Seq<u8>, pos: int, k: int) {
    }
}

impl POD for CellTimingPOD {
    open spec fn header_size() -> int {
        20
    }

    open spec fn spec_new(data: Seq<u8>, pos: int) -> Result<CellTimingView, DecodeError> {
        if !in_range(data, pos, 4) {
            Err(DecodeError::Truncated)
        } else {
            match spec_relslice::<CellPropDelayPOD>(data, pos + 4) {
                Err(e) => Err(e),
                Ok(prop_delays) => match spec_relslice::<CellSetupHoldPOD>(data, pos + 12) {
                    Err(e) => Err(e),
                    Ok(setup_holds) => Ok(CellTimingView {
                        cell_type: spec_u32_le_at(data, pos) as i32,
                        prop_delays,
                        setup_holds,
                    }),
                },
            }
        }
    }

    fn new(cur: &mut Cursor) -> (r: Result<CellTimingPOD, DecodeError>) {
        let cell_type = cur.read_i32_le()?;
        let prop_delays = read_relslice::<CellPropDelayPOD>(cur)?;
        let setup_holds = read_relslice::<CellSetupHoldPOD>(cur)?;
        Ok(CellTimingPOD { cell_type, prop_delays, setup_holds })
    }
    proof fn lemma_truncation_fails_closed(data: Seq<u8>, pos: int, k: int) {
        let pre = data.subrange(0, k);
        if in_range(pre, pos, 4) {
            lemma_relslice_truncation_fails_closed::<CellPropDelayPOD>(data, pos + 4, k);
            if spec_relslice::<CellPropDelayPOD>(pre, pos + 4) is Ok {
                lemma_relslice_truncation_fails_closed::<CellSetupHoldPOD>(data, pos + 12, k);
            }
        }
    }
}

impl POD for PipDelayPOD {
    open spec fn header_size() -> int {
        16
    }

    open spec fn spec_new(data: Seq<u8>, pos: int) -> Result<PipDelayPOD, DecodeError> {
        if !in_range(data, pos, 16) {
            Err(DecodeError::Truncated)
        } else {
            Ok(PipDelayPOD {
                min_base_delay: spec_u32_le_at(data, pos) as i32,
                max_base_delay: spec_u32_le_at(data, pos + 4) as i32,
                min_fanout_adder: spec_u32_le_at(data, pos + 8) as i32,
                max_fanout_adder: spec_u32_le_at(data, pos + 12) as i32,
            })
        }
    }

    fn new(cur: &mut Cursor) -> (r: Result<PipDelayPOD, DecodeError>) {
        let min_base_delay = cur.read_i32_le()?;
        let max_base_delay = cur.read_i32_le()?;
        let min_fanout_adder = cur.read_i32_le()?;
        let max_fanout_adder = cur.read_i32_le()?;
        Ok(PipDelayPOD { min_base_delay, max_base_delay, min_fanout_adder, max_fanout_adder })
    }
    proof fn lemma_truncation_fails_closed(data: Seq<u8>, pos: int, k: int) {
    }
}

impl POD for SpeedGradePOD {
    open spec fn header_size() -> int {
        16
    }

    open spec fn spec_new(data: Seq<u8>, pos: int) -> Result<SpeedGradeView, DecodeError> {
        match spec_relslice::<CellTimingPOD>(data, pos) {
            Err(e) => Err(e),
            Ok(cell_timings) => match spec_relslice::<PipDelayPOD>(data, pos + 8) {
                Err(e) => Err(e),
                Ok(pip_classes) => Ok(SpeedGradeView { cell_timings, pip_classes }),
            },
        }
    }

    fn new(cur: &mut Cursor) -> (r: Result<SpeedGradePOD, DecodeError>) {
        let cell_timings = read_relslice::<CellTimingPOD>(cur)?;
        let pip_classes = read_relslice::<PipDelayPOD>(cur)?;
        Ok(SpeedGradePOD { cell_timings, pip_classes })
    }
    proof fn lemma_truncation_fails_closed(data: Seq<u8>, pos: int, k: int) {
        let pre = data.subrange(0, k);
        lemma_relslice_truncation_fails_closed::<CellTimingPOD>(data, pos, k);
        if spec_relslice::<CellTimingPOD>(pre, pos) is Ok {
            lemma_relslice_truncation_fails_closed::<PipDelayPOD>(data, pos + 8, k);
        }
    }
}

impl POD for ChipInfoPOD {
    open spec fn header_size() -> int {
        80
    }

    open spec fn spec_new(data: Seq<u8>, pos: int) -> Result<ChipInfoView, DecodeError> {
        if !in_range(data, pos, 16) {
            Err(DecodeError::Truncated)
        } else {
            match spec_relslice::<LocationTypePOD>(data, pos + 16) {
                Err(e) => Err(e),
                Ok(locations) => match spec_relslice::<i32>(data, pos + 24) {
                    Err(e) => Err(e),
                    Ok(location_type) => match spec_relslice::<GlobalInfoPOD>(data, pos + 32) {
                        Err(e) => Err(e),
                        Ok(location_glbinfo) => match spec_relslice::<String>(data, pos + 40) {
                            Err(e) => Err(e),
                            Ok(tiletype_names) => match spec_relslice::<PackageInfoPOD>(
                                data,
                                pos + 48,
                            ) {
                                Err(e) => Err(e),
                                Ok(package_info) => match spec_relslice::<PIOInfoPOD>(
                                    data,
                                    pos + 56,
                                ) {
                                    Err(e) => Err(e),
                                    Ok(pio_info) => match spec_relslice::<TileInfoPOD>(
                                        data,
                                        pos + 64,
                                    ) {
                                        Err(e) => Err(e),
                                        Ok(tile_info) => match spec_relslice::<SpeedGradePOD>(
                                            data,
                                            pos + 72,
                                        ) {
                                            Err(e) => Err(e),
                                            Ok(speed_grades) => Ok(ChipInfoView {
                                                width: spec_u32_le_at(data, pos) as i32,
                                                height: spec_u32_le_at(data, pos + 4) as i32,
                                                num_tiles: spec_u32_le_at(data, pos + 8) as i32,
                                                const_id_count: spec_u32_le_at(data, pos + 12) as i32,
                                                locations,
                                                location_type,
                                                location_glbinfo,
                                                tiletype_names,
                                                package_info,
                                                pio_info,
                                                tile_info,
                                                speed_grades,
                                            }),
                                        },
                                    },
                                },
                            },
                        },
                    },
                },
            }
        }
    }

    fn new(cur: &mut Cursor) -> (r: Result<ChipInfoPOD, DecodeError>) {
        let width = cur.read_i32_le()?;
        let height = cur.read_i32_le()?;
        let num_tiles = cur.read_i32_le()?;
        let const_id_count = cur.read_i32_le()?;
        let locations = read_relslice::<LocationTypePOD>(cur)?;
        let location_type = read_reli32arr(cur)?;
        let location_glbinfo = read_relslice::<GlobalInfoPOD>(cur)?;
        let tiletype_names = read_relstringarr(cur)?;
        let package_info = read_relslice::<PackageInfoPOD>(cur)?;
        let pio_info = read_relslice::<PIOInfoPOD>(cur)?;
        let tile_info = read_relslice::<TileInfoPOD>(cur)?;
        let speed_grades = read_relslice::<SpeedGradePOD>(cur)?;
        Ok(ChipInfoPOD {
            width,
            height,
            num_tiles,
            const_id_count,
            locations,
            location_type,
            location_glbinfo,
            tiletype_names,
            package_info,
            pio_info,
            tile_info,
            speed_grades,
        })
    }
    proof fn lemma_truncation_fails_closed(data: Seq<u8>, pos: int, k: int) {
        let pre = data.subrange(0, k);
        if in_range(pre, pos, 16) {
            lemma_relslice_truncation_fails_closed::<LocationTypePOD>(data, pos + 16, k);
            if spec_relslice::<LocationTypePOD>(pre, pos + 16) is Ok {
                lemma_relslice_truncation_fails_closed::<i32>(data, pos + 24, k);
                if spec_relslice::<i32>(pre, pos + 24) is Ok {
                    lemma_relslice_truncation_fails_closed::<GlobalInfoPOD>(data, pos + 32, k);
                    if spec_relslice::<GlobalInfoPOD>(pre, pos + 32) is Ok {
                        lemma_relslice_truncation_fails_closed::<String>(data, pos + 40, k);
                        if spec_relslice::<String>(pre, pos + 40) is Ok {
                            lemma_relslice_truncation_fails_closed::<PackageInfoPOD>(data, pos + 48, k);
                            if spec_relslice::<PackageInfoPOD>(pre, pos + 48) is Ok {
                                lemma_relslice_truncation_fails_closed::<PIOInfoPOD>(data, pos + 56, k);
                                if spec_relslice::<PIOInfoPOD>(pre, pos + 56) is Ok {
                                    lemma_relslice_truncation_fails_closed::<TileInfoPOD>(data, pos + 64, k);
                                    if spec_relslice::<TileInfoPOD>(pre, pos + 64) is Ok {
                                        lemma_relslice_truncation_fails_closed::<SpeedGradePOD>(data, pos + 72, k);
                                    }
                                }
                            }
                        }
                    }
                }
            }
        }
    }
}

/// What a whole tile-template database buffer decodes to: the leading
/// 4-byte little-endian absolute offset locates the root record, and
/// the root aggregate decodes there.
pub open spec fn spec_full_chipinfo(data: Seq<u8>) -> Result<ChipInfoView, DecodeError> {
    if !in_range(data, 0, 4) {
        Err(DecodeError::Truncated)
    } else {
        let root = spec_u32_le_at(data, 0);
        if !(root <= data.len()) {
            Err(DecodeError::Truncated)
        } else {
            ChipInfoPOD::spec_new(data, root as int)
        }
    }
}

/// Law: cutting a decodable buffer never misreads it: the cut copy
/// either still decodes or fails with `Truncated`, never with
/// `UnknownTag`.  A cut can still succeed, since a string run that
/// loses bytes up to its terminator decodes to a shorter string:
/// string runs are terminator-bounded, not length-checked.
pub proof fn lemma_full_chipinfo_truncation_fails_closed(data: Seq<u8>, k: int)
    requires
        0 <= k <= data.len(),
        spec_full_chipinfo(data) is Ok,
    ensures
        spec_full_chipinfo(data.subrange(0, k)) is Ok || spec_full_chipinfo(data.subrange(0, k))
            == Err::<ChipInfoView, DecodeError>(DecodeError::Truncated),
{
    let pre = data.subrange(0, k);
    if in_range(pre, 0, 4) {
        lemma_prefix_u32_le(data, k, 0);
        let root = spec_u32_le_at(data, 0);
        if root <= pre.len() {
            ChipInfoPOD::lemma_truncation_fails_closed(data, root as int, k);
        }
    }
}

/// Decodes a full tile-template chip database from a packed buffer.
pub fn get_full_chipinfo(chipdata: &[u8]) -> (r: Result<ChipInfoPOD, DecodeError>)
    ensures
        match r {
            Ok(c) => spec_full_chipinfo(chipdata@) == Ok::<ChipInfoView, DecodeError>(c@),
            Err(e) => spec_full_chipinfo(chipdata@) == Err::<ChipInfoView, DecodeError>(e),
        },
{
    let mut cur = Cursor::new(chipdata);
    let root = cur.read_u32_le()?;
    cur.try_set_position(root as i128)?;
    ChipInfoPOD::new(&mut cur)
}

} // verus!
