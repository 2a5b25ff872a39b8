use vstd::prelude::*;
use crate::cursor::{in_range, lemma_prefix_u32_le, spec_u16_le_at, spec_u32_le_at, Cursor};
use crate::reltypes::{
    lemma_relptr_truncation_fails_closed, lemma_relslice_truncation_fails_closed,
    lemma_relstring_fails_truncated, read_reli32arr, read_relptr, read_relslice, read_relstring,
    read_relstringarr, read_relu32arr, spec_relptr, spec_relslice, spec_relstring, POD,
};
use crate::DecodeError;
use crate::ice40::types::{
    BelConfigEntryPOD, BelConfigEntryView, BelConfigPOD, BelConfigView, BelInfoPOD, BelInfoView,
    BelPortPOD, BelWirePOD, BitstreamInfoPOD, BitstreamInfoView, CellPathDelayPOD, CellTimingPOD,
    CellTimingView, ChipInfoPOD, ChipInfoView, ConfigBitPOD, ConfigEntryPOD, ConfigEntryView,
    GlobalNetworkInfoPOD, IerenInfoPOD, PackageInfoPOD, PackageInfoView, PackagePinPOD,
    PackagePinView, PipInfoPOD, SwitchInfoPOD, SwitchInfoView, TileInfoPOD, TileInfoView,
    WireInfoPOD, WireInfoView, WireSegmentPOD,
};

verus! {

impl POD for BelWirePOD {
    open spec fn header_size() -> int {
        12
    }

    open spec fn spec_new(data: Seq<u8>, pos: int) -> Result<BelWirePOD, DecodeError> {
        if !in_range(data, pos, 12) {
            Err(DecodeError::Truncated)
        } else {
            Ok(BelWirePOD {
                port: spec_u32_le_at(data, pos) as i32,
                kind: spec_u32_le_at(data, pos + 4) as i32,
                wire_index: spec_u32_le_at(data, pos + 8) as i32,
            })
        }
    }

    fn new(cur: &mut Cursor) -> (r: Result<BelWirePOD, DecodeError>) {
        let port = cur.read_i32_le()?;
        let kind = cur.read_i32_le()?;
        let wire_index = cur.read_i32_le()?;
        Ok(BelWirePOD { port, kind, wire_index })
    }
    proof fn lemma_truncation_fails_closed(data: Seq<u8>, pos: int, k: int) {
    }
}

impl POD for BelInfoPOD {
    open spec fn header_size() -> int {
        20
    }

    open spec fn spec_new(data: Seq<u8>, pos: int) -> Result<BelInfoView, DecodeError> {
        match spec_relstring(data, pos) {
            Err(e) => Err(e),
            Ok(name) => if !in_range(data, pos + 4, 4) {
                Err(DecodeError::Truncated)
            } else {
                match spec_relslice::<BelWirePOD>(data, pos + 8) {
                    Err(e) => Err(e),
                    Ok(bel_wires) => if !in_range(data, pos + 16, 4) {
                        Err(DecodeError::Truncated)
                    } else {
                        Ok(BelInfoView {
                            name,
                            kind: spec_u32_le_at(data, pos + 4) as i32,
                            bel_wires,
                            x: data[pos + 16] as i8,
                            y: data[pos + 17] as i8,
                            z: data[pos + 18] as i8,
                            padding_0: data[pos + 19] as i8,
                        })
                    },
                }
            },
        }
    }

    fn new(cur: &mut Cursor) -> (r: Result<BelInfoPOD, DecodeError>) {
        let name = read_relstring(cur)?;
        let kind = cur.read_i32_le()?;
        let bel_wires = read_relslice::<BelWirePOD>(cur)?;
        let x = cur.read_i8()?;
        let y = cur.read_i8()?;
        let z = cur.read_i8()?;
        let padding_0 = cur.read_i8()?;
        Ok(BelInfoPOD { name, kind, bel_wires, x, y, z, padding_0 })
    }
    proof fn lemma_truncation_fails_closed(data: Seq<u8>, pos: int, k: int) {
        let pre = data.subrange(0, k);
        lemma_relstring_fails_truncated(pre, pos);
        if spec_relstring(pre, pos) is Ok {
            if in_range(pre, pos + 4, 4) {
                lemma_relslice_truncation_fails_closed::<BelWirePOD>(data, pos + 8, k);
            }
        }
    }
}

impl POD for BelPortPOD {
    open spec fn header_size() -> int {
        8
    }

    open spec fn spec_new(data: Seq<u8>, pos: int) -> Result<BelPortPOD, DecodeError> {
        if !in_range(data, pos, 8) {
            Err(DecodeError::Truncated)
        } else {
            Ok(BelPortPOD {
                bel_index: spec_u32_le_at(data, pos) as i32,
                port: spec_u32_le_at(data, pos + 4) as i32,
            })
        }
    }

    fn new(cur: &mut Cursor) -> (r: Result<BelPortPOD, DecodeError>) {
        let bel_index = cur.read_i32_le()?;
        let port = cur.read_i32_le()?;
        Ok(BelPortPOD { bel_index, port })
    }
    proof fn lemma_truncation_fails_closed(data: Seq<u8>, pos: int, k: int) {
    }
}

impl POD for PipInfoPOD {
    open spec fn header_size() -> int {
        32
    }

    open spec fn spec_new(data: Seq<u8>, pos: int) -> Result<PipInfoPOD, DecodeError> {
        if !in_range(data, pos, 32) {
            Err(DecodeError::Truncated)
        } else {
            Ok(PipInfoPOD {
                src: spec_u32_le_at(data, pos) as i32,
                dst: spec_u32_le_at(data, pos + 4) as i32,
                fast_delay: spec_u32_le_at(data, pos + 8) as i32,
                slow_delay: spec_u32_le_at(data, pos + 12) as i32,
                x: data[pos + 16] as i8,
                y: data[pos + 17] as i8,
                src_seg: spec_u16_le_at(data, pos + 18) as i16,
                dst_seg: spec_u16_le_at(data, pos + 20) as i16,
                switch_mask: spec_u16_le_at(data, pos + 22) as i16,
                switch_index: spec_u32_le_at(data, pos + 24) as i32,
                pip_flags: spec_u32_le_at(data, pos + 28),
            })
        }
    }

    fn new(cur: &mut Cursor) -> (r: Result<PipInfoPOD, DecodeError>) {
        let src = cur.read_i32_le()?;
        let dst = cur.read_i32_le()?;
        let fast_delay = cur.read_i32_le()?;
        let slow_delay = cur.read_i32_le()?;
        let x = cur.read_i8()?;
        let y = cur.read_i8()?;
        let src_seg = cur.read_i16_le()?;
        let dst_seg = cur.read_i16_le()?;
        let switch_mask = cur.read_i16_le()?;
        let switch_index = cur.read_i32_le()?;
        let pip_flags = cur.read_u32_le()?;
        Ok(PipInfoPOD {
            src,
            dst,
            fast_delay,
            slow_delay,
            x,
            y,
            src_seg,
            dst_seg,
            switch_mask,
            switch_index,
            pip_flags,
        })
    }
    proof fn lemma_truncation_fails_closed(data: Seq<u8>, pos: int, k: int) {
    }
}

impl POD for WireSegmentPOD {
    open spec fn header_size() -> int {
        4
    }

    open spec fn spec_new(data: Seq<u8>, pos: int) -> Result<WireSegmentPOD, DecodeError> {
        if !in_range(data, pos, 4) {
            Err(DecodeError::Truncated)
        } else {
            Ok(WireSegmentPOD {
                x: data[pos] as i8,
                y: data[pos + 1] as i8,
                index: spec_u16_le_at(data, pos + 2) as i16,
            })
        }
    }

    fn new(cur: &mut Cursor) -> (r: Result<WireSegmentPOD, DecodeError>) {
        let x = cur.read_i8()?;
        let y = cur.read_i8()?;
        let index = cur.read_i16_le()?;
        Ok(WireSegmentPOD { x, y, index })
    }
    proof fn lemma_truncation_fails_closed(data: Seq<u8>, pos: int, k: int) {
    }
}

impl POD for WireInfoPOD {
    open spec fn header_size() -> int {
        52
    }

    open spec fn spec_new(data: Seq<u8>, pos: int) -> Result<WireInfoView, DecodeError> {
        match spec_relstring(data, pos) {
            Err(e) => Err(e),
            Ok(name) => if !in_range(data, pos + 4, 4) {
                Err(DecodeError::Truncated)
            } else {
                match spec_relslice::<i32>(data, pos + 8) {
                    Err(e) => Err(e),
                    Ok(pips_uphill) => match spec_relslice::<i32>(data, pos + 16) {
                        Err(e) => Err(e),
                        Ok(pips_downhill) => match spec_relslice::<BelPortPOD>(data, pos + 24) {
                            Err(e) => Err(e),
                            Ok(bel_pins) => match spec_relslice::<WireSegmentPOD>(data, pos + 32) {
                                Err(e) => Err(e),
                                Ok(segments) => if !in_range(data, pos + 40, 12) {
                                    Err(DecodeError::Truncated)
                                } else {
                                    Ok(WireInfoView {
                                        name,
                                        name_x: data[pos + 4] as i8,
                                        name_y: data[pos + 5] as i8,
                                        padding: spec_u16_le_at(data, pos + 6) as i16,
                                        pips_uphill,
                                        pips_downhill,
                                        bel_pins,
                                        segments,
                                        fast_delay: spec_u32_le_at(data, pos + 40) as i32,
                                        slow_delay: spec_u32_le_at(data, pos + 44) as i32,
                                        x: data[pos + 48] as i8,
                                        y: data[pos + 49] as i8,
                                        z: data[pos + 50] as i8,
                                        kind: data[pos + 51] as i8,
                                    })
                                },
                            },
                        },
                    },
                }
            },
        }
    }

    fn new(cur: &mut Cursor) -> (r: Result<WireInfoPOD, DecodeError>) {
        let name = read_relstring(cur)?;
        let name_x = cur.read_i8()?;
        let name_y = cur.read_i8()?;
        let padding = cur.read_i16_le()?;
        let pips_uphill = read_reli32arr(cur)?;
        let pips_downhill = read_reli32arr(cur)?;
        let bel_pins = read_relslice::<BelPortPOD>(cur)?;
        let segments = read_relslice::<WireSegmentPOD>(cur)?;
        let fast_delay = cur.read_i32_le()?;
        let slow_delay = cur.read_i32_le()?;
        let x = cur.read_i8()?;
        let y = cur.read_i8()?;
        let z = cur.read_i8()?;
        let kind = cur.read_i8()?;
        Ok(WireInfoPOD {
            name,
            name_x,
            name_y,
            padding,
            pips_uphill,
            pips_downhill,
            bel_pins,
            segments,
            fast_delay,
            slow_delay,
            x,
            y,
            z,
            kind,
        })
    }
    proof fn lemma_truncation_fails_closed(data: Seq<u8>, pos: int, k: int) {
        let pre = data.subrange(0, k);
        lemma_relstring_fails_truncated(pre, pos);
        if spec_relstring(pre, pos) is Ok {
            if in_range(pre, pos + 4, 4) {
                lemma_relslice_truncation_fails_closed::<i32>(data, pos + 8, k);
                if spec_relslice::<i32>(pre, pos + 8) is Ok {
                    lemma_relslice_truncation_fails_closed::<i32>(data, pos + 16, k);
                    if spec_relslice::<i32>(pre, pos + 16) is Ok {
                        lemma_relslice_truncation_fails_closed::<BelPortPOD>(data, pos + 24, k);
                        if spec_relslice::<BelPortPOD>(pre, pos + 24) is Ok {
                            lemma_relslice_truncation_fails_closed::<WireSegmentPOD>(data, pos + 32, k);
                        }
                    }
                }
            }
        }
    }
}

impl POD for PackagePinPOD {
    open spec fn header_size() -> int {
        8
    }

    open spec fn spec_new(data: Seq<u8>, pos: int) -> Result<PackagePinView, DecodeError> {
        match spec_relstring(data, pos) {
            Err(e) => Err(e),
            Ok(name) => if !in_range(data, pos + 4, 4) {
                Err(DecodeError::Truncated)
            } else {
                Ok(PackagePinView { name, bel_index: spec_u32_le_at(data, pos + 4) as i32 })
            },
        }
    }

    fn new(cur: &mut Cursor) -> (r: Result<PackagePinPOD, DecodeError>) {
        let name = read_relstring(cur)?;
        let bel_index = cur.read_i32_le()?;
        Ok(PackagePinPOD { name, bel_index })
    }
    proof fn lemma_truncation_fails_closed(data: Seq<u8>, pos: int, k: int) {
        lemma_relstring_fails_truncated(data.subrange(0, k), pos);
    }
}

impl POD for PackageInfoPOD {
    open spec fn header_size() -> int {
        12
    }

    open spec fn spec_new(data: Seq<u8>, pos: int) -> Result<PackageInfoView, DecodeError> {
        match spec_relstring(data, pos) {
            Err(e) => Err(e),
            Ok(name) => match spec_relslice::<PackagePinPOD>(data, pos + 4) {
                Err(e) => Err(e),
                Ok(pins) => Ok(PackageInfoView { name, pins }),
            },
        }
    }

    fn new(cur: &mut Cursor) -> (r: Result<PackageInfoPOD, DecodeError>) {
        let name = read_relstring(cur)?;
        let pins = read_relslice::<PackagePinPOD>(cur)?;
        Ok(PackageInfoPOD { name, pins })
    }
    proof fn lemma_truncation_fails_closed(data: Seq<u8>, pos: int, k: int) {
        let pre = data.subrange(0, k);
        lemma_relstring_fails_truncated(pre, pos);
        if spec_relstring(pre, pos) is Ok {
            lemma_relslice_truncation_fails_closed::<PackagePinPOD>(data, pos + 4, k);
        }
    }
}

impl POD for ConfigBitPOD {
    open spec fn header_size() -> int {
        2
    }

    open spec fn spec_new(data: Seq<u8>, pos: int) -> Result<ConfigBitPOD, DecodeError> {
        if !in_range(data, pos, 2) {
            Err(DecodeError::Truncated)
        } else {
            Ok(ConfigBitPOD { row: data[pos] as i8, col: data[pos + 1] as i8 })
        }
    }

    fn new(cur: &mut Cursor) -> (r: Result<ConfigBitPOD, DecodeError>) {
        let row = cur.read_i8()?;
        let col = cur.read_i8()?;
        Ok(ConfigBitPOD { row, col })
    }
    proof fn lemma_truncation_fails_closed(data: Seq<u8>, pos: int, k: int) {
    }
}

impl POD for ConfigEntryPOD {
    open spec fn header_size() -> int {
        12
    }

    open spec fn spec_new(data: Seq<u8>, pos: int) -> Result<ConfigEntryView, DecodeError> {
        match spec_relstring(data, pos) {
            Err(e) => Err(e),
            Ok(name) => match spec_relslice::<ConfigBitPOD>(data, pos + 4) {
                Err(e) => Err(e),
                Ok(bits) => Ok(ConfigEntryView { name, bits }),
            },
        }
    }

    fn new(cur: &mut Cursor) -> (r: Result<ConfigEntryPOD, DecodeError>) {
        let name = read_relstring(cur)?;
        let bits = read_relslice::<ConfigBitPOD>(cur)?;
        Ok(ConfigEntryPOD { name, bits })
    }
    proof fn lemma_truncation_fails_closed(data: Seq<u8>, pos: int, k: int) {
        let pre = data.subrange(0, k);
        lemma_relstring_fails_truncated(pre, pos);
        if spec_relstring(pre, pos) is Ok {
            lemma_relslice_truncation_fails_closed::<ConfigBitPOD>(data, pos + 4, k);
        }
    }
}

impl POD for TileInfoPOD {
    open spec fn header_size() -> int {
        12
    }

    open spec fn spec_new(data: Seq<u8>, pos: int) -> Result<TileInfoView, DecodeError> {
        if !in_range(data, pos, 4) {
            Err(DecodeError::Truncated)
        } else {
            match spec_relslice::<ConfigEntryPOD>(data, pos + 4) {
                Err(e) => Err(e),
                Ok(entries) => Ok(TileInfoView {
                    cols: data[pos] as i8,
                    rows: data[pos + 1] as i8,
                    padding: spec_u16_le_at(data, pos + 2) as i16,
                    entries,
                }),
            }
        }
    }

    fn new(cur: &mut Cursor) -> (r: Result<TileInfoPOD, DecodeError>) {
        let cols = cur.read_i8()?;
        let rows = cur.read_i8()?;
        let padding = cur.read_i16_le()?;
        let entries = read_relslice::<ConfigEntryPOD>(cur)?;
        Ok(TileInfoPOD { cols, rows, padding, entries })
    }
    proof fn lemma_truncation_fails_closed(data: Seq<u8>, pos: int, k: int) {
        let pre = data.subrange(0, k);
        if in_range(pre, pos, 4) {
            lemma_relslice_truncation_fails_closed::<ConfigEntryPOD>(data, pos + 4, k);
        }
    }
}

impl POD for SwitchInfoPOD {
    open spec fn header_size() -> int {
        20
    }

    open spec fn spec_new(data: Seq<u8>, pos: int) -> Result<SwitchInfoView, DecodeError> {
        if !in_range(data, pos, 20) {
            Err(DecodeError::Truncated)
        } else {
            Ok(SwitchInfoView {
                num_bits: spec_u32_le_at(data, pos) as i32,
                bel: spec_u32_le_at(data, pos + 4) as i32,
                x: data[pos + 8] as i8,
                y: data[pos + 9] as i8,
                cbits: seq![
                    ConfigBitPOD { row: data[pos + 10] as i8, col: data[pos + 11] as i8 },
                    ConfigBitPOD { row: data[pos + 12] as i8, col: data[pos + 13] as i8 },
                    ConfigBitPOD { row: data[pos + 14] as i8, col: data[pos + 15] as i8 },
                    ConfigBitPOD { row: data[pos + 16] as i8, col: data[pos + 17] as i8 },
                    ConfigBitPOD { row: data[pos + 18] as i8, col: data[pos + 19] as i8 },
                ],
            })
        }
    }

    fn new(cur: &mut Cursor) -> (r: Result<SwitchInfoPOD, DecodeError>) {
        let num_bits = cur.read_i32_le()?;
        let bel = cur.read_i32_le()?;
        let x = cur.read_i8()?;
        let y = cur.read_i8()?;
        let c0 = ConfigBitPOD::new(cur)?;
        let c1 = ConfigBitPOD::new(cur)?;
        let c2 = ConfigBitPOD::new(cur)?;
        let c3 = ConfigBitPOD::new(cur)?;
        let c4 = ConfigBitPOD::new(cur)?;
        let cbits = [c0, c1, c2, c3, c4];
        proof {
            assert(cbits@ =~= seq![c0, c1, c2, c3, c4]);
        }
        Ok(SwitchInfoPOD { num_bits, bel, x, y, cbits })
    }
    proof fn lemma_truncation_fails_closed(data: Seq<u8>, pos: int, k: int) {
    }
}

impl POD for IerenInfoPOD {
    open spec fn header_size() -> int {
        6
    }

    open spec fn spec_new(data: Seq<u8>, pos: int) -> Result<IerenInfoPOD, DecodeError> {
        if !in_range(data, pos, 6) {
            Err(DecodeError::Truncated)
        } else {
            Ok(IerenInfoPOD {
                iox: data[pos] as i8,
                ioy: data[pos + 1] as i8,
                ioz: data[pos + 2] as i8,
                ierx: data[pos + 3] as i8,
                iery: data[pos + 4] as i8,
                ierz: data[pos + 5] as i8,
            })
        }
    }

    fn new(cur: &mut Cursor) -> (r: Result<IerenInfoPOD, DecodeError>) {
        let iox = cur.read_i8()?;
        let ioy = cur.read_i8()?;
        let ioz = cur.read_i8()?;
        let ierx = cur.read_i8()?;
        let iery = cur.read_i8()?;
        let ierz = cur.read_i8()?;
        Ok(IerenInfoPOD { iox, ioy, ioz, ierx, iery, ierz })
    }
    proof fn lemma_truncation_fails_closed(data: Seq<u8>, pos: int, k: int) {
    }
}

impl POD for BitstreamInfoPOD {
    open spec fn header_size() -> int {
        24
    }

    open spec fn spec_new(data: Seq<u8>, pos: int) -> Result<BitstreamInfoView, DecodeError> {
        match spec_relslice::<TileInfoPOD>(data, pos) {
            Err(e) => Err(e),
            Ok(tiles_nonrouting) => match spec_relslice::<SwitchInfoPOD>(data, pos + 8) {
                Err(e) => Err(e),
                Ok(switches) => match spec_relslice::<IerenInfoPOD>(data, pos + 16) {
                    Err(e) => Err(e),
                    Ok(ierens) => Ok(BitstreamInfoView { tiles_nonrouting, switches, ierens }),
                },
            },
        }
    }

    fn new(cur: &mut Cursor) -> (r: Result<BitstreamInfoPOD, DecodeError>) {
        let tiles_nonrouting = read_relslice::<TileInfoPOD>(cur)?;
        let switches = read_relslice::<SwitchInfoPOD>(cur)?;
        let ierens = read_relslice::<IerenInfoPOD>(cur)?;
        Ok(BitstreamInfoPOD { tiles_nonrouting, switches, ierens })
    }
    proof fn lemma_truncation_fails_closed(data: Seq<u8>, pos: int, k: int) {
        let pre = data.subrange(0, k);
        lemma_relslice_truncation_fails_closed::<TileInfoPOD>(data, pos, k);
        if spec_relslice::<TileInfoPOD>(pre, pos) is Ok {
            lemma_relslice_truncation_fails_closed::<SwitchInfoPOD>(data, pos + 8, k);
            if spec_relslice::<SwitchInfoPOD>(pre, pos + 8) is Ok {
                lemma_relslice_truncation_fails_closed::<IerenInfoPOD>(data, pos + 16, k);
            }
        }
    }
}

impl POD for BelConfigEntryPOD {
    open spec fn header_size() -> int {
        12
    }

    open spec fn spec_new(data: Seq<u8>, pos: int) -> Result<BelConfigEntryView, DecodeError> {
        match spec_relstring(data, pos) {
            Err(e) => Err(e),
            Ok(entry_name) => match spec_relstring(data, pos + 4) {
                Err(e) => Err(e),
                Ok(cbit_name) => if !in_range(data, pos + 8, 4) {
                    Err(DecodeError::Truncated)
                } else {
                    Ok(BelConfigEntryView {
                        entry_name,
                        cbit_name,
                        x: data[pos + 8] as i8,
                        y: data[pos + 9] as i8,
                        padding: spec_u16_le_at(data, pos + 10) as i16,
                    })
                },
            },
        }
    }

    fn new(cur: &mut Cursor) -> (r: Result<BelConfigEntryPOD, DecodeError>) {
        let entry_name = read_relstring(cur)?;
        let cbit_name = read_relstring(cur)?;
        let x = cur.read_i8()?;
        let y = cur.read_i8()?;
        let padding = cur.read_i16_le()?;
        Ok(BelConfigEntryPOD { entry_name, cbit_name, x, y, padding })
    }
    proof fn lemma_truncation_fails_closed(data: Seq<u8>, pos: int, k: int) {
        let pre = data.subrange(0, k);
        lemma_relstring_fails_truncated(pre, pos);
        lemma_relstring_fails_truncated(pre, pos + 4);
    }
}

impl POD for BelConfigPOD {
    open spec fn header_size() -> int {
        12
    }

    open spec fn spec_new(data: Seq<u8>, pos: int) -> Result<BelConfigView, DecodeError> {
        if !in_range(data, pos, 4) {
            Err(DecodeError::Truncated)
        } else {
            match spec_relslice::<BelConfigEntryPOD>(data, pos + 4) {
                Err(e) => Err(e),
                Ok(entries) => Ok(BelConfigView {
                    bel_index: spec_u32_le_at(data, pos) as i32,
                    entries,
                }),
            }
        }
    }

    fn new(cur: &mut Cursor) -> (r: Result<BelConfigPOD, DecodeError>) {
        let bel_index = cur.read_i32_le()?;
        let entries = read_relslice::<BelConfigEntryPOD>(cur)?;
        Ok(BelConfigPOD { bel_index, entries })
    }
    proof fn lemma_truncation_fails_closed(data: Seq<u8>, pos: int, k: int) {
        let pre = data.subrange(0, k);
        if in_range(pre, pos, 4) {
            lemma_relslice_truncation_fails_closed::<BelConfigEntryPOD>(data, pos + 4, k);
        }
    }
}

impl POD for CellPathDelayPOD {
    open spec fn header_size() -> int {
        16
    }

    open spec fn spec_new(data: Seq<u8>, pos: int) -> Result<CellPathDelayPOD, DecodeError> {
        if !in_range(data, pos, 16) {
            Err(DecodeError::Truncated)
        } else {
            Ok(CellPathDelayPOD {
                from_port: spec_u32_le_at(data, pos) as i32,
                to_port: spec_u32_le_at(data, pos + 4) as i32,
                fast_delay: spec_u32_le_at(data, pos + 8) as i32,
                slow_delay: spec_u32_le_at(data, pos + 12) as i32,
            })
        }
    }

    fn new(cur: &mut Cursor) -> (r: Result<CellPathDelayPOD, DecodeError>) {
        let from_port = cur.read_i32_le()?;
        let to_port = cur.read_i32_le()?;
        let fast_delay = cur.read_i32_le()?;
        let slow_delay = cur.read_i32_le()?;
        Ok(CellPathDelayPOD { from_port, to_port, fast_delay, slow_delay })
    }
    proof fn lemma_truncation_fails_closed(data: Seq<u8>, pos: int, k: int) {
    }
}

impl POD for CellTimingPOD {
    open spec fn header_size() -> int {
        12
    }

    open spec fn spec_new(data: Seq<u8>, pos: int) -> Result<CellTimingView, DecodeError> {
        if !in_range(data, pos, 4) {
            Err(DecodeError::Truncated)
        } else {
            match spec_relslice::<CellPathDelayPOD>(data, pos + 4) {
                Err(e) => Err(e),
                Ok(path_delays) => Ok(CellTimingView {
                    kind: spec_u32_le_at(data, pos) as i32,
                    path_delays,
                }),
            }
        }
    }

    fn new(cur: &mut Cursor) -> (r: Result<CellTimingPOD, DecodeError>) {
        let kind = cur.read_i32_le()?;
        let path_delays = read_relslice::<CellPathDelayPOD>(cur)?;
        Ok(CellTimingPOD { kind, path_delays })
    }
    proof fn lemma_truncation_fails_closed(data: Seq<u8>, pos: int, k: int) {
        let pre = data.subrange(0, k);
        if in_range(pre, pos, 4) {
            lemma_relslice_truncation_fails_closed::<CellPathDelayPOD>(data, pos + 4, k);
        }
    }
}

impl POD for GlobalNetworkInfoPOD {
    open spec fn header_size() -> int {
        12
    }

    open spec fn spec_new(data: Seq<u8>, pos: int) -> Result<GlobalNetworkInfoPOD, DecodeError> {
        if !in_range(data, pos, 12) {
            Err(DecodeError::Truncated)
        } else {
            Ok(GlobalNetworkInfoPOD {
                gb_x: data[pos],
                gb_y: data[pos + 1],
                pi_gb_x: data[pos + 2],
                pi_gb_y: data[pos + 3],
                pi_gb_pio: data[pos + 4],
                pi_eb_bank: data[pos + 5],
                pi_eb_x: spec_u16_le_at(data, pos + 6),
                pi_eb_y: spec_u16_le_at(data, pos + 8),
                pad: spec_u16_le_at(data, pos + 10),
            })
        }
    }

    fn new(cur: &mut Cursor) -> (r: Result<GlobalNetworkInfoPOD, DecodeError>) {
        let gb_x = cur.read_u8()?;
        let gb_y = cur.read_u8()?;
        let pi_gb_x = cur.read_u8()?;
        let pi_gb_y = cur.read_u8()?;
        let pi_gb_pio = cur.read_u8()?;
        let pi_eb_bank = cur.read_u8()?;
        let pi_eb_x = cur.read_u16_le()?;
        let pi_eb_y = cur.read_u16_le()?;
        let pad = cur.read_u16_le()?;
        Ok(GlobalNetworkInfoPOD {
            gb_x,
            gb_y,
            pi_gb_x,
            pi_gb_y,
            pi_gb_pio,
            pi_eb_bank,
            pi_eb_x,
            pi_eb_y,
            pad,
        })
    }
    proof fn lemma_truncation_fails_closed(data: Seq<u8>, pos: int, k: int) {
    }
}

impl POD for ChipInfoPOD {
    open spec fn header_size() -> int {
        88
    }

    open spec fn spec_new(data: Seq<u8>, pos: int) -> Result<ChipInfoView, DecodeError> {
        if !in_range(data, pos, 12) {
            Err(DecodeError::Truncated)
        } else {
            match spec_relslice::<BelInfoPOD>(data, pos + 12) {
                Err(e) => Err(e),
                Ok(bel_data) => match spec_relslice::<WireInfoPOD>(data, pos + 20) {
                    Err(e) => Err(e),
                    Ok(wire_data) => match spec_relslice::<PipInfoPOD>(data, pos + 28) {
                        Err(e) => Err(e),
                        Ok(pip_data) => match spec_relslice::<u32>(data, pos + 36) {
                            Err(e) => Err(e),
                            Ok(tile_grid) => match spec_relptr::<BitstreamInfoPOD>(data, pos + 44) {
                                Err(e) => Err(e),
                                Ok(bits_info) => match spec_relslice::<BelConfigPOD>(
                                    data,
                                    pos + 48,
                                ) {
                                    Err(e) => Err(e),
                                    Ok(bel_config) => match spec_relslice::<PackageInfoPOD>(
                                        data,
                                        pos + 56,
                                    ) {
                                        Err(e) => Err(e),
                                        Ok(packages_data) => match spec_relslice::<CellTimingPOD>(
                                            data,
                                            pos + 64,
                                        ) {
                                            Err(e) => Err(e),
                                            Ok(cell_timing) => match spec_relslice::<
                                                GlobalNetworkInfoPOD,
                                            >(data, pos + 72) {
                                                Err(e) => Err(e),
                                                Ok(global_network_info) => match spec_relslice::<
                                                    String,
                                                >(data, pos + 80) {
                                                    Err(e) => Err(e),
                                                    Ok(tile_wire_names) => Ok(ChipInfoView {
                                                        width: spec_u32_le_at(data, pos) as i32,
                                                        height: spec_u32_le_at(data, pos + 4) as i32,
                                                        num_switches: spec_u32_le_at(data, pos + 8),
                                                        bel_data,
                                                        wire_data,
                                                        pip_data,
                                                        tile_grid,
                                                        bits_info,
                                                        bel_config,
                                                        packages_data,
                                                        cell_timing,
                                                        global_network_info,
                                                        tile_wire_names,
                                                    }),
                                                },
                                            },
                                        },
                                    },
                                },
                            },
                        },
                    },
                },
            }
        }
    }

    fn new(cur: &mut Cursor) -> (r: Result<ChipInfoPOD, DecodeError>) {
        let width = cur.read_i32_le()?;
        let height = cur.read_i32_le()?;
        let num_switches = cur.read_u32_le()?;
        let bel_data = read_relslice::<BelInfoPOD>(cur)?;
        let wire_data = read_relslice::<WireInfoPOD>(cur)?;
        let pip_data = read_relslice::<PipInfoPOD>(cur)?;
        let tile_grid = read_relu32arr(cur)?;
        let bits_info = read_relptr::<BitstreamInfoPOD>(cur)?;
        let bel_config = read_relslice::<BelConfigPOD>(cur)?;
        let packages_data = read_relslice::<PackageInfoPOD>(cur)?;
        let cell_timing = read_relslice::<CellTimingPOD>(cur)?;
        let global_network_info = read_relslice::<GlobalNetworkInfoPOD>(cur)?;
        let tile_wire_names = read_relstringarr(cur)?;
        Ok(ChipInfoPOD {
            width,
            height,
            num_switches,
            bel_data,
            wire_data,
            pip_data,
            tile_grid,
            bits_info,
            bel_config,
            packages_data,
            cell_timing,
            global_network_info,
            tile_wire_names,
        })
    }
    proof fn lemma_truncation_fails_closed(data: Seq<u8>, pos: int, k: int) {
        let pre = data.subrange(0, k);
        if in_range(pre, pos, 12) {
            lemma_relslice_truncation_fails_closed::<BelInfoPOD>(data, pos + 12, k);
            if spec_relslice::<BelInfoPOD>(pre, pos + 12) is Ok {
                lemma_relslice_truncation_fails_closed::<WireInfoPOD>(data, pos + 20, k);
                if spec_relslice::<WireInfoPOD>(pre, pos + 20) is Ok {
                    lemma_relslice_truncation_fails_closed::<PipInfoPOD>(data, pos + 28, k);
                    if spec_relslice::<PipInfoPOD>(pre, pos + 28) is Ok {
                        lemma_relslice_truncation_fails_closed::<u32>(data, pos + 36, k);
                        if spec_relslice::<u32>(pre, pos + 36) is Ok {
                            lemma_relptr_truncation_fails_closed::<BitstreamInfoPOD>(data, pos + 44, k);
                            if spec_relptr::<BitstreamInfoPOD>(pre, pos + 44) is Ok {
                                lemma_relslice_truncation_fails_closed::<BelConfigPOD>(data, pos + 48, k);
                                if spec_relslice::<BelConfigPOD>(pre, pos + 48) is Ok {
                                    lemma_relslice_truncation_fails_closed::<PackageInfoPOD>(data, pos + 56, k);
                                    if spec_relslice::<PackageInfoPOD>(pre, pos + 56) is Ok {
                                        lemma_relslice_truncation_fails_closed::<CellTimingPOD>(data, pos + 64, k);
                                        if spec_relslice::<CellTimingPOD>(pre, pos + 64) is Ok {
                                            lemma_relslice_truncation_fails_closed::<GlobalNetworkInfoPOD>(data, pos + 72, k);
                                            if spec_relslice::<GlobalNetworkInfoPOD>(pre, pos + 72) is Ok {
                                                lemma_relslice_truncation_fails_closed::<String>(data, pos + 80, k);
                                            }
                                        }
                                    }
                                }
                            }
                        }
                    }
                }
            }
        }
    }
}

/// What a whole flat database buffer decodes to: the leading 4-byte
/// little-endian absolute offset locates the root record, and the root
/// aggregate decodes there.
pub open spec fn spec_chipdb(data: Seq<u8>) -> Result<ChipInfoView, DecodeError> {
    if !in_range(data, 0, 4) {
        Err(DecodeError::Truncated)
    } else {
        let root = spec_u32_le_at(data, 0);
        if !(root <= data.len()) {
            Err(DecodeError::Truncated)
        } else {
            ChipInfoPOD::spec_new(data, root as int)
        }
    }
}

/// Law: cutting a decodable buffer never misreads it: the cut copy
/// either still decodes or fails with `Truncated`.  A cut can still
/// succeed, since a string run that loses bytes up to its terminator
/// decodes to a shorter string: string runs are terminator-bounded, not
/// length-checked.
pub proof fn lemma_chipdb_truncation_fails_closed(data: Seq<u8>, k: int)
    requires
        0 <= k <= data.len(),
        spec_chipdb(data) is Ok,
    ensures
        spec_chipdb(data.subrange(0, k)) is Ok || spec_chipdb(data.subrange(0, k)) == Err::<
            ChipInfoView,
            DecodeError,
        >(DecodeError::Truncated),
{
    let pre = data.subrange(0, k);
    if in_range(pre, 0, 4) {
        lemma_prefix_u32_le(data, k, 0);
        let root = spec_u32_le_at(data, 0);
        if root <= pre.len() {
            ChipInfoPOD::lemma_truncation_fails_closed(data, root as int, k);
        }
    }
}

/// Decodes a full flat chip database from a packed buffer.
pub fn get_chipdb(chipdata: &[u8]) -> (r: Result<ChipInfoPOD, DecodeError>)
    ensures
        match r {
            Ok(c) => spec_chipdb(chipdata@) == Ok::<ChipInfoView, DecodeError>(c@),
            Err(e) => spec_chipdb(chipdata@) == Err::<ChipInfoView, DecodeError>(e),
        },
{
    let mut cur = Cursor::new(chipdata);
    let root = cur.read_u32_le()?;
    cur.try_set_position(root as i128)?;
    ChipInfoPOD::new(&mut cur)
}

} // verus!
