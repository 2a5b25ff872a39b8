use vstd::prelude::*;
use crate::reltypes::views_of;

verus! {

/// One wire a bel pin connects to.
#[derive(Clone, Copy, Debug, PartialEq, Eq, Structural)]
pub struct BelWirePOD {
    pub port: i32,
    pub kind: i32,
    pub wire_index: i32,
}

impl View for BelWirePOD {
    type V = BelWirePOD;

    open spec fn view(&self) -> BelWirePOD {
        *self
    }
}

/// A placeable functional primitive, with absolute per-element
/// coordinates: the flat schema does not deduplicate tile templates.
#[derive(Debug, PartialEq)]
pub struct BelInfoPOD {
    pub name: String,
    pub kind: i32,
    pub bel_wires: Vec<BelWirePOD>,
    pub x: i8,
    pub y: i8,
    pub z: i8,
    pub padding_0: i8,
}

pub struct BelInfoView {
    pub name: Seq<char>,
    pub kind: i32,
    pub bel_wires: Seq<BelWirePOD>,
    pub x: i8,
    pub y: i8,
    pub z: i8,
    pub padding_0: i8,
}

impl View for BelInfoPOD {
    type V = BelInfoView;

    open spec fn view(&self) -> BelInfoView {
        BelInfoView {
            name: self.name@,
            kind: self.kind,
            bel_wires: views_of(self.bel_wires@),
            x: self.x,
            y: self.y,
            z: self.z,
            padding_0: self.padding_0,
        }
    }
}

/// One bel pin attached to a wire.
#[derive(Clone, Copy, Debug, PartialEq, Eq, Structural)]
pub struct BelPortPOD {
    pub bel_index: i32,
    pub port: i32,
}

impl View for BelPortPOD {
    type V = BelPortPOD;

    open spec fn view(&self) -> BelPortPOD {
        *self
    }
}

/// A programmable interconnect point with absolute coordinates and the
/// switch that implements it.
#[derive(Clone, Copy, Debug, PartialEq, Eq, Structural)]
pub struct PipInfoPOD {
    pub src: i32,
    pub dst: i32,
    pub fast_delay: i32,
    pub slow_delay: i32,
    pub x: i8,
    pub y: i8,
    pub src_seg: i16,
    pub dst_seg: i16,
    pub switch_mask: i16,
    pub switch_index: i32,
    pub pip_flags: u32,
}

impl View for PipInfoPOD {
    type V = PipInfoPOD;

    open spec fn view(&self) -> PipInfoPOD {
        *self
    }
}

/// One tile a wire passes through, with the wire's index there.
#[derive(Clone, Copy, Debug, PartialEq, Eq, Structural)]
pub struct WireSegmentPOD {
    pub x: i8,
    pub y: i8,
    pub index: i16,
}

impl View for WireSegmentPOD {
    type V = WireSegmentPOD;

    open spec fn view(&self) -> WireSegmentPOD {
        *self
    }
}

/// A named routing segment with absolute coordinates.
#[derive(Debug, PartialEq)]
pub struct WireInfoPOD {
    pub name: String,
    pub name_x: i8,
    pub name_y: i8,
    pub padding: i16,
    pub pips_uphill: Vec<i32>,
    pub pips_downhill: Vec<i32>,
    pub bel_pins: Vec<BelPortPOD>,
    pub segments: Vec<WireSegmentPOD>,
    pub fast_delay: i32,
    pub slow_delay: i32,
    pub x: i8,
    pub y: i8,
    pub z: i8,
    pub kind: i8,
}

pub struct WireInfoView {
    pub name: Seq<char>,
    pub name_x: i8,
    pub name_y: i8,
    pub padding: i16,
    pub pips_uphill: Seq<i32>,
    pub pips_downhill: Seq<i32>,
    pub bel_pins: Seq<BelPortPOD>,
    pub segments: Seq<WireSegmentPOD>,
    pub fast_delay: i32,
    pub slow_delay: i32,
    pub x: i8,
    pub y: i8,
    pub z: i8,
    pub kind: i8,
}

impl View for WireInfoPOD {
    type V = WireInfoView;

    open spec fn view(&self) -> WireInfoView {
        WireInfoView {
            name: self.name@,
            name_x: self.name_x,
            name_y: self.name_y,
            padding: self.padding,
            pips_uphill: self.pips_uphill@,
            pips_downhill: self.pips_downhill@,
            bel_pins: views_of(self.bel_pins@),
            segments: views_of(self.segments@),
            fast_delay: self.fast_delay,
            slow_delay: self.slow_delay,
            x: self.x,
            y: self.y,
            z: self.z,
            kind: self.kind,
        }
    }
}

/// One physical package pin and the bel it is bonded to.
#[derive(Debug, PartialEq)]
pub struct PackagePinPOD {
    pub name: String,
    pub bel_index: i32,
}

pub struct PackagePinView {
    pub name: Seq<char>,
    pub bel_index: i32,
}

impl View for PackagePinPOD {
    type V = PackagePinView;

    open spec fn view(&self) -> PackagePinView {
        PackagePinView { name: self.name@, bel_index: self.bel_index }
    }
}

/// One package variant of the device and its pinout.
#[derive(Debug, PartialEq)]
pub struct PackageInfoPOD {
    pub name: String,
    pub pins: Vec<PackagePinPOD>,
}

pub struct PackageInfoView {
    pub name: Seq<char>,
    pub pins: Seq<PackagePinView>,
}

impl View for PackageInfoPOD {
    type V = PackageInfoView;

    open spec fn view(&self) -> PackageInfoView {
        PackageInfoView { name: self.name@, pins: views_of(self.pins@) }
    }
}

/// One configuration bit, by row and column inside the tile.
#[derive(Clone, Copy, Debug, PartialEq, Eq, Structural)]
pub struct ConfigBitPOD {
    pub row: i8,
    pub col: i8,
}

impl View for ConfigBitPOD {
    type V = ConfigBitPOD;

    open spec fn view(&self) -> ConfigBitPOD {
        *self
    }
}

/// A named bitstream entry and the bits that make it up.
#[derive(Debug, PartialEq)]
pub struct ConfigEntryPOD {
    pub name: String,
    pub bits: Vec<ConfigBitPOD>,
}

pub struct ConfigEntryView {
    pub name: Seq<char>,
    pub bits: Seq<ConfigBitPOD>,
}

impl View for ConfigEntryPOD {
    type V = ConfigEntryView;

    open spec fn view(&self) -> ConfigEntryView {
        ConfigEntryView { name: self.name@, bits: views_of(self.bits@) }
    }
}

/// The configuration grid of one non-routing tile type.
#[derive(Debug, PartialEq)]
pub struct TileInfoPOD {
    pub cols: i8,
    pub rows: i8,
    pub padding: i16,
    pub entries: Vec<ConfigEntryPOD>,
}

pub struct TileInfoView {
    pub cols: i8,
    pub rows: i8,
    pub padding: i16,
    pub entries: Seq<ConfigEntryView>,
}

impl View for TileInfoPOD {
    type V = TileInfoView;

    open spec fn view(&self) -> TileInfoView {
        TileInfoView {
            cols: self.cols,
            rows: self.rows,
            padding: self.padding,
            entries: views_of(self.entries@),
        }
    }
}

/// One routing switch and the configuration bits that drive it.
#[derive(Clone, Copy, Debug, PartialEq)]
pub struct SwitchInfoPOD {
    pub num_bits: i32,
    pub bel: i32,
    pub x: i8,
    pub y: i8,
    pub cbits: [ConfigBitPOD; 5],
}

pub struct SwitchInfoView {
    pub num_bits: i32,
    pub bel: i32,
    pub x: i8,
    pub y: i8,
    pub cbits: Seq<ConfigBitPOD>,
}

impl View for SwitchInfoPOD {
    type V = SwitchInfoView;

    open spec fn view(&self) -> SwitchInfoView {
        SwitchInfoView {
            num_bits: self.num_bits,
            bel: self.bel,
            x: self.x,
            y: self.y,
            cbits: self.cbits@,
        }
    }
}

/// The input-enable register pairing of one I/O position.
#[derive(Clone, Copy, Debug, PartialEq, Eq, Structural)]
pub struct IerenInfoPOD {
    pub iox: i8,
    pub ioy: i8,
    pub ioz: i8,
    pub ierx: i8,
    pub iery: i8,
    pub ierz: i8,
}

impl View for IerenInfoPOD {
    type V = IerenInfoPOD;

    open spec fn view(&self) -> IerenInfoPOD {
        *self
    }
}

/// The flat table mapping configuration bits to named bitstream
/// entries.
#[derive(Debug, PartialEq)]
pub struct BitstreamInfoPOD {
    pub tiles_nonrouting: Vec<TileInfoPOD>,
    pub switches: Vec<SwitchInfoPOD>,
    pub ierens: Vec<IerenInfoPOD>,
}

pub struct BitstreamInfoView {
    pub tiles_nonrouting: Seq<TileInfoView>,
    pub switches: Seq<SwitchInfoView>,
    pub ierens: Seq<IerenInfoPOD>,
}

impl View for BitstreamInfoPOD {
    type V = BitstreamInfoView;

    open spec fn view(&self) -> BitstreamInfoView {
        BitstreamInfoView {
            tiles_nonrouting: views_of(self.tiles_nonrouting@),
            switches: views_of(self.switches@),
            ierens: views_of(self.ierens@),
        }
    }
}

/// One mapping between a bel parameter and a named configuration bit.
#[derive(Debug, PartialEq)]
pub struct BelConfigEntryPOD {
    pub entry_name: String,
    pub cbit_name: String,
    pub x: i8,
    pub y: i8,
    pub padding: i16,
}

pub struct BelConfigEntryView {
    pub entry_name: Seq<char>,
    pub cbit_name: Seq<char>,
    pub x: i8,
    pub y: i8,
    pub padding: i16,
}

impl View for BelConfigEntryPOD {
    type V = BelConfigEntryView;

    open spec fn view(&self) -> BelConfigEntryView {
        BelConfigEntryView {
            entry_name: self.entry_name@,
            cbit_name: self.cbit_name@,
            x: self.x,
            y: self.y,
            padding: self.padding,
        }
    }
}

/// The parameter-to-bit mapping of one extra cell whose mapping is
/// non-trivial.
#[derive(Debug, PartialEq)]
pub struct BelConfigPOD {
    pub bel_index: i32,
    pub entries: Vec<BelConfigEntryPOD>,
}

pub struct BelConfigView {
    pub bel_index: i32,
    pub entries: Seq<BelConfigEntryView>,
}

impl View for BelConfigPOD {
    type V = BelConfigView;

    open spec fn view(&self) -> BelConfigView {
        BelConfigView { bel_index: self.bel_index, entries: views_of(self.entries@) }
    }
}

/// A propagation delay between two cell ports.
#[derive(Clone, Copy, Debug, PartialEq, Eq, Structural)]
pub struct CellPathDelayPOD {
    pub from_port: i32,
    pub to_port: i32,
    pub fast_delay: i32,
    pub slow_delay: i32,
}

impl View for CellPathDelayPOD {
    type V = CellPathDelayPOD;

    open spec fn view(&self) -> CellPathDelayPOD {
        *self
    }
}

/// Timing data of one cell type.
#[derive(Debug, PartialEq)]
pub struct CellTimingPOD {
    pub kind: i32,
    pub path_delays: Vec<CellPathDelayPOD>,
}

pub struct CellTimingView {
    pub kind: i32,
    pub path_delays: Seq<CellPathDelayPOD>,
}

impl View for CellTimingPOD {
    type V = CellTimingView;

    open spec fn view(&self) -> CellTimingView {
        CellTimingView { kind: self.kind, path_delays: views_of(self.path_delays@) }
    }
}

/// One global network and the I/O position that can drive it.
#[derive(Clone, Copy, Debug, PartialEq, Eq, Structural)]
pub struct GlobalNetworkInfoPOD {
    pub gb_x: u8,
    pub gb_y: u8,
    pub pi_gb_x: u8,
    pub pi_gb_y: u8,
    pub pi_gb_pio: u8,
    pub pi_eb_bank: u8,
    pub pi_eb_x: u16,
    pub pi_eb_y: u16,
    pub pad: u16,
}

impl View for GlobalNetworkInfoPOD {
    type V = GlobalNetworkInfoPOD;

    open spec fn view(&self) -> GlobalNetworkInfoPOD {
        *self
    }
}

/// The root aggregate of the flat chip database: grid dimensions, the
/// flat bel, wire and pip tables, the tile kind grid, and the auxiliary
/// tables.
#[derive(Debug, PartialEq)]
pub struct ChipInfoPOD {
    pub width: i32,
    pub height: i32,
    pub num_switches: u32,
    pub bel_data: Vec<BelInfoPOD>,
    pub wire_data: Vec<WireInfoPOD>,
    pub pip_data: Vec<PipInfoPOD>,
    pub tile_grid: Vec<u32>,
    pub bits_info: BitstreamInfoPOD,
    pub bel_config: Vec<BelConfigPOD>,
    pub packages_data: Vec<PackageInfoPOD>,
    pub cell_timing: Vec<CellTimingPOD>,
    pub global_network_info: Vec<GlobalNetworkInfoPOD>,
    pub tile_wire_names: Vec<String>,
}

pub struct ChipInfoView {
    pub width: i32,
    pub height: i32,
    pub num_switches: u32,
    pub bel_data: Seq<BelInfoView>,
    pub wire_data: Seq<WireInfoView>,
    pub pip_data: Seq<PipInfoPOD>,
    pub tile_grid: Seq<u32>,
    pub bits_info: BitstreamInfoView,
    pub bel_config: Seq<BelConfigView>,
    pub packages_data: Seq<PackageInfoView>,
    pub cell_timing: Seq<CellTimingView>,
    pub global_network_info: Seq<GlobalNetworkInfoPOD>,
    pub tile_wire_names: Seq<Seq<char>>,
}

impl View for ChipInfoPOD {
    type V = ChipInfoView;

    open spec fn view(&self) -> ChipInfoView {
        ChipInfoView {
            width: self.width,
            height: self.height,
            num_switches: self.num_switches,
            bel_data: views_of(self.bel_data@),
            wire_data: views_of(self.wire_data@),
            pip_data: views_of(self.pip_data@),
            tile_grid: self.tile_grid@,
            bits_info: self.bits_info@,
            bel_config: views_of(self.bel_config@),
            packages_data: views_of(self.packages_data@),
            cell_timing: views_of(self.cell_timing@),
            global_network_info: views_of(self.global_network_info@),
            tile_wire_names: views_of(self.tile_wire_names@),
        }
    }
}

} // verus!
