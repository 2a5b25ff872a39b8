use vstd::prelude::*;
use crate::constids::{ConstId, GfxTileWireId};
use crate::reltypes::views_of;

verus! {

/// A tile coordinate pair; inside a tile template it is relative to the
/// tile that instantiates the template.
#[derive(Clone, Copy, Debug, PartialEq, Eq, Structural)]
pub struct LocationPOD {
    pub x: i16,
    pub y: i16,
}

impl View for LocationPOD {
    type V = LocationPOD;

    open spec fn view(&self) -> LocationPOD {
        *self
    }
}

/// One wire a bel pin connects to, addressed relative to the tile.
#[derive(Clone, Copy, Debug, PartialEq, Eq, Structural)]
pub struct BelWirePOD {
    pub rel_wire_loc: LocationPOD,
    pub wire_index: i32,
    pub port: i32,
    pub kind: i32,
}

impl View for BelWirePOD {
    type V = BelWirePOD;

    open spec fn view(&self) -> BelWirePOD {
        *self
    }
}

/// A placeable functional primitive of a tile template.
#[derive(Debug, PartialEq)]
pub struct BelInfoPOD {
    pub name: String,
    pub kind: ConstId,
    pub z: i32,
    pub bel_wires: Vec<BelWirePOD>,
}

pub struct BelInfoView {
    pub name: Seq<char>,
    pub kind: ConstId,
    pub z: i32,
    pub bel_wires: Seq<BelWirePOD>,
}

impl View for BelInfoPOD {
    type V = BelInfoView;

    open spec fn view(&self) -> BelInfoView {
        BelInfoView {
            name: self.name@,
            kind: self.kind,
            z: self.z,
            bel_wires: views_of(self.bel_wires@),
        }
    }
}

/// One bel pin attached to a wire, addressed relative to the tile.
#[derive(Clone, Copy, Debug, PartialEq, Eq, Structural)]
pub struct BelPortPOD {
    pub rel_bel_loc: LocationPOD,
    pub bel_index: i32,
    pub port: i32,
}

impl View for BelPortPOD {
    type V = BelPortPOD;

    open spec fn view(&self) -> BelPortPOD {
        *self
    }
}

/// A programmable interconnect point of a tile template.  Its source
/// and destination tiles are stored relative to the instantiating tile,
/// with indices into the neighbouring tile's wire array.
#[derive(Clone, Copy, Debug, PartialEq, Eq, Structural)]
pub struct PipInfoPOD {
    pub rel_src_loc: LocationPOD,
    pub rel_dst_loc: LocationPOD,
    pub src_idx: i16,
    pub dst_idx: i16,
    pub timing_class: i16,
    pub tile_type: i8,
    pub pip_type: i8,
    pub lutperm_flags: i16,
    pub padding: i16,
}

impl View for PipInfoPOD {
    type V = PipInfoPOD;

    open spec fn view(&self) -> PipInfoPOD {
        *self
    }
}

/// A reference to a pip of a neighbouring tile.
#[derive(Clone, Copy, Debug, PartialEq, Eq, Structural)]
pub struct PipLocatorPOD {
    pub rel_loc: LocationPOD,
    pub index: i32,
}

impl View for PipLocatorPOD {
    type V = PipLocatorPOD;

    open spec fn view(&self) -> PipLocatorPOD {
        *self
    }
}

/// A named routing segment of a tile template.
#[derive(Debug, PartialEq)]
pub struct WireInfoPOD {
    pub name: String,
    pub kind: ConstId,
    pub tile_wire: GfxTileWireId,
    pub pips_uphill: Vec<PipLocatorPOD>,
    pub pips_downhill: Vec<PipLocatorPOD>,
    pub bel_pins: Vec<BelPortPOD>,
}

pub struct WireInfoView {
    pub name: Seq<char>,
    pub kind: ConstId,
    pub tile_wire: GfxTileWireId,
    pub pips_uphill: Seq<PipLocatorPOD>,
    pub pips_downhill: Seq<PipLocatorPOD>,
    pub bel_pins: Seq<BelPortPOD>,
}

impl View for WireInfoPOD {
    type V = WireInfoView;

    open spec fn view(&self) -> WireInfoView {
        WireInfoView {
            name: self.name@,
            kind: self.kind,
            tile_wire: self.tile_wire,
            pips_uphill: views_of(self.pips_uphill@),
            pips_downhill: views_of(self.pips_downhill@),
            bel_pins: views_of(self.bel_pins@),
        }
    }
}

/// A reusable tile template: the bels, wires and pips present at every
/// tile that references it.
#[derive(Debug, PartialEq)]
pub struct LocationTypePOD {
    pub bel_data: Vec<BelInfoPOD>,
    pub wire_data: Vec<WireInfoPOD>,
    pub pip_data: Vec<PipInfoPOD>,
}

pub struct LocationTypeView {
    pub bel_data: Seq<BelInfoView>,
    pub wire_data: Seq<WireInfoView>,
    pub pip_data: Seq<PipInfoPOD>,
}

impl View for LocationTypePOD {
    type V = LocationTypeView;

    open spec fn view(&self) -> LocationTypeView {
        LocationTypeView {
            bel_data: views_of(self.bel_data@),
            wire_data: views_of(self.wire_data@),
            pip_data: views_of(self.pip_data@),
        }
    }
}

/// A programmable I/O cell and the bel that implements it.
#[derive(Debug, PartialEq)]
pub struct PIOInfoPOD {
    pub abs_loc: LocationPOD,
    pub bel_index: i32,
    pub function_name: String,
    pub bank: i16,
    pub dqsgroup: i16,
}

pub struct PIOInfoView {
    pub abs_loc: LocationPOD,
    pub bel_index: i32,
    pub function_name: Seq<char>,
    pub bank: i16,
    pub dqsgroup: i16,
}

impl View for PIOInfoPOD {
    type V = PIOInfoView;

    open spec fn view(&self) -> PIOInfoView {
        PIOInfoView {
            abs_loc: self.abs_loc,
            bel_index: self.bel_index,
            function_name: self.function_name@,
            bank: self.bank,
            dqsgroup: self.dqsgroup,
        }
    }
}

/// One physical package pin and the bel it is bonded to.
#[derive(Debug, PartialEq)]
pub struct PackagePinPOD {
    pub name: String,
    pub abs_loc: LocationPOD,
    pub bel_index: i32,
}

pub struct PackagePinView {
    pub name: Seq<char>,
    pub abs_loc: LocationPOD,
    pub bel_index: i32,
}

impl View for PackagePinPOD {
    type V = PackagePinView;

    open spec fn view(&self) -> PackagePinView {
        PackagePinView { name: self.name@, abs_loc: self.abs_loc, bel_index: self.bel_index }
    }
}

/// One package variant of the device and its pinout.
#[derive(Debug, PartialEq)]
pub struct PackageInfoPOD {
    pub name: String,
    pub pin_data: Vec<PackagePinPOD>,
}

pub struct PackageInfoView {
    pub name: Seq<char>,
    pub pin_data: Seq<PackagePinView>,
}

impl View for PackageInfoPOD {
    type V = PackageInfoView;

    open spec fn view(&self) -> PackageInfoView {
        PackageInfoView { name: self.name@, pin_data: views_of(self.pin_data@) }
    }
}

/// The name a tile carries for one of its overlapping roles.
#[derive(Debug, PartialEq)]
pub struct TileNamePOD {
    pub name: String,
    pub type_idx: i16,
    pub padding: i16,
}

pub struct TileNameView {
    pub name: Seq<char>,
    pub type_idx: i16,
    pub padding: i16,
}

impl View for TileNamePOD {
    type V = TileNameView;

    open spec fn view(&self) -> TileNameView {
        TileNameView { name: self.name@, type_idx: self.type_idx, padding: self.padding }
    }
}

/// The names of one grid tile.
#[derive(Debug, PartialEq)]
pub struct TileInfoPOD {
    pub tile_names: Vec<TileNamePOD>,
}

pub struct TileInfoView {
    pub tile_names: Seq<TileNameView>,
}

impl View for TileInfoPOD {
    type V = TileInfoView;

    open spec fn view(&self) -> TileInfoView {
        TileInfoView { tile_names: views_of(self.tile_names@) }
    }
}

/// Global clock routing data of one tile.
#[derive(Clone, Copy, Debug, PartialEq, Eq, Structural)]
pub struct GlobalInfoPOD {
    pub tap_col: i16,
    pub tap_dir: i8,
    pub quad: i8,
    pub spine_row: i16,
    pub spine_col: i16,
}

impl View for GlobalInfoPOD {
    type V = GlobalInfoPOD;

    open spec fn view(&self) -> GlobalInfoPOD {
        *self
    }
}

/// A propagation delay between two cell ports.
#[derive(Clone, Copy, Debug, PartialEq, Eq, Structural)]
pub struct CellPropDelayPOD {
    pub from_port: i32,
    pub to_port: i32,
    pub min_delay: i32,
    pub max_delay: i32,
}

impl View for CellPropDelayPOD {
    type V = CellPropDelayPOD;

    open spec fn view(&self) -> CellPropDelayPOD {
        *self
    }
}

/// Setup and hold windows of a cell port against a clock port.
#[derive(Clone, Copy, Debug, PartialEq, Eq, Structural)]
pub struct CellSetupHoldPOD {
    pub sig_port: i32,
    pub clock_port: i32,
    pub min_setup: i32,
    pub max_setup: i32,
    pub min_hold: i32,
    pub max_hold: i32,
}

impl View for CellSetupHoldPOD {
    type V = CellSetupHoldPOD;

    open spec fn view(&self) -> CellSetupHoldPOD {
        *self
    }
}

/// Timing data of one cell type.
#[derive(Debug, PartialEq)]
pub struct CellTimingPOD {
    pub cell_type: i32,
    pub prop_delays: Vec<CellPropDelayPOD>,
    pub setup_holds: Vec<CellSetupHoldPOD>,
}

pub struct CellTimingView {
    pub cell_type: i32,
    pub prop_delays: Seq<CellPropDelayPOD>,
    pub setup_holds: Seq<CellSetupHoldPOD>,
}

impl View for CellTimingPOD {
    type V = CellTimingView;

    open spec fn view(&self) -> CellTimingView {
        CellTimingView {
            cell_type: self.cell_type,
            prop_delays: views_of(self.prop_delays@),
            setup_holds: views_of(self.setup_holds@),
        }
    }
}

/// Delay figures of one pip timing class.
#[derive(Clone, Copy, Debug, PartialEq, Eq, Structural)]
pub struct PipDelayPOD {
    pub min_base_delay: i32,
    pub max_base_delay: i32,
    pub min_fanout_adder: i32,
    pub max_fanout_adder: i32,
}

impl View for PipDelayPOD {
    type V = PipDelayPOD;

    open spec fn view(&self) -> PipDelayPOD {
        *self
    }
}

/// Timing data of one speed grade of the device.
#[derive(Debug, PartialEq)]
pub struct SpeedGradePOD {
    pub cell_timings: Vec<CellTimingPOD>,
    pub pip_classes: Vec<PipDelayPOD>,
}

pub struct SpeedGradeView {
    pub cell_timings: Seq<CellTimingView>,
    pub pip_classes: Seq<PipDelayPOD>,
}

impl View for SpeedGradePOD {
    type V = SpeedGradeView;

    open spec fn view(&self) -> SpeedGradeView {
        SpeedGradeView {
            cell_timings: views_of(self.cell_timings@),
            pip_classes: views_of(self.pip_classes@),
        }
    }
}

/// The root aggregate of the tile-template chip database: grid
/// dimensions, the deduplicated tile templates, the width-by-height
/// template index of every tile, and the auxiliary tables.
#[derive(Debug, PartialEq)]
pub struct ChipInfoPOD {
    pub width: i32,
    pub height: i32,
    pub num_tiles: i32,
    pub const_id_count: i32,
    pub locations: Vec<LocationTypePOD>,
    pub location_type: Vec<i32>,
    pub location_glbinfo: Vec<GlobalInfoPOD>,
    pub tiletype_names: Vec<String>,
    pub package_info: Vec<PackageInfoPOD>,
    pub pio_info: Vec<PIOInfoPOD>,
    pub tile_info: Vec<TileInfoPOD>,
    pub speed_grades: Vec<SpeedGradePOD>,
}

pub struct ChipInfoView {
    pub width: i32,
    pub height: i32,
    pub num_tiles: i32,
    pub const_id_count: i32,
    pub locations: Seq<LocationTypeView>,
    pub location_type: Seq<i32>,
    pub location_glbinfo: Seq<GlobalInfoPOD>,
    pub tiletype_names: Seq<Seq<char>>,
    pub package_info: Seq<PackageInfoView>,
    pub pio_info: Seq<PIOInfoView>,
    pub tile_info: Seq<TileInfoView>,
    pub speed_grades: Seq<SpeedGradeView>,
}

impl View for ChipInfoPOD {
    type V = ChipInfoView;

    open spec fn view(&self) -> ChipInfoView {
        ChipInfoView {
            width: self.width,
            height: self.height,
            num_tiles: self.num_tiles,
            const_id_count: self.const_id_count,
            locations: views_of(self.locations@),
            location_type: self.location_type@,
            location_glbinfo: views_of(self.location_glbinfo@),
            tiletype_names: views_of(self.tiletype_names@),
            package_info: views_of(self.package_info@),
            pio_info: views_of(self.pio_info@),
            tile_info: views_of(self.tile_info@),
            speed_grades: views_of(self.speed_grades@),
        }
    }
}

} // verus!
