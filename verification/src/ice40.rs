//! The flat schema: every bel, wire and pip carries absolute
//! per-element coordinates, with no tile-template deduplication.

pub mod codec;
pub mod decode;
pub mod minimized;
pub mod types;

pub use codec::{get_min_chipinfo, lemma_min_chip_round_trip, spec_dec_min_chip, spec_enc_min_chip, wf_min_chip};
pub use decode::{get_chipdb, lemma_chipdb_truncation_fails_closed, spec_chipdb};
pub use minimized::{
    project_bel, project_chip, project_pip, project_wire, spec_project_bel, spec_project_chip,
    spec_project_pip, spec_project_segment, spec_project_wire, MinimizedBelInfoPOD,
    MinimizedBelInfoView, MinimizedChipInfoPOD, MinimizedChipInfoView, MinimizedPipInfoPOD,
    MinimizedWireInfoPOD, MinimizedWireInfoView, MinimizedWireSegmentPOD,
};
pub use types::{
    BelConfigEntryPOD, BelConfigEntryView, BelConfigPOD, BelConfigView, BelInfoPOD, BelInfoView,
    BelPortPOD, BelWirePOD, BitstreamInfoPOD, BitstreamInfoView, CellPathDelayPOD, CellTimingPOD,
    CellTimingView, ChipInfoPOD, ChipInfoView, ConfigBitPOD, ConfigEntryPOD, ConfigEntryView,
    GlobalNetworkInfoPOD, IerenInfoPOD, PackageInfoPOD, PackageInfoView, PackagePinPOD,
    PackagePinView, PipInfoPOD, SwitchInfoPOD, SwitchInfoView, TileInfoPOD, TileInfoView,
    WireInfoPOD, WireInfoView, WireSegmentPOD,
};
