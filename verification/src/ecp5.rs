//! The tile-template schema: a deduplicated array of location-type
//! templates plus a width-by-height index array pointing into it.

pub mod codec;
pub mod decode;
pub mod minimized;
pub mod types;

pub use codec::{get_min_chipinfo, lemma_min_chip_round_trip, spec_dec_min_chip, spec_enc_min_chip, wf_min_chip};
pub use decode::{
    get_full_chipinfo, lemma_full_chipinfo_truncation_fails_closed, spec_full_chipinfo,
};
pub use minimized::{
    project_bel, project_chip, project_location_type, project_pip, project_wire,
    spec_project_bel, spec_project_chip, spec_project_location, spec_project_location_type,
    spec_project_pip, spec_project_wire, MinimizedBelInfoPOD, MinimizedBelInfoView,
    MinimizedChipInfoPOD, MinimizedChipInfoView, MinimizedLocationPOD, MinimizedLocationTypePOD,
    MinimizedLocationTypeView, MinimizedPipInfoPOD, MinimizedWireInfoPOD, MinimizedWireInfoView,
};
pub use types::{
    BelInfoPOD, BelInfoView, BelPortPOD, BelWirePOD, CellPropDelayPOD, CellSetupHoldPOD,
    CellTimingPOD, CellTimingView, ChipInfoPOD, ChipInfoView, GlobalInfoPOD, LocationPOD,
    LocationTypePOD, LocationTypeView, PIOInfoPOD, PIOInfoView, PackageInfoPOD, PackageInfoView,
    PackagePinPOD, PackagePinView, PipDelayPOD, PipInfoPOD, PipLocatorPOD, SpeedGradePOD,
    SpeedGradeView, TileInfoPOD, TileInfoView, TileNamePOD, TileNameView, WireInfoPOD,
    WireInfoView,
};
