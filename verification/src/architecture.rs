use vstd::prelude::*;
use crate::ecp5;
use crate::ice40;

verus! {

/// Owns a decoded tile-template chip database on behalf of the drawing
/// layer, which walks it as plain data.
pub struct ECP5Arch {
    chipdb: ecp5::ChipInfoPOD,
}

impl ECP5Arch {
    /// The chip the architecture was built around.
    pub closed spec fn chip(&self) -> ecp5::ChipInfoView {
        self.chipdb@
    }

    pub fn new(chipdb: ecp5::ChipInfoPOD) -> (a: ECP5Arch)
        ensures
            a.chip() == chipdb@,
    {
        ECP5Arch { chipdb }
    }
}

/// Owns a decoded flat chip database on behalf of the drawing layer,
/// which walks it as plain data.
pub struct ICE40Arch {
    chipdb: ice40::ChipInfoPOD,
}

impl ICE40Arch {
    /// The chip the architecture was built around.
    pub closed spec fn chip(&self) -> ice40::ChipInfoView {
        self.chipdb@
    }

    pub fn new(chipdb: ice40::ChipInfoPOD) -> (a: ICE40Arch)
        ensures
            a.chip() == chipdb@,
    {
        ICE40Arch { chipdb }
    }
}

} // verus!
