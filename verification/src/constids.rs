use vstd::prelude::*;

verus! {

/// The closed enumeration of functional primitive kinds of the
/// tile-template architecture.  A bel or wire kind field decodes as a
/// raw integer and must match one of these tags exactly; anything else
/// is an `UnknownTag` failure, never a default.
#[derive(Clone, Copy, Debug, PartialEq, Eq, Structural)]
pub enum ConstId {
    /// The empty identifier, tag zero.
    Blank,
    TrellisComb,
    TrellisFf,
    TrellisIo,
    Dcca,
    Dp16kd,
    Mult18x18d,
    Alu54b,
    Ehxplll,
    Dcua,
    Pcsclkdiv,
    Extrefb,
    Usrmclk,
    Sedga,
    Gsr,
    Jtagg,
    Oscg,
    Iologic,
    Siologic,
    TrellisSlice,
}

impl ConstId {
    /// The integer tag each kind is stored as.
    pub open spec fn spec_tag(self) -> u32 {
        match self {
            ConstId::Blank => 0,
            ConstId::TrellisComb => 1,
            ConstId::TrellisFf => 2,
            ConstId::TrellisIo => 3,
            ConstId::Dcca => 4,
            ConstId::Dp16kd => 5,
            ConstId::Mult18x18d => 6,
            ConstId::Alu54b => 7,
            ConstId::Ehxplll => 8,
            ConstId::Dcua => 9,
            ConstId::Pcsclkdiv => 10,
            ConstId::Extrefb => 11,
            ConstId::Usrmclk => 12,
            ConstId::Sedga => 13,
            ConstId::Gsr => 14,
            ConstId::Jtagg => 15,
            ConstId::Oscg => 16,
            ConstId::Iologic => 17,
            ConstId::Siologic => 18,
            ConstId::TrellisSlice => 19,
        }
    }

    /// The kind a stored tag stands for, if any.
    pub open spec fn spec_from_tag(tag: u32) -> Option<ConstId> {
        if tag == 0 {
            Some(ConstId::Blank)
        } else if tag == 1 {
            Some(ConstId::TrellisComb)
        } else if tag == 2 {
            Some(ConstId::TrellisFf)
        } else if tag == 3 {
            Some(ConstId::TrellisIo)
        } else if tag == 4 {
            Some(ConstId::Dcca)
        } else if tag == 5 {
            Some(ConstId::Dp16kd)
        } else if tag == 6 {
            Some(ConstId::Mult18x18d)
        } else if tag == 7 {
            Some(ConstId::Alu54b)
        } else if tag == 8 {
            Some(ConstId::Ehxplll)
        } else if tag == 9 {
            Some(ConstId::Dcua)
        } else if tag == 10 {
            Some(ConstId::Pcsclkdiv)
        } else if tag == 11 {
            Some(ConstId::Extrefb)
        } else if tag == 12 {
            Some(ConstId::Usrmclk)
        } else if tag == 13 {
            Some(ConstId::Sedga)
        } else if tag == 14 {
            Some(ConstId::Gsr)
        } else if tag == 15 {
            Some(ConstId::Jtagg)
        } else if tag == 16 {
            Some(ConstId::Oscg)
        } else if tag == 17 {
            Some(ConstId::Iologic)
        } else if tag == 18 {
            Some(ConstId::Siologic)
        } else if tag == 19 {
            Some(ConstId::TrellisSlice)
        } else {
            None
        }
    }

    pub fn from_tag(tag: u32) -> (r: Option<ConstId>)
        ensures
            r == ConstId::spec_from_tag(tag),
    {
        match tag {
            0 => Some(ConstId::Blank),
            1 => Some(ConstId::TrellisComb),
            2 => Some(ConstId::TrellisFf),
            3 => Some(ConstId::TrellisIo),
            4 => Some(ConstId::Dcca),
            5 => Some(ConstId::Dp16kd),
            6 => Some(ConstId::Mult18x18d),
            7 => Some(ConstId::Alu54b),
            8 => Some(ConstId::Ehxplll),
            9 => Some(ConstId::Dcua),
            10 => Some(ConstId::Pcsclkdiv),
            11 => Some(ConstId::Extrefb),
            12 => Some(ConstId::Usrmclk),
            13 => Some(ConstId::Sedga),
            14 => Some(ConstId::Gsr),
            15 => Some(ConstId::Jtagg),
            16 => Some(ConstId::Oscg),
            17 => Some(ConstId::Iologic),
            18 => Some(ConstId::Siologic),
            19 => Some(ConstId::TrellisSlice),
            _ => None,
        }
    }

    pub fn tag(self) -> (t: u32)
        ensures
            t == self.spec_tag(),
    {
        match self {
            ConstId::Blank => 0,
            ConstId::TrellisComb => 1,
            ConstId::TrellisFf => 2,
            ConstId::TrellisIo => 3,
            ConstId::Dcca => 4,
            ConstId::Dp16kd => 5,
            ConstId::Mult18x18d => 6,
            ConstId::Alu54b => 7,
            ConstId::Ehxplll => 8,
            ConstId::Dcua => 9,
            ConstId::Pcsclkdiv => 10,
            ConstId::Extrefb => 11,
            ConstId::Usrmclk => 12,
            ConstId::Sedga => 13,
            ConstId::Gsr => 14,
            ConstId::Jtagg => 15,
            ConstId::Oscg => 16,
            ConstId::Iologic => 17,
            ConstId::Siologic => 18,
            ConstId::TrellisSlice => 19,
        }
    }
}

/// A stored kind tag always round-trips through its kind.
pub proof fn lemma_const_id_tag_round_trip(c: ConstId)
    ensures
        ConstId::spec_from_tag(c.spec_tag()) == Some(c),
{
}

/// The closed enumeration of drawable tile wire classes of the
/// tile-template architecture.
#[derive(Clone, Copy, Debug, PartialEq, Eq, Structural)]
pub enum GfxTileWireId {
    /// No drawable wire, tag zero.
    TileWireNone,
    TileWireFco,
    TileWireFci,
    TileWireClk0,
    TileWireClk1,
    TileWireLsr0,
    TileWireLsr1,
    TileWireD7,
    TileWireDummyD2,
}

impl GfxTileWireId {
    /// The integer tag each wire class is stored as.
    pub open spec fn spec_tag(self) -> u32 {
        match self {
            GfxTileWireId::TileWireNone => 0,
            GfxTileWireId::TileWireFco => 1,
            GfxTileWireId::TileWireFci => 2,
            GfxTileWireId::TileWireClk0 => 3,
            GfxTileWireId::TileWireClk1 => 4,
            GfxTileWireId::TileWireLsr0 => 5,
            GfxTileWireId::TileWireLsr1 => 6,
            GfxTileWireId::TileWireD7 => 7,
            GfxTileWireId::TileWireDummyD2 => 8,
        }
    }

    /// The wire class a stored tag stands for, if any.
    pub open spec fn spec_from_tag(tag: u32) -> Option<GfxTileWireId> {
        if tag == 0 {
            Some(GfxTileWireId::TileWireNone)
        } else if tag == 1 {
            Some(GfxTileWireId::TileWireFco)
        } else if tag == 2 {
            Some(GfxTileWireId::TileWireFci)
        } else if tag == 3 {
            Some(GfxTileWireId::TileWireClk0)
        } else if tag == 4 {
            Some(GfxTileWireId::TileWireClk1)
        } else if tag == 5 {
            Some(GfxTileWireId::TileWireLsr0)
        } else if tag == 6 {
            Some(GfxTileWireId::TileWireLsr1)
        } else if tag == 7 {
            Some(GfxTileWireId::TileWireD7)
        } else if tag == 8 {
            Some(GfxTileWireId::TileWireDummyD2)
        } else {
            None
        }
    }

    pub fn from_tag(tag: u32) -> (r: Option<GfxTileWireId>)
        ensures
            r == GfxTileWireId::spec_from_tag(tag),
    {
        match tag {
            0 => Some(GfxTileWireId::TileWireNone),
            1 => Some(GfxTileWireId::TileWireFco),
            2 => Some(GfxTileWireId::TileWireFci),
            3 => Some(GfxTileWireId::TileWireClk0),
            4 => Some(GfxTileWireId::TileWireClk1),
            5 => Some(GfxTileWireId::TileWireLsr0),
            6 => Some(GfxTileWireId::TileWireLsr1),
            7 => Some(GfxTileWireId::TileWireD7),
            8 => Some(GfxTileWireId::TileWireDummyD2),
            _ => None,
        }
    }

    pub fn tag(self) -> (t: u32)
        ensures
            t == self.spec_tag(),
    {
        match self {
            GfxTileWireId::TileWireNone => 0,
            GfxTileWireId::TileWireFco => 1,
            GfxTileWireId::TileWireFci => 2,
            GfxTileWireId::TileWireClk0 => 3,
            GfxTileWireId::TileWireClk1 => 4,
            GfxTileWireId::TileWireLsr0 => 5,
            GfxTileWireId::TileWireLsr1 => 6,
            GfxTileWireId::TileWireD7 => 7,
            GfxTileWireId::TileWireDummyD2 => 8,
        }
    }
}

/// A stored wire class tag always round-trips through its class.
pub proof fn lemma_tile_wire_tag_round_trip(w: GfxTileWireId)
    ensures
        GfxTileWireId::spec_from_tag(w.spec_tag()) == Some(w),
{
}

} // verus!
