use vstd::prelude::*;
use crate::constids::{ConstId, GfxTileWireId};
use crate::ecp5::types::{
    BelInfoPOD, BelInfoView, ChipInfoPOD, ChipInfoView, LocationPOD, LocationTypePOD,
    LocationTypeView, PipInfoPOD, WireInfoPOD, WireInfoView,
};
use crate::reltypes::views_of;

verus! {

/// A tile coordinate pair of the reduced schema.
#[derive(Clone, Copy, Debug, PartialEq, Eq, Structural)]
pub struct MinimizedLocationPOD {
    pub x: i16,
    pub y: i16,
}

impl View for MinimizedLocationPOD {
    type V = MinimizedLocationPOD;

    open spec fn view(&self) -> MinimizedLocationPOD {
        *self
    }
}

/// A bel of the reduced schema: name, kind and stacking index only.
#[derive(Debug, PartialEq)]
pub struct MinimizedBelInfoPOD {
    pub name: String,
    pub kind: ConstId,
    pub z: i32,
}

pub struct MinimizedBelInfoView {
    pub name: Seq<char>,
    pub kind: ConstId,
    pub z: i32,
}

impl View for MinimizedBelInfoPOD {
    type V = MinimizedBelInfoView;

    open spec fn view(&self) -> MinimizedBelInfoView {
        MinimizedBelInfoView { name: self.name@, kind: self.kind, z: self.z }
    }
}

/// A wire of the reduced schema.
#[derive(Debug, PartialEq)]
pub struct MinimizedWireInfoPOD {
    pub name: String,
    pub kind: ConstId,
    pub tile_wire: GfxTileWireId,
}

pub struct MinimizedWireInfoView {
    pub name: Seq<char>,
    pub kind: ConstId,
    pub tile_wire: GfxTileWireId,
}

impl View for MinimizedWireInfoPOD {
    type V = MinimizedWireInfoView;

    open spec fn view(&self) -> MinimizedWireInfoView {
        MinimizedWireInfoView { name: self.name@, kind: self.kind, tile_wire: self.tile_wire }
    }
}

/// A pip of the reduced schema: endpoints only.
#[derive(Clone, Copy, Debug, PartialEq, Eq, Structural)]
pub struct MinimizedPipInfoPOD {
    pub rel_src_loc: MinimizedLocationPOD,
    pub rel_dst_loc: MinimizedLocationPOD,
    pub src_idx: i16,
    pub dst_idx: i16,
}

impl View for MinimizedPipInfoPOD {
    type V = MinimizedPipInfoPOD;

    open spec fn view(&self) -> MinimizedPipInfoPOD {
        *self
    }
}

/// A tile template of the reduced schema.
#[derive(Debug, PartialEq)]
pub struct MinimizedLocationTypePOD {
    pub bel_data: Vec<MinimizedBelInfoPOD>,
    pub wire_data: Vec<MinimizedWireInfoPOD>,
    pub pip_data: Vec<MinimizedPipInfoPOD>,
}

pub struct MinimizedLocationTypeView {
    pub bel_data: Seq<MinimizedBelInfoView>,
    pub wire_data: Seq<MinimizedWireInfoView>,
    pub pip_data: Seq<MinimizedPipInfoPOD>,
}

impl View for MinimizedLocationTypePOD {
    type V = MinimizedLocationTypeView;

    open spec fn view(&self) -> MinimizedLocationTypeView {
        MinimizedLocationTypeView {
            bel_data: views_of(self.bel_data@),
            wire_data: views_of(self.wire_data@),
            pip_data: views_of(self.pip_data@),
        }
    }
}

/// The reduced root aggregate: an independently owned copy of the
/// whitelisted fields, with no dependency on the original buffer.
#[derive(Debug, PartialEq)]
pub struct MinimizedChipInfoPOD {
    pub width: i32,
    pub height: i32,
    pub num_tiles: i32,
    pub locations: Vec<MinimizedLocationTypePOD>,
    pub location_type: Vec<i32>,
}

pub struct MinimizedChipInfoView {
    pub width: i32,
    pub height: i32,
    pub num_tiles: i32,
    pub locations: Seq<MinimizedLocationTypeView>,
    pub location_type: Seq<i32>,
}

impl View for MinimizedChipInfoPOD {
    type V = MinimizedChipInfoView;

    open spec fn view(&self) -> MinimizedChipInfoView {
        MinimizedChipInfoView {
            width: self.width,
            height: self.height,
            num_tiles: self.num_tiles,
            locations: views_of(self.locations@),
            location_type: self.location_type@,
        }
    }
}

/// The whitelisted fields of a full location.
pub open spec fn spec_project_location(l: LocationPOD) -> MinimizedLocationPOD {
    MinimizedLocationPOD { x: l.x, y: l.y }
}

/// The whitelisted fields of a full bel.
pub open spec fn spec_project_bel(b: BelInfoView) -> MinimizedBelInfoView {
    MinimizedBelInfoView { name: b.name, kind: b.kind, z: b.z }
}

/// The whitelisted fields of a full wire.
pub open spec fn spec_project_wire(w: WireInfoView) -> MinimizedWireInfoView {
    MinimizedWireInfoView { name: w.name, kind: w.kind, tile_wire: w.tile_wire }
}

/// The whitelisted fields of a full pip.
pub open spec fn spec_project_pip(p: PipInfoPOD) -> MinimizedPipInfoPOD {
    MinimizedPipInfoPOD {
        rel_src_loc: spec_project_location(p.rel_src_loc),
        rel_dst_loc: spec_project_location(p.rel_dst_loc),
        src_idx: p.src_idx,
        dst_idx: p.dst_idx,
    }
}

/// The whitelisted fields of a full tile template, each container
/// projected element by element.
pub open spec fn spec_project_location_type(l: LocationTypeView) -> MinimizedLocationTypeView {
    MinimizedLocationTypeView {
        bel_data: l.bel_data.map_values(|b: BelInfoView| spec_project_bel(b)),
        wire_data: l.wire_data.map_values(|w: WireInfoView| spec_project_wire(w)),
        pip_data: l.pip_data.map_values(|p: PipInfoPOD| spec_project_pip(p)),
    }
}

/// The whitelisted fields of a full chip: the reduced schema keeps the
/// grid dimensions, the tile templates and the template index of every
/// tile, and drops the auxiliary tables.
pub open spec fn spec_project_chip(c: ChipInfoView) -> MinimizedChipInfoView {
    MinimizedChipInfoView {
        width: c.width,
        height: c.height,
        num_tiles: c.num_tiles,
        locations: c.locations.map_values(|l: LocationTypeView| spec_project_location_type(l)),
        location_type: c.location_type,
    }
}

/// Projects one bel to its reduced form.
pub fn project_bel(b: &BelInfoPOD) -> (r: MinimizedBelInfoPOD)
    ensures
        r@ == spec_project_bel(b@),
{
    MinimizedBelInfoPOD { name: b.name.clone(), kind: b.kind, z: b.z }
}

/// Projects one wire to its reduced form.
pub fn project_wire(w: &WireInfoPOD) -> (r: MinimizedWireInfoPOD)
    ensures
        r@ == spec_project_wire(w@),
{
    MinimizedWireInfoPOD { name: w.name.clone(), kind: w.kind, tile_wire: w.tile_wire }
}

/// Projects one pip to its reduced form.
pub fn project_pip(p: &PipInfoPOD) -> (r: MinimizedPipInfoPOD)
    ensures
        r@ == spec_project_pip(p@),
{
    MinimizedPipInfoPOD {
        rel_src_loc: MinimizedLocationPOD { x: p.rel_src_loc.x, y: p.rel_src_loc.y },
        rel_dst_loc: MinimizedLocationPOD { x: p.rel_dst_loc.x, y: p.rel_dst_loc.y },
        src_idx: p.src_idx,
        dst_idx: p.dst_idx,
    }
}

/// Projects one tile template to its reduced form.
pub fn project_location_type(l: &LocationTypePOD) -> (r: MinimizedLocationTypePOD)
    ensures
        r@ == spec_project_location_type(l@),
{
    let mut bel_data: Vec<MinimizedBelInfoPOD> = Vec::new();
    let mut i: usize = 0;
    while i < l.bel_data.len()
        invariant
            i <= l.bel_data.len(),
            bel_data@.len() == i,
            forall|j: int| 0 <= j < i ==> bel_data@[j]@ == spec_project_bel(#[trigger] l.bel_data@[j]@),
        decreases l.bel_data.len() - i,
    {
        bel_data.push(project_bel(&l.bel_data[i]));
        i = i + 1;
    }
    let mut wire_data: Vec<MinimizedWireInfoPOD> = Vec::new();
    let mut k: usize = 0;
    while k < l.wire_data.len()
        invariant
            k <= l.wire_data.len(),
            wire_data@.len() == k,
            forall|j: int| 0 <= j < k ==> wire_data@[j]@ == spec_project_wire(#[trigger] l.wire_data@[j]@),
        decreases l.wire_data.len() - k,
    {
        wire_data.push(project_wire(&l.wire_data[k]));
        k = k + 1;
    }
    let mut pip_data: Vec<MinimizedPipInfoPOD> = Vec::new();
    let mut m: usize = 0;
    while m < l.pip_data.len()
        invariant
            m <= l.pip_data.len(),
            pip_data@.len() == m,
            forall|j: int| 0 <= j < m ==> pip_data@[j]@ == spec_project_pip(#[trigger] l.pip_data@[j]@),
        decreases l.pip_data.len() - m,
    {
        pip_data.push(project_pip(&l.pip_data[m]));
        m = m + 1;
    }
    let r = MinimizedLocationTypePOD { bel_data, wire_data, pip_data };
    proof {
        assert(r@.bel_data =~= l@.bel_data.map_values(|b: BelInfoView| spec_project_bel(b)));
        assert(r@.wire_data =~= l@.wire_data.map_values(|w: WireInfoView| spec_project_wire(w)));
        assert(r@.pip_data =~= l@.pip_data.map_values(|p: PipInfoPOD| spec_project_pip(p)));
    }
    r
}

/// Projects a full chip to its reduced form.  Projection is total and
/// pure: it reads only the already materialized records, never the
/// original buffer.
pub fn project_chip(c: &ChipInfoPOD) -> (r: MinimizedChipInfoPOD)
    ensures
        r@ == spec_project_chip(c@),
{
    let mut locations: Vec<MinimizedLocationTypePOD> = Vec::new();
    let mut i: usize = 0;
    while i < c.locations.len()
        invariant
            i <= c.locations.len(),
            locations@.len() == i,
            forall|j: int| 0 <= j < i ==> locations@[j]@ == spec_project_location_type(
                #[trigger] c.locations@[j]@,
            ),
        decreases c.locations.len() - i,
    {
        locations.push(project_location_type(&c.locations[i]));
        i = i + 1;
    }
    let mut location_type: Vec<i32> = Vec::new();
    let mut k: usize = 0;
    while k < c.location_type.len()
        invariant
            k <= c.location_type.len(),
            location_type@ =~= c.location_type@.subrange(0, k as int),
        decreases c.location_type.len() - k,
    {
        location_type.push(c.location_type[k]);
        k = k + 1;
    }
    let r = MinimizedChipInfoPOD {
        width: c.width,
        height: c.height,
        num_tiles: c.num_tiles,
        locations,
        location_type,
    };
    proof {
        assert(r@.locations =~= c@.locations.map_values(
            |l: LocationTypeView| spec_project_location_type(l),
        ));
        assert(r@.location_type =~= c@.location_type);
    }
    r
}

} // verus!
