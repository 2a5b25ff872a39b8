use vstd::prelude::*;
use crate::ice40::types::{
    BelInfoPOD, BelInfoView, ChipInfoPOD, ChipInfoView, PipInfoPOD, WireInfoPOD, WireInfoView,
    WireSegmentPOD,
};
use crate::reltypes::views_of;

verus! {

/// A bel of the reduced schema: name, kind and coordinates only.
#[derive(Debug, PartialEq)]
pub struct MinimizedBelInfoPOD {
    pub name: String,
    pub kind: i32,
    pub x: i8,
    pub y: i8,
    pub z: i8,
}

pub struct MinimizedBelInfoView {
    pub name: Seq<char>,
    pub kind: i32,
    pub x: i8,
    pub y: i8,
    pub z: i8,
}

impl View for MinimizedBelInfoPOD {
    type V = MinimizedBelInfoView;

    open spec fn view(&self) -> MinimizedBelInfoView {
        MinimizedBelInfoView { name: self.name@, kind: self.kind, x: self.x, y: self.y, z: self.z }
    }
}

/// A wire segment of the reduced schema.
#[derive(Clone, Copy, Debug, PartialEq, Eq, Structural)]
pub struct MinimizedWireSegmentPOD {
    pub x: i8,
    pub y: i8,
    pub index: i16,
}

impl View for MinimizedWireSegmentPOD {
    type V = MinimizedWireSegmentPOD;

    open spec fn view(&self) -> MinimizedWireSegmentPOD {
        *self
    }
}

/// A wire of the reduced schema: name, segments and coordinates only.
#[derive(Debug, PartialEq)]
pub struct MinimizedWireInfoPOD {
    pub name: String,
    pub segments: Vec<MinimizedWireSegmentPOD>,
    pub x: i8,
    pub y: i8,
}

pub struct MinimizedWireInfoView {
    pub name: Seq<char>,
    pub segments: Seq<MinimizedWireSegmentPOD>,
    pub x: i8,
    pub y: i8,
}

impl View for MinimizedWireInfoPOD {
    type V = MinimizedWireInfoView;

    open spec fn view(&self) -> MinimizedWireInfoView {
        MinimizedWireInfoView {
            name: self.name@,
            segments: views_of(self.segments@),
            x: self.x,
            y: self.y,
        }
    }
}

/// A pip of the reduced schema: endpoints and segments only.
#[derive(Clone, Copy, Debug, PartialEq, Eq, Structural)]
pub struct MinimizedPipInfoPOD {
    pub src: i32,
    pub dst: i32,
    pub x: i8,
    pub y: i8,
    pub src_seg: i16,
    pub dst_seg: i16,
}

impl View for MinimizedPipInfoPOD {
    type V = MinimizedPipInfoPOD;

    open spec fn view(&self) -> MinimizedPipInfoPOD {
        *self
    }
}

/// The reduced root aggregate of the flat schema.
#[derive(Debug, PartialEq)]
pub struct MinimizedChipInfoPOD {
    pub width: i32,
    pub height: i32,
    pub bel_data: Vec<MinimizedBelInfoPOD>,
    pub wire_data: Vec<MinimizedWireInfoPOD>,
    pub pip_data: Vec<MinimizedPipInfoPOD>,
    pub tile_grid: Vec<u32>,
}

pub struct MinimizedChipInfoView {
    pub width: i32,
    pub height: i32,
    pub bel_data: Seq<MinimizedBelInfoView>,
    pub wire_data: Seq<MinimizedWireInfoView>,
    pub pip_data: Seq<MinimizedPipInfoPOD>,
    pub tile_grid: Seq<u32>,
}

impl View for MinimizedChipInfoPOD {
    type V = MinimizedChipInfoView;

    open spec fn view(&self) -> MinimizedChipInfoView {
        MinimizedChipInfoView {
            width: self.width,
            height: self.height,
            bel_data: views_of(self.bel_data@),
            wire_data: views_of(self.wire_data@),
            pip_data: views_of(self.pip_data@),
            tile_grid: self.tile_grid@,
        }
    }
}

/// The whitelisted fields of a flat bel.
pub open spec fn spec_project_bel(b: BelInfoView) -> MinimizedBelInfoView {
    MinimizedBelInfoView { name: b.name, kind: b.kind, x: b.x, y: b.y, z: b.z }
}

/// The whitelisted fields of a wire segment.
pub open spec fn spec_project_segment(s: WireSegmentPOD) -> MinimizedWireSegmentPOD {
    MinimizedWireSegmentPOD { x: s.x, y: s.y, index: s.index }
}

/// The whitelisted fields of a flat wire.
pub open spec fn spec_project_wire(w: WireInfoView) -> MinimizedWireInfoView {
    MinimizedWireInfoView {
        name: w.name,
        segments: w.segments.map_values(|s: WireSegmentPOD| spec_project_segment(s)),
        x: w.x,
        y: w.y,
    }
}

/// The whitelisted fields of a flat pip.
pub open spec fn spec_project_pip(p: PipInfoPOD) -> MinimizedPipInfoPOD {
    MinimizedPipInfoPOD {
        src: p.src,
        dst: p.dst,
        x: p.x,
        y: p.y,
        src_seg: p.src_seg,
        dst_seg: p.dst_seg,
    }
}

/// The whitelisted fields of a flat chip: the reduced schema keeps the
/// grid dimensions, the bel, wire and pip tables and the tile kind
/// grid, and drops the auxiliary tables.
pub open spec fn spec_project_chip(c: ChipInfoView) -> MinimizedChipInfoView {
    MinimizedChipInfoView {
        width: c.width,
        height: c.height,
        bel_data: c.bel_data.map_values(|b: BelInfoView| spec_project_bel(b)),
        wire_data: c.wire_data.map_values(|w: WireInfoView| spec_project_wire(w)),
        pip_data: c.pip_data.map_values(|p: PipInfoPOD| spec_project_pip(p)),
        tile_grid: c.tile_grid,
    }
}

/// Projects one bel to its reduced form.
pub fn project_bel(b: &BelInfoPOD) -> (r: MinimizedBelInfoPOD)
    ensures
        r@ == spec_project_bel(b@),
{
    MinimizedBelInfoPOD { name: b.name.clone(), kind: b.kind, x: b.x, y: b.y, z: b.z }
}

/// Projects one wire to its reduced form.
pub fn project_wire(w: &WireInfoPOD) -> (r: MinimizedWireInfoPOD)
    ensures
        r@ == spec_project_wire(w@),
{
    let mut segments: Vec<MinimizedWireSegmentPOD> = Vec::new();
    let mut i: usize = 0;
    while i < w.segments.len()
        invariant
            i <= w.segments.len(),
            segments@.len() == i,
            forall|j: int| 0 <= j < i ==> segments@[j]@ == spec_project_segment(
                #[trigger] w.segments@[j]@,
            ),
        decreases w.segments.len() - i,
    {
        let s = &w.segments[i];
        segments.push(MinimizedWireSegmentPOD { x: s.x, y: s.y, index: s.index });
        i = i + 1;
    }
    let r = MinimizedWireInfoPOD { name: w.name.clone(), segments, x: w.x, y: w.y };
    proof {
        assert(r@.segments =~= w@.segments.map_values(
            |s: WireSegmentPOD| spec_project_segment(s),
        ));
    }
    r
}

/// Projects one pip to its reduced form.
pub fn project_pip(p: &PipInfoPOD) -> (r: MinimizedPipInfoPOD)
    ensures
        r@ == spec_project_pip(p@),
{
    MinimizedPipInfoPOD {
        src: p.src,
        dst: p.dst,
        x: p.x,
        y: p.y,
        src_seg: p.src_seg,
        dst_seg: p.dst_seg,
    }
}

/// Projects a full flat chip to its reduced form.  Projection is total
/// and pure: it reads only the already materialized records, never the
/// original buffer.
pub fn project_chip(c: &ChipInfoPOD) -> (r: MinimizedChipInfoPOD)
    ensures
        r@ == spec_project_chip(c@),
{
    let mut bel_data: Vec<MinimizedBelInfoPOD> = Vec::new();
    let mut i: usize = 0;
    while i < c.bel_data.len()
        invariant
            i <= c.bel_data.len(),
            bel_data@.len() == i,
            forall|j: int| 0 <= j < i ==> bel_data@[j]@ == spec_project_bel(
                #[trigger] c.bel_data@[j]@,
            ),
        decreases c.bel_data.len() - i,
    {
        bel_data.push(project_bel(&c.bel_data[i]));
        i = i + 1;
    }
    let mut wire_data: Vec<MinimizedWireInfoPOD> = Vec::new();
    let mut k: usize = 0;
    while k < c.wire_data.len()
        invariant
            k <= c.wire_data.len(),
            wire_data@.len() == k,
            forall|j: int| 0 <= j < k ==> wire_data@[j]@ == spec_project_wire(
                #[trigger] c.wire_data@[j]@,
            ),
        decreases c.wire_data.len() - k,
    {
        wire_data.push(project_wire(&c.wire_data[k]));
        k = k + 1;
    }
    let mut pip_data: Vec<MinimizedPipInfoPOD> = Vec::new();
    let mut m: usize = 0;
    while m < c.pip_data.len()
        invariant
            m <= c.pip_data.len(),
            pip_data@.len() == m,
            forall|j: int| 0 <= j < m ==> pip_data@[j]@ == spec_project_pip(
                #[trigger] c.pip_data@[j]@,
            ),
        decreases c.pip_data.len() - m,
    {
        pip_data.push(project_pip(&c.pip_data[m]));
        m = m + 1;
    }
    let mut tile_grid: Vec<u32> = Vec::new();
    let mut t: usize = 0;
    while t < c.tile_grid.len()
        invariant
            t <= c.tile_grid.len(),
            tile_grid@ =~= c.tile_grid@.subrange(0, t as int),
        decreases c.tile_grid.len() - t,
    {
        tile_grid.push(c.tile_grid[t]);
        t = t + 1;
    }
    let r = MinimizedChipInfoPOD { width: c.width, height: c.height, bel_data, wire_data, pip_data, tile_grid };
    proof {
        assert(r@.bel_data =~= c@.bel_data.map_values(|b: BelInfoView| spec_project_bel(b)));
        assert(r@.wire_data =~= c@.wire_data.map_values(|w: WireInfoView| spec_project_wire(w)));
        assert(r@.pip_data =~= c@.pip_data.map_values(|p: PipInfoPOD| spec_project_pip(p)));
        assert(r@.tile_grid =~= c@.tile_grid);
    }
    r
}

} // verus!
