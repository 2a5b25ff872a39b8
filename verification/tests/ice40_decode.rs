use chipdb::ice40::{get_chipdb, project_chip, MinimizedChipInfoPOD};
use chipdb::DecodeError;

fn put_u32(v: &mut Vec<u8>, x: u32) {
    v.extend_from_slice(&x.to_le_bytes());
}

fn put_i32(v: &mut Vec<u8>, x: i32) {
    v.extend_from_slice(&x.to_le_bytes());
}

fn put_i16(v: &mut Vec<u8>, x: i16) {
    v.extend_from_slice(&x.to_le_bytes());
}

fn put_header(v: &mut Vec<u8>, off: i32, len: u32) {
    put_i32(v, off);
    put_u32(v, len);
}

const JUNK: i32 = 0x7FFF_FFF0;

/// A synthetic flat database: a single tile carrying one bel, one wire
/// with one segment and two uphill pips, and one pip.
///
/// Layout: root header at 0, the root record at 4..92, the bel at
/// 92..112, the wire at 112..164, the pip at 164..196, the tile grid
/// at 196..200, the bitstream record at 200..224, the wire segment at
/// 224..228, the uphill pip indices at 228..236, and the two name
/// strings at 236..243.
fn flat_buffer() -> Vec<u8> {
    let mut v: Vec<u8> = Vec::new();
    put_u32(&mut v, 4); // absolute offset of the root record
    put_i32(&mut v, 1); // width
    put_i32(&mut v, 1); // height
    put_u32(&mut v, 0); // num_switches
    put_header(&mut v, 92 - 16, 1); // bel_data -> 92
    put_header(&mut v, 112 - 24, 1); // wire_data -> 112
    put_header(&mut v, 164 - 32, 1); // pip_data -> 164
    put_header(&mut v, 196 - 40, 1); // tile_grid -> 196
    put_i32(&mut v, 200 - 48); // bits_info -> 200
    put_header(&mut v, JUNK, 0); // bel_config
    put_header(&mut v, JUNK, 0); // packages_data
    put_header(&mut v, JUNK, 0); // cell_timing
    put_header(&mut v, JUNK, 0); // global_network_info
    put_header(&mut v, JUNK, 0); // tile_wire_names
    assert_eq!(v.len(), 92);
    put_i32(&mut v, 236 - 92); // bel name -> 236
    put_i32(&mut v, 3); // bel kind
    put_header(&mut v, JUNK, 0); // bel_wires
    v.push(0x05); // x
    v.push(0x06); // y
    v.push(0x02); // z
    v.push(0x00); // padding_0
    assert_eq!(v.len(), 112);
    put_i32(&mut v, 240 - 112); // wire name -> 240
    v.push(0x01); // name_x
    v.push(0x01); // name_y
    put_i16(&mut v, 0); // padding
    put_header(&mut v, 228 - 120, 2); // pips_uphill -> 228
    put_header(&mut v, JUNK, 0); // pips_downhill
    put_header(&mut v, JUNK, 0); // bel_pins
    put_header(&mut v, 224 - 144, 1); // segments -> 224
    put_i32(&mut v, 100); // fast_delay
    put_i32(&mut v, 200); // slow_delay
    v.push(0x00); // x
    v.push(0x00); // y
    v.push(0x01); // z
    v.push(0x03); // kind
    assert_eq!(v.len(), 164);
    put_i32(&mut v, 7); // src
    put_i32(&mut v, 8); // dst
    put_i32(&mut v, 10); // fast_delay
    put_i32(&mut v, 20); // slow_delay
    v.push(0x00); // x
    v.push(0x00); // y
    put_i16(&mut v, 1); // src_seg
    put_i16(&mut v, 2); // dst_seg
    put_i16(&mut v, 0); // switch_mask
    put_i32(&mut v, 0); // switch_index
    put_u32(&mut v, 0); // pip_flags
    assert_eq!(v.len(), 196);
    put_u32(&mut v, 1); // tile_grid[0]
    assert_eq!(v.len(), 200);
    put_header(&mut v, JUNK, 0); // tiles_nonrouting
    put_header(&mut v, JUNK, 0); // switches
    put_header(&mut v, JUNK, 0); // ierens
    assert_eq!(v.len(), 224);
    v.push(0x01); // segment x
    v.push(0x02); // segment y
    put_i16(&mut v, 300); // segment index
    assert_eq!(v.len(), 228);
    put_i32(&mut v, 5); // pips_uphill[0]
    put_i32(&mut v, -7); // pips_uphill[1]
    assert_eq!(v.len(), 236);
    v.extend_from_slice(b"IO1\0");
    v.extend_from_slice(b"W0\0");
    assert_eq!(v.len(), 243);
    v
}

#[test]
fn decodes_flat_database() {
    let chip = get_chipdb(&flat_buffer()).expect("valid buffer must decode");
    assert_eq!(chip.width, 1);
    let _arch = chipdb::ICE40Arch::new(get_chipdb(&flat_buffer()).unwrap());
    assert_eq!(chip.height, 1);
    assert_eq!(chip.num_switches, 0);
    assert_eq!(chip.bel_data.len(), 1);
    assert_eq!(chip.bel_data[0].name, "IO1");
    assert_eq!(chip.bel_data[0].kind, 3);
    assert_eq!(chip.bel_data[0].x, 5);
    assert_eq!(chip.bel_data[0].y, 6);
    assert_eq!(chip.bel_data[0].z, 2);
    assert_eq!(chip.wire_data.len(), 1);
    assert_eq!(chip.wire_data[0].name, "W0");
    assert_eq!(chip.wire_data[0].pips_uphill, vec![5, -7]);
    assert_eq!(chip.wire_data[0].segments.len(), 1);
    assert_eq!(chip.wire_data[0].segments[0].index, 300);
    assert_eq!(chip.wire_data[0].fast_delay, 100);
    assert_eq!(chip.pip_data.len(), 1);
    assert_eq!(chip.pip_data[0].src, 7);
    assert_eq!(chip.pip_data[0].dst, 8);
    assert_eq!(chip.pip_data[0].src_seg, 1);
    assert_eq!(chip.tile_grid, vec![1]);
    assert_eq!(chip.bits_info.switches.len(), 0);
}

#[test]
fn flat_truncation_at_early_offsets_yields_truncated() {
    let buf = flat_buffer();
    // Up to the start of the trailing name strings every truncation
    // starves a bounds-checked read.
    for k in 0..236 {
        assert_eq!(
            get_chipdb(&buf[..k]),
            Err(DecodeError::Truncated),
            "truncation at {} must fail with Truncated",
            k
        );
    }
}

#[test]
fn flat_minimized_round_trip_preserves_projection() {
    let chip = get_chipdb(&flat_buffer()).expect("valid buffer must decode");
    let min = project_chip(&chip);
    let blob = min.encode();
    assert!(!blob.is_empty());
    let back = MinimizedChipInfoPOD::decode(&blob).expect("own encoding must decode");
    assert_eq!(back, min);
}

#[test]
fn flat_projection_keeps_whitelisted_fields_only() {
    let chip = get_chipdb(&flat_buffer()).expect("valid buffer must decode");
    let min = project_chip(&chip);
    assert_eq!(min.width, 1);
    assert_eq!(min.height, 1);
    assert_eq!(min.bel_data.len(), 1);
    assert_eq!(min.bel_data[0].name, "IO1");
    assert_eq!(min.bel_data[0].kind, 3);
    assert_eq!(min.bel_data[0].x, 5);
    assert_eq!(min.wire_data[0].name, "W0");
    assert_eq!(min.wire_data[0].segments.len(), 1);
    assert_eq!(min.wire_data[0].segments[0].index, 300);
    assert_eq!(min.pip_data[0].src, 7);
    assert_eq!(min.pip_data[0].dst_seg, 2);
    assert_eq!(min.tile_grid, vec![1]);
}
