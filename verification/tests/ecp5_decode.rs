use chipdb::ecp5::{get_full_chipinfo, project_chip, MinimizedChipInfoPOD};
use chipdb::{ConstId, DecodeError};

fn push_u32(v: &mut Vec<u8>, x: u32) {
    v.extend_from_slice(&x.to_le_bytes());
}

fn push_i32(v: &mut Vec<u8>, x: i32) {
    v.extend_from_slice(&x.to_le_bytes());
}

/// A slice header `(offset, length)`.
fn push_slice_header(v: &mut Vec<u8>, off: i32, len: u32) {
    push_i32(v, off);
    push_u32(v, len);
}

const GARBAGE: i32 = 0x7FFF_FFF0;

/// A synthetic tile-template database: a 2 by 2 grid of four tiles, all
/// sharing one location type that holds a single bel named "LUT4".
/// Every zero-length slice header carries a garbage offset on purpose.
///
/// Layout: root header at 0, the root record at 4..84, the location
/// type at 84..108, the bel at 108..128, the name string at 128..133,
/// and the four-entry location-type index array at 133..149.
fn scenario_buffer(name_offset: i32, bel_tag: u32) -> Vec<u8> {
    let mut v: Vec<u8> = Vec::new();
    push_u32(&mut v, 4); // absolute offset of the root record
    assert_eq!(v.len(), 4);
    push_i32(&mut v, 2); // width
    push_i32(&mut v, 2); // height
    push_i32(&mut v, 4); // num_tiles
    push_i32(&mut v, 20); // const_id_count
    push_slice_header(&mut v, 84 - 20, 1); // locations -> 84
    push_slice_header(&mut v, 133 - 28, 4); // location_type -> 133
    push_slice_header(&mut v, GARBAGE, 0); // location_glbinfo
    push_slice_header(&mut v, GARBAGE, 0); // tiletype_names
    push_slice_header(&mut v, GARBAGE, 0); // package_info
    push_slice_header(&mut v, GARBAGE, 0); // pio_info
    push_slice_header(&mut v, GARBAGE, 0); // tile_info
    push_slice_header(&mut v, GARBAGE, 0); // speed_grades
    assert_eq!(v.len(), 84);
    push_slice_header(&mut v, 108 - 84, 1); // bel_data -> 108
    push_slice_header(&mut v, GARBAGE, 0); // wire_data
    push_slice_header(&mut v, GARBAGE, 0); // pip_data
    assert_eq!(v.len(), 108);
    push_i32(&mut v, name_offset); // name -> 128 when 20
    push_u32(&mut v, bel_tag); // bel kind tag
    push_i32(&mut v, 0); // z
    push_slice_header(&mut v, GARBAGE, 0); // bel_wires
    assert_eq!(v.len(), 128);
    v.extend_from_slice(b"LUT4\0");
    assert_eq!(v.len(), 133);
    for _ in 0..4 {
        push_i32(&mut v, 0); // location_type entries
    }
    assert_eq!(v.len(), 149);
    v
}

#[test]
fn decodes_two_by_two_grid_with_one_lut() {
    let buf = scenario_buffer(20, 1);
    let chip = get_full_chipinfo(&buf).expect("valid buffer must decode");
    assert_eq!(chip.width, 2);
    let _arch = chipdb::ECP5Arch::new(get_full_chipinfo(&buf).unwrap());
    assert_eq!(chip.height, 2);
    assert_eq!(chip.num_tiles, 4);
    assert_eq!(chip.locations.len(), 1);
    assert_eq!(chip.locations[0].bel_data.len(), 1);
    assert_eq!(chip.locations[0].bel_data[0].name, "LUT4");
    assert_eq!(chip.locations[0].bel_data[0].kind, ConstId::TrellisComb);
    assert_eq!(chip.locations[0].bel_data[0].z, 0);
    assert_eq!(chip.location_type, vec![0, 0, 0, 0]);
}

#[test]
fn slice_lengths_match_headers() {
    let buf = scenario_buffer(20, 1);
    let chip = get_full_chipinfo(&buf).expect("valid buffer must decode");
    // Every slice holds exactly as many records as its header stated.
    assert_eq!(chip.locations.len(), 1);
    assert_eq!(chip.location_type.len(), 4);
    assert_eq!(chip.locations[0].bel_data.len(), 1);
    assert_eq!(chip.locations[0].wire_data.len(), 0);
    assert_eq!(chip.locations[0].pip_data.len(), 0);
    assert_eq!(chip.location_glbinfo.len(), 0);
    assert_eq!(chip.tiletype_names.len(), 0);
    assert_eq!(chip.package_info.len(), 0);
    assert_eq!(chip.pio_info.len(), 0);
    assert_eq!(chip.tile_info.len(), 0);
    assert_eq!(chip.speed_grades.len(), 0);
}

#[test]
fn zero_length_slices_ignore_garbage_offsets() {
    // Every zero-length header in the scenario buffer carries an offset
    // far outside the buffer; decode must succeed without seeking.
    let buf = scenario_buffer(20, 1);
    assert!(get_full_chipinfo(&buf).is_ok());
}

#[test]
fn sentinel_string_target_decodes_to_empty_name() {
    // The name header stands at 108; an offset of -109 puts the
    // computed target at the reserved -1 sentinel.
    let buf = scenario_buffer(-109, 1);
    let chip = get_full_chipinfo(&buf).expect("sentinel name must decode");
    assert_eq!(chip.locations[0].bel_data[0].name, "");
}

#[test]
fn unknown_bel_kind_tag_fails_with_unknown_tag() {
    let buf = scenario_buffer(20, 9999);
    assert_eq!(get_full_chipinfo(&buf), Err(DecodeError::UnknownTag(9999)));
}

#[test]
fn truncation_at_any_offset_yields_truncated() {
    let buf = scenario_buffer(20, 1);
    assert!(get_full_chipinfo(&buf).is_ok());
    for k in 0..buf.len() {
        assert_eq!(
            get_full_chipinfo(&buf[..k]),
            Err(DecodeError::Truncated),
            "truncation at {} must fail with Truncated",
            k
        );
    }
}

#[test]
fn empty_buffer_is_truncated() {
    assert_eq!(get_full_chipinfo(&[]), Err(DecodeError::Truncated));
}

#[test]
fn root_offset_past_end_is_truncated() {
    let mut v: Vec<u8> = Vec::new();
    push_u32(&mut v, 1000);
    assert_eq!(get_full_chipinfo(&v), Err(DecodeError::Truncated));
}

#[test]
fn minimized_round_trip_preserves_projection() {
    let buf = scenario_buffer(20, 1);
    let chip = get_full_chipinfo(&buf).expect("valid buffer must decode");
    let min = project_chip(&chip);
    let blob = min.encode();
    assert!(!blob.is_empty());
    let back = MinimizedChipInfoPOD::decode(&blob).expect("own encoding must decode");
    assert_eq!(back, min);
}

#[test]
fn projection_keeps_whitelisted_fields_only() {
    let buf = scenario_buffer(20, 1);
    let chip = get_full_chipinfo(&buf).expect("valid buffer must decode");
    let min = project_chip(&chip);
    assert_eq!(min.width, 2);
    assert_eq!(min.height, 2);
    assert_eq!(min.num_tiles, 4);
    assert_eq!(min.locations.len(), 1);
    assert_eq!(min.locations[0].bel_data[0].name, "LUT4");
    assert_eq!(min.locations[0].bel_data[0].kind, ConstId::TrellisComb);
    assert_eq!(min.location_type, vec![0, 0, 0, 0]);
}

/// A variant with one wire and one pip in the template, exercising the
/// sign-extended 16-bit kind tags and the two big-endian pip fields.
fn wire_pip_buffer(wire_tag: i16) -> Vec<u8> {
    let mut v: Vec<u8> = Vec::new();
    push_u32(&mut v, 4);
    push_i32(&mut v, 3); // width
    push_i32(&mut v, 1); // height
    push_i32(&mut v, 3); // num_tiles
    push_i32(&mut v, 20); // const_id_count
    push_slice_header(&mut v, 84 - 20, 1); // locations -> 84
    push_slice_header(&mut v, 164 - 28, 3); // location_type -> 164
    for _ in 0..6 {
        push_slice_header(&mut v, GARBAGE, 0);
    }
    assert_eq!(v.len(), 84);
    push_slice_header(&mut v, GARBAGE, 0); // bel_data
    push_slice_header(&mut v, 108 - 92, 1); // wire_data -> 108
    push_slice_header(&mut v, 140 - 100, 1); // pip_data -> 140
    assert_eq!(v.len(), 108);
    push_i32(&mut v, 160 - 108); // wire name -> 160
    v.extend_from_slice(&0i16.to_le_bytes()); // wire kind tag
    v.extend_from_slice(&wire_tag.to_le_bytes()); // tile wire tag
    push_slice_header(&mut v, GARBAGE, 0); // pips_uphill
    push_slice_header(&mut v, GARBAGE, 0); // pips_downhill
    push_slice_header(&mut v, GARBAGE, 0); // bel_pins
    assert_eq!(v.len(), 140);
    v.extend_from_slice(&(-1i16).to_le_bytes()); // rel_src_loc.x
    v.extend_from_slice(&0i16.to_le_bytes()); // rel_src_loc.y
    v.extend_from_slice(&1i16.to_le_bytes()); // rel_dst_loc.x
    v.extend_from_slice(&0i16.to_le_bytes()); // rel_dst_loc.y
    v.extend_from_slice(&5i16.to_le_bytes()); // src_idx
    v.extend_from_slice(&6i16.to_le_bytes()); // dst_idx
    v.extend_from_slice(&0i16.to_le_bytes()); // timing_class
    v.push(2); // tile_type
    v.push(0); // pip_type
    v.extend_from_slice(&[0x01, 0x02]); // lutperm_flags, big-endian
    v.extend_from_slice(&[0x03, 0x04]); // padding, big-endian
    assert_eq!(v.len(), 160);
    v.extend_from_slice(b"H00\0");
    assert_eq!(v.len(), 164);
    for _ in 0..3 {
        push_i32(&mut v, 0);
    }
    assert_eq!(v.len(), 176);
    v
}

#[test]
fn decodes_wires_and_pips_with_big_endian_fields() {
    let chip = get_full_chipinfo(&wire_pip_buffer(1)).expect("valid buffer must decode");
    let loc = &chip.locations[0];
    assert_eq!(loc.wire_data.len(), 1);
    assert_eq!(loc.wire_data[0].name, "H00");
    assert_eq!(loc.wire_data[0].kind, ConstId::Blank);
    assert_eq!(loc.wire_data[0].tile_wire, chipdb::GfxTileWireId::TileWireFco);
    assert_eq!(loc.pip_data.len(), 1);
    assert_eq!(loc.pip_data[0].rel_src_loc.x, -1);
    assert_eq!(loc.pip_data[0].rel_dst_loc.x, 1);
    assert_eq!(loc.pip_data[0].src_idx, 5);
    assert_eq!(loc.pip_data[0].dst_idx, 6);
    // The two historically byte-swapped fields read big-endian.
    assert_eq!(loc.pip_data[0].lutperm_flags, 0x0102);
    assert_eq!(loc.pip_data[0].padding, 0x0304);
}

#[test]
fn unknown_tile_wire_tag_fails_with_unknown_tag() {
    assert_eq!(
        get_full_chipinfo(&wire_pip_buffer(77)),
        Err(DecodeError::UnknownTag(77))
    );
}
