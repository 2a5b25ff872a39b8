use chipdb::ecp5::{MinimizedBelInfoPOD, MinimizedChipInfoPOD, MinimizedLocationPOD,
    MinimizedLocationTypePOD, MinimizedPipInfoPOD, MinimizedWireInfoPOD};
use chipdb::varint::{enc_i16, enc_i32, enc_str, enc_u32, enc_u64};
use chipdb::{CodecError, ConstId, GfxTileWireId};

fn bincode_bytes<T: serde::Serialize>(v: &T) -> Vec<u8> {
    bincode::serde::encode_to_vec(v, bincode::config::standard()).expect("bincode encode")
}

#[test]
fn varint_u64_matches_reference_encoder() {
    let cases: &[u64] = &[
        0,
        1,
        100,
        250,
        251,
        255,
        256,
        1000,
        65535,
        65536,
        1_000_000,
        4_294_967_295,
        4_294_967_296,
        u64::MAX,
    ];
    for &v in cases {
        let mut mine: Vec<u8> = Vec::new();
        enc_u64(&mut mine, v);
        assert_eq!(mine, bincode_bytes(&v), "value {}", v);
    }
}

#[test]
fn varint_i32_matches_reference_encoder() {
    let cases: &[i32] = &[0, 1, -1, 125, -126, 200, -200, 32767, -32768, i32::MAX, i32::MIN];
    for &v in cases {
        let mut mine: Vec<u8> = Vec::new();
        enc_i32(&mut mine, v);
        assert_eq!(mine, bincode_bytes(&v), "value {}", v);
    }
}

#[test]
fn varint_i16_matches_reference_encoder() {
    let cases: &[i16] = &[0, 1, -1, 125, -126, 200, -200, i16::MAX, i16::MIN];
    for &v in cases {
        let mut mine: Vec<u8> = Vec::new();
        enc_i16(&mut mine, v);
        assert_eq!(mine, bincode_bytes(&v), "value {}", v);
    }
}

#[test]
fn varint_u32_matches_reference_encoder() {
    let cases: &[u32] = &[0, 250, 251, 65535, 65536, u32::MAX];
    for &v in cases {
        let mut mine: Vec<u8> = Vec::new();
        enc_u32(&mut mine, v);
        assert_eq!(mine, bincode_bytes(&v), "value {}", v);
    }
}

#[test]
fn string_encoding_matches_reference_encoder() {
    for s in ["", "LUT4", "hello world", "h\u{e9}llo", "\u{1F600}"] {
        let owned = s.to_string();
        let mut mine: Vec<u8> = Vec::new();
        enc_str(&mut mine, &owned);
        assert_eq!(mine, bincode_bytes(&owned), "string {:?}", s);
    }
}

fn sample_minimized() -> MinimizedChipInfoPOD {
    MinimizedChipInfoPOD {
        width: 2,
        height: 2,
        num_tiles: 4,
        locations: vec![MinimizedLocationTypePOD {
            bel_data: vec![MinimizedBelInfoPOD {
                name: "LUT4".to_string(),
                kind: ConstId::TrellisComb,
                z: -3,
            }],
            wire_data: vec![MinimizedWireInfoPOD {
                name: "H01".to_string(),
                kind: ConstId::Blank,
                tile_wire: GfxTileWireId::TileWireFco,
            }],
            pip_data: vec![MinimizedPipInfoPOD {
                rel_src_loc: MinimizedLocationPOD { x: -1, y: 0 },
                rel_dst_loc: MinimizedLocationPOD { x: 0, y: 1 },
                src_idx: 300,
                dst_idx: -2,
            }],
        }],
        location_type: vec![0, 0, 0, 0],
    }
}

#[test]
fn minimized_payload_matches_reference_encoder() {
    // The same logical value, written as nested tuples, serializes to
    // the same bytes under the reference encoder (tuples carry no
    // headers, enum kinds become their integer tags).
    let min = sample_minimized();
    let reference = (
        2i32,
        2i32,
        4i32,
        vec![(
            vec![("LUT4".to_string(), 1u32, -3i32)],
            vec![("H01".to_string(), 0u32, 1u32)],
            vec![((-1i16, 0i16), (0i16, 1i16), 300i16, -2i16)],
        )],
        vec![0i32, 0i32, 0i32, 0i32],
    );
    let blob = min.encode();
    let payload = miniz_oxide::inflate::decompress_to_vec(&blob).expect("own blob must inflate");
    assert_eq!(payload, bincode_bytes(&reference));
}

#[test]
fn minimized_round_trip_on_handmade_value() {
    let min = sample_minimized();
    let back = MinimizedChipInfoPOD::decode(&min.encode()).expect("own encoding must decode");
    assert_eq!(back, min);
}

#[test]
fn empty_chip_encodes_non_empty_and_round_trips() {
    // A 32 by 32 grid with no location types still yields a non-empty
    // compressed blob that restores the grid data exactly.
    let min = MinimizedChipInfoPOD {
        width: 32,
        height: 32,
        num_tiles: 1024,
        locations: vec![],
        location_type: vec![0; 1024],
    };
    let blob = min.encode();
    assert!(!blob.is_empty());
    let back = MinimizedChipInfoPOD::decode(&blob).expect("own encoding must decode");
    assert_eq!(back.width, 32);
    assert_eq!(back.height, 32);
    assert_eq!(back.location_type, min.location_type);
}

#[test]
fn garbage_blob_fails_with_decompression_error() {
    assert_eq!(
        MinimizedChipInfoPOD::decode(&[1, 2, 3, 4]),
        Err(CodecError::DecompressionError)
    );
}

#[test]
fn malformed_payload_fails_with_decode_error() {
    // 255 is no valid integer width marker, so the inflated payload is
    // structurally malformed.
    let blob = miniz_oxide::deflate::compress_to_vec(&[255u8, 255u8], 5);
    assert_eq!(MinimizedChipInfoPOD::decode(&blob), Err(CodecError::DecodeError));
}

#[test]
fn truncated_payload_fails_with_decode_error() {
    let min = sample_minimized();
    let payload = miniz_oxide::inflate::decompress_to_vec(&min.encode()).expect("inflate");
    let cut = miniz_oxide::deflate::compress_to_vec(&payload[..payload.len() - 1], 5);
    assert_eq!(MinimizedChipInfoPOD::decode(&cut), Err(CodecError::DecodeError));
}

#[test]
fn flat_minimized_payload_matches_reference_encoder() {
    let min = chipdb::ice40::MinimizedChipInfoPOD {
        width: 1,
        height: 1,
        bel_data: vec![chipdb::ice40::MinimizedBelInfoPOD {
            name: "IO1".to_string(),
            kind: 3,
            x: 5,
            y: -6,
            z: 2,
        }],
        wire_data: vec![chipdb::ice40::MinimizedWireInfoPOD {
            name: "W0".to_string(),
            segments: vec![chipdb::ice40::MinimizedWireSegmentPOD { x: 1, y: 2, index: 300 }],
            x: 0,
            y: 0,
        }],
        pip_data: vec![chipdb::ice40::MinimizedPipInfoPOD {
            src: 7,
            dst: 8,
            x: 0,
            y: -1,
            src_seg: 1,
            dst_seg: 2,
        }],
        tile_grid: vec![1, 9],
    };
    let reference = (
        1i32,
        1i32,
        vec![("IO1".to_string(), 3i32, 5i8, -6i8, 2i8)],
        vec![("W0".to_string(), vec![(1i8, 2i8, 300i16)], 0i8, 0i8)],
        vec![(7i32, 8i32, 0i8, -1i8, 1i16, 2i16)],
        vec![1u32, 9u32],
    );
    let blob = min.encode();
    let payload = miniz_oxide::inflate::decompress_to_vec(&blob).expect("own blob must inflate");
    assert_eq!(payload, bincode_bytes(&reference));
    let back = chipdb::ice40::MinimizedChipInfoPOD::decode(&blob).expect("decode");
    assert_eq!(back, min);
}

#[test]
fn non_ascii_names_survive_the_round_trip() {
    let min = MinimizedChipInfoPOD {
        width: 1,
        height: 1,
        num_tiles: 1,
        locations: vec![MinimizedLocationTypePOD {
            bel_data: vec![MinimizedBelInfoPOD {
                name: "s\u{e9}gment \u{1F600}".to_string(),
                kind: ConstId::Gsr,
                z: 0,
            }],
            wire_data: vec![],
            pip_data: vec![],
        }],
        location_type: vec![0],
    };
    let back = MinimizedChipInfoPOD::decode(&min.encode()).expect("own encoding must decode");
    assert_eq!(back.locations[0].bel_data[0].name, "s\u{e9}gment \u{1F600}");
    assert_eq!(back, min);
}
