use chipdb::{read_reli32arr, read_relslice, read_relstring, read_relu32arr, Cursor, DecodeError};
use chipdb::ecp5::LocationPOD;

fn u32le(v: &mut Vec<u8>, x: u32) {
    v.extend_from_slice(&x.to_le_bytes());
}

fn i32le(v: &mut Vec<u8>, x: i32) {
    v.extend_from_slice(&x.to_le_bytes());
}

#[test]
fn cursor_reads_both_endiannesses() {
    let data = [0x12u8, 0x34u8, 0x12u8, 0x34u8];
    let mut cur = Cursor::new(&data);
    assert_eq!(cur.read_i16_be().unwrap(), 0x1234);
    assert_eq!(cur.read_i16_le().unwrap(), 0x3412);
    assert_eq!(cur.position(), 4);
    assert_eq!(cur.read_u8(), Err(DecodeError::Truncated));
}

#[test]
fn relstring_reads_until_terminator() {
    let mut v: Vec<u8> = Vec::new();
    i32le(&mut v, 4); // target = 0 + 4
    v.extend_from_slice(b"abc\0xyz");
    let mut cur = Cursor::new(&v);
    assert_eq!(read_relstring(&mut cur).unwrap(), "abc");
    // The cursor stands just past the 4-byte header afterwards.
    assert_eq!(cur.position(), 4);
}

#[test]
fn relstring_without_terminator_stops_at_buffer_end() {
    let mut v: Vec<u8> = Vec::new();
    i32le(&mut v, 4);
    v.extend_from_slice(b"abc");
    let mut cur = Cursor::new(&v);
    assert_eq!(read_relstring(&mut cur).unwrap(), "abc");
}

#[test]
fn relstring_sentinel_gives_empty_string() {
    let mut v: Vec<u8> = Vec::new();
    i32le(&mut v, -1); // 0 + (-1) == -1, the reserved sentinel
    v.extend_from_slice(b"unused");
    let mut cur = Cursor::new(&v);
    assert_eq!(read_relstring(&mut cur).unwrap(), "");
    assert_eq!(cur.position(), 4);
}

#[test]
fn relstring_out_of_bounds_target_is_truncated() {
    let mut v: Vec<u8> = Vec::new();
    i32le(&mut v, 1000);
    let mut cur = Cursor::new(&v);
    assert_eq!(read_relstring(&mut cur), Err(DecodeError::Truncated));
}

#[test]
fn zero_length_slice_never_seeks() {
    let mut v: Vec<u8> = Vec::new();
    i32le(&mut v, 0x7FFF_FFF0); // garbage offset
    u32le(&mut v, 0); // zero length
    let mut cur = Cursor::new(&v);
    let r: Vec<LocationPOD> = read_relslice::<LocationPOD>(&mut cur).unwrap();
    assert_eq!(r.len(), 0);
    assert_eq!(cur.position(), 8);
}

#[test]
fn slice_produces_exactly_header_many_records() {
    let mut v: Vec<u8> = Vec::new();
    i32le(&mut v, 8); // target = 0 + 8
    u32le(&mut v, 2); // two records
    v.extend_from_slice(&1i16.to_le_bytes());
    v.extend_from_slice(&2i16.to_le_bytes());
    v.extend_from_slice(&3i16.to_le_bytes());
    v.extend_from_slice(&4i16.to_le_bytes());
    let mut cur = Cursor::new(&v);
    let r = read_relslice::<LocationPOD>(&mut cur).unwrap();
    assert_eq!(r.len(), 2);
    assert_eq!(r[0], LocationPOD { x: 1, y: 2 });
    assert_eq!(r[1], LocationPOD { x: 3, y: 4 });
    assert_eq!(cur.position(), 8);
}

#[test]
fn sibling_fields_decode_identically_after_nested_reads() {
    // Two buffers whose first field's nested read lands at different
    // places: the sibling integer array after it must decode to the
    // same values in both, because the cursor is restored to just past
    // the first header either way.
    let mut near: Vec<u8> = Vec::new();
    i32le(&mut near, 16); // slice header at 0: one record at 16
    u32le(&mut near, 1);
    i32le(&mut near, 12); // array header at 8: two values at 20
    u32le(&mut near, 2);
    near.extend_from_slice(&7i16.to_le_bytes()); // record at 16
    near.extend_from_slice(&9i16.to_le_bytes());
    i32le(&mut near, 41); // array values at 20
    i32le(&mut near, 42);

    let mut far: Vec<u8> = Vec::new();
    i32le(&mut far, 28); // slice header at 0: one record at 28
    u32le(&mut far, 1);
    i32le(&mut far, 12); // array header at 8: two values at 20
    u32le(&mut far, 2);
    i32le(&mut far, 0x5A5A_5A5A); // unrelated bytes at 16
    i32le(&mut far, 41); // array values at 20
    i32le(&mut far, 42);
    far.extend_from_slice(&7i16.to_le_bytes()); // record at 28
    far.extend_from_slice(&9i16.to_le_bytes());

    let mut cur_a = Cursor::new(&near);
    let locs_a = read_relslice::<LocationPOD>(&mut cur_a).unwrap();
    let arr_a = read_reli32arr(&mut cur_a).unwrap();
    let mut cur_b = Cursor::new(&far);
    let locs_b = read_relslice::<LocationPOD>(&mut cur_b).unwrap();
    let arr_b = read_reli32arr(&mut cur_b).unwrap();
    assert_eq!(locs_a, locs_b);
    assert_eq!(locs_a, vec![LocationPOD { x: 7, y: 9 }]);
    assert_eq!(arr_a, arr_b);
    assert_eq!(arr_a, vec![41, 42]);
    assert_eq!(cur_a.position(), cur_b.position());
}

#[test]
fn u32_array_reads_values() {
    let mut v: Vec<u8> = Vec::new();
    i32le(&mut v, 8);
    u32le(&mut v, 3);
    u32le(&mut v, 10);
    u32le(&mut v, 20);
    u32le(&mut v, 0xFFFF_FFFF);
    let mut cur = Cursor::new(&v);
    assert_eq!(read_relu32arr(&mut cur).unwrap(), vec![10, 20, 0xFFFF_FFFF]);
}

#[test]
fn slice_running_past_buffer_end_is_truncated() {
    let mut v: Vec<u8> = Vec::new();
    i32le(&mut v, 8);
    u32le(&mut v, 3); // three records claimed, bytes for one and a half
    v.extend_from_slice(&1i16.to_le_bytes());
    v.extend_from_slice(&2i16.to_le_bytes());
    v.extend_from_slice(&3i16.to_le_bytes());
    let mut cur = Cursor::new(&v);
    assert_eq!(
        read_relslice::<LocationPOD>(&mut cur),
        Err(DecodeError::Truncated)
    );
}
