use vstd::prelude::*;
use vstd::bytes::{
    lemma_auto_spec_u16_to_from_le_bytes, lemma_auto_spec_u32_to_from_le_bytes,
    lemma_auto_spec_u64_to_from_le_bytes, spec_u16_from_le_bytes, spec_u16_to_le_bytes,
    spec_u32_from_le_bytes, spec_u32_to_le_bytes, spec_u64_from_le_bytes, spec_u64_to_le_bytes,
    u16_from_le_bytes, u16_to_le_bytes, u32_from_le_bytes, u32_to_le_bytes, u64_from_le_bytes,
    u64_to_le_bytes,
};
use vstd::slice::{slice_index_get, slice_subrange, slice_to_vec};
use vstd::utf8::{decode_utf8, encode_utf8, encode_utf8_decode_utf8, encode_utf8_valid_utf8, valid_utf8};
use crate::strings::string_from_utf8;

verus! {

/// The canonical variable-length integer format: values up to 250 take
/// one byte; larger values take a width marker followed by the value in
/// little-endian, using the smallest width that holds it.
pub open spec fn spec_enc_u64(v: u64) -> Seq<u8> {
    if v <= 250 {
        seq![v as u8]
    } else if v <= u16::MAX {
        seq![251u8] + spec_u16_to_le_bytes(v as u16)
    } else if v <= u32::MAX {
        seq![252u8] + spec_u32_to_le_bytes(v as u32)
    } else {
        seq![253u8] + spec_u64_to_le_bytes(v)
    }
}

/// Reads one variable-length integer at `pos`; yields the value and the
/// position just past it.
pub open spec fn spec_dec_u64(data: Seq<u8>, pos: int) -> Option<(u64, int)> {
    if !(0 <= pos < data.len()) {
        None
    } else {
        let b = data[pos];
        if b <= 250 {
            Some(((b as u64), pos + 1))
        } else if b == 251 {
            if pos + 3 <= data.len() {
                Some((spec_u16_from_le_bytes(data.subrange(pos + 1, pos + 3)) as u64, pos + 3))
            } else {
                None
            }
        } else if b == 252 {
            if pos + 5 <= data.len() {
                Some((spec_u32_from_le_bytes(data.subrange(pos + 1, pos + 5)) as u64, pos + 5))
            } else {
                None
            }
        } else if b == 253 {
            if pos + 9 <= data.len() {
                Some((spec_u64_from_le_bytes(data.subrange(pos + 1, pos + 9)), pos + 9))
            } else {
                None
            }
        } else {
            None
        }
    }
}

/// The zigzag folding of a signed value onto the unsigned line: small
/// magnitudes of either sign get small codes.
pub open spec fn spec_zigzag(v: int) -> int {
    if v >= 0 {
        2 * v
    } else {
        -2 * v - 1
    }
}

/// The inverse of the zigzag folding.
pub open spec fn spec_unzigzag(u: int) -> int {
    if u % 2 == 0 {
        u / 2
    } else {
        -((u + 1) / 2)
    }
}

/// The zigzag folding loses nothing.
pub proof fn lemma_zigzag_round_trip(v: int)
    ensures
        spec_unzigzag(spec_zigzag(v)) == v,
        spec_zigzag(v) >= 0,
{
    if v >= 0 {
        assert((2 * v) % 2 == 0 && (2 * v) / 2 == v) by (nonlinear_arith)
            requires
                v >= 0,
        ;
    } else {
        let k = -v - 1;
        assert((2 * k + 1) % 2 == 1 && (2 * k + 1 + 1) / 2 == k + 1) by (nonlinear_arith)
            requires
                k >= 0,
        ;
        assert(-2 * v - 1 == 2 * k + 1);
    }
}

/// A signed 32-bit value, zigzag-folded then variable-length encoded.
pub open spec fn spec_enc_i32(v: i32) -> Seq<u8> {
    spec_enc_u64(spec_zigzag(v as int) as u64)
}

pub open spec fn spec_dec_i32(data: Seq<u8>, pos: int) -> Option<(i32, int)> {
    match spec_dec_u64(data, pos) {
        Some((u, p)) => if u <= u32::MAX {
            Some((spec_unzigzag(u as int) as i32, p))
        } else {
            None
        },
        None => None,
    }
}

/// A signed 16-bit value, zigzag-folded then variable-length encoded.
pub open spec fn spec_enc_i16(v: i16) -> Seq<u8> {
    spec_enc_u64(spec_zigzag(v as int) as u64)
}

pub open spec fn spec_dec_i16(data: Seq<u8>, pos: int) -> Option<(i16, int)> {
    match spec_dec_u64(data, pos) {
        Some((u, p)) => if u <= u16::MAX {
            Some((spec_unzigzag(u as int) as i16, p))
        } else {
            None
        },
        None => None,
    }
}

/// An unsigned 32-bit value, variable-length encoded.
pub open spec fn spec_enc_u32(v: u32) -> Seq<u8> {
    spec_enc_u64(v as u64)
}

pub open spec fn spec_dec_u32(data: Seq<u8>, pos: int) -> Option<(u32, int)> {
    match spec_dec_u64(data, pos) {
        Some((u, p)) => if u <= u32::MAX {
            Some((u as u32, p))
        } else {
            None
        },
        None => None,
    }
}

/// A signed 8-bit value is stored as its single raw byte.
pub open spec fn spec_enc_i8(v: i8) -> Seq<u8> {
    seq![v as u8]
}

pub open spec fn spec_dec_i8(data: Seq<u8>, pos: int) -> Option<(i8, int)> {
    if 0 <= pos < data.len() {
        Some((data[pos] as i8, pos + 1))
    } else {
        None
    }
}

/// A string is stored as the length of its UTF-8 form followed by the
/// UTF-8 bytes themselves.
pub open spec fn spec_enc_str(s: Seq<char>) -> Seq<u8> {
    spec_enc_u64(encode_utf8(s).len() as u64) + encode_utf8(s)
}

pub open spec fn spec_dec_str(data: Seq<u8>, pos: int) -> Option<(Seq<char>, int)> {
    match spec_dec_u64(data, pos) {
        Some((n, p)) => if p + n <= data.len() {
            let bytes = data.subrange(p, p + n);
            if valid_utf8(bytes) {
                Some((decode_utf8(bytes), p + n))
            } else {
                None
            }
        } else {
            None
        },
        None => None,
    }
}

/// Appends the bytes of a slice to the output.
pub fn push_bytes(out: &mut Vec<u8>, b: &[u8])
    ensures
        final(out)@ == old(out)@ + b@,
{
    let mut i: usize = 0;
    while i < b.len()
        invariant
            i <= b@.len(),
            out@ =~= old(out)@ + b@.subrange(0, i as int),
        decreases b@.len() - i,
    {
        let x = *slice_index_get(b, i);
        out.push(x);
        proof {
            assert(out@ =~= old(out)@ + b@.subrange(0, i + 1));
        }
        i = i + 1;
    }
    proof {
        assert(old(out)@ + b@.subrange(0, b@.len() as int) =~= old(out)@ + b@);
    }
}

/// Appends one variable-length integer to the output.
pub fn enc_u64(out: &mut Vec<u8>, v: u64)
    ensures
        final(out)@ == old(out)@ + spec_enc_u64(v),
{
    if v <= 250 {
        out.push(v as u8);
        proof {
            assert(out@ =~= old(out)@ + spec_enc_u64(v));
        }
    } else if v <= 0xFFFF {
        out.push(251u8);
        let b = u16_to_le_bytes(v as u16);
        push_bytes(out, b.as_slice());
        proof {
            assert(out@ =~= old(out)@ + spec_enc_u64(v));
        }
    } else if v <= 0xFFFF_FFFF {
        out.push(252u8);
        let b = u32_to_le_bytes(v as u32);
        push_bytes(out, b.as_slice());
        proof {
            assert(out@ =~= old(out)@ + spec_enc_u64(v));
        }
    } else {
        out.push(253u8);
        let b = u64_to_le_bytes(v);
        push_bytes(out, b.as_slice());
        proof {
            assert(out@ =~= old(out)@ + spec_enc_u64(v));
        }
    }
}

/// Reads one variable-length integer.
pub fn dec_u64(data: &[u8], pos: usize) -> (r: Option<(u64, usize)>)
    ensures
        match r {
            Some((v, p)) => {
                &&& spec_dec_u64(data@, pos as int) == Some((v, p as int))
                &&& pos < p <= data@.len()
            },
            None => spec_dec_u64(data@, pos as int) is None,
        },
{
    if pos >= data.len() {
        return None;
    }
    let b = *slice_index_get(data, pos);
    if b <= 250 {
        Some((b as u64, pos + 1))
    } else if b == 251 {
        if data.len() - pos >= 3 {
            let v = u16_from_le_bytes(slice_subrange(data, pos + 1, pos + 3));
            Some((v as u64, pos + 3))
        } else {
            None
        }
    } else if b == 252 {
        if data.len() - pos >= 5 {
            let v = u32_from_le_bytes(slice_subrange(data, pos + 1, pos + 5));
            Some((v as u64, pos + 5))
        } else {
            None
        }
    } else if b == 253 {
        if data.len() - pos >= 9 {
            let v = u64_from_le_bytes(slice_subrange(data, pos + 1, pos + 9));
            Some((v, pos + 9))
        } else {
            None
        }
    } else {
        None
    }
}

/// Appends one zigzag-folded signed 32-bit value to the output.
pub fn enc_i32(out: &mut Vec<u8>, v: i32)
    ensures
        final(out)@ == old(out)@ + spec_enc_i32(v),
{
    let u: u64 = if v >= 0 {
        (v as u64) * 2
    } else {
        ((-(v as i64)) as u64) * 2 - 1
    };
    enc_u64(out, u);
}

/// Reads one zigzag-folded signed 32-bit value.
pub fn dec_i32(data: &[u8], pos: usize) -> (r: Option<(i32, usize)>)
    ensures
        match r {
            Some((v, p)) => {
                &&& spec_dec_i32(data@, pos as int) == Some((v, p as int))
                &&& pos < p <= data@.len()
            },
            None => spec_dec_i32(data@, pos as int) is None,
        },
{
    match dec_u64(data, pos) {
        Some((u, p)) => {
            if u <= 0xFFFF_FFFF {
                let v: i32 = if u % 2 == 0 {
                    (u / 2) as i32
                } else {
                    (-(((u + 1) / 2) as i64)) as i32
                };
                Some((v, p))
            } else {
                None
            }
        },
        None => None,
    }
}

/// Appends one zigzag-folded signed 16-bit value to the output.
pub fn enc_i16(out: &mut Vec<u8>, v: i16)
    ensures
        final(out)@ == old(out)@ + spec_enc_i16(v),
{
    let u: u64 = if v >= 0 {
        (v as u64) * 2
    } else {
        ((-(v as i64)) as u64) * 2 - 1
    };
    enc_u64(out, u);
}

/// Reads one zigzag-folded signed 16-bit value.
pub fn dec_i16(data: &[u8], pos: usize) -> (r: Option<(i16, usize)>)
    ensures
        match r {
            Some((v, p)) => {
                &&& spec_dec_i16(data@, pos as int) == Some((v, p as int))
                &&& pos < p <= data@.len()
            },
            None => spec_dec_i16(data@, pos as int) is None,
        },
{
    match dec_u64(data, pos) {
        Some((u, p)) => {
            if u <= 0xFFFF {
                let v: i16 = if u % 2 == 0 {
                    (u / 2) as i16
                } else {
                    (-(((u + 1) / 2) as i64)) as i16
                };
                Some((v, p))
            } else {
                None
            }
        },
        None => None,
    }
}

/// Appends one unsigned 32-bit value to the output.
pub fn enc_u32(out: &mut Vec<u8>, v: u32)
    ensures
        final(out)@ == old(out)@ + spec_enc_u32(v),
{
    enc_u64(out, v as u64);
}

/// Reads one unsigned 32-bit value.
pub fn dec_u32(data: &[u8], pos: usize) -> (r: Option<(u32, usize)>)
    ensures
        match r {
            Some((v, p)) => {
                &&& spec_dec_u32(data@, pos as int) == Some((v, p as int))
                &&& pos < p <= data@.len()
            },
            None => spec_dec_u32(data@, pos as int) is None,
        },
{
    match dec_u64(data, pos) {
        Some((u, p)) => {
            if u <= 0xFFFF_FFFF {
                Some((u as u32, p))
            } else {
                None
            }
        },
        None => None,
    }
}

/// Appends one raw signed byte to the output.
pub fn enc_i8(out: &mut Vec<u8>, v: i8)
    ensures
        final(out)@ == old(out)@ + spec_enc_i8(v),
{
    out.push(v as u8);
    proof {
        assert(out@ =~= old(out)@ + spec_enc_i8(v));
    }
}

/// Reads one raw signed byte.
pub fn dec_i8(data: &[u8], pos: usize) -> (r: Option<(i8, usize)>)
    ensures
        match r {
            Some((v, p)) => {
                &&& spec_dec_i8(data@, pos as int) == Some((v, p as int))
                &&& pos < p <= data@.len()
            },
            None => spec_dec_i8(data@, pos as int) is None,
        },
{
    if pos < data.len() {
        let b = *slice_index_get(data, pos);
        Some((b as i8, pos + 1))
    } else {
        None
    }
}

/// Appends one length-prefixed UTF-8 string to the output.
pub fn enc_str(out: &mut Vec<u8>, s: &String)
    ensures
        final(out)@ == old(out)@ + spec_enc_str(s@),
        encode_utf8(s@).len() <= usize::MAX,
{
    let bytes: &[u8] = s.as_str().as_bytes();
    let n = bytes.len();
    enc_u64(out, n as u64);
    push_bytes(out, bytes);
    proof {
        assert(out@ =~= old(out)@ + spec_enc_str(s@));
    }
}

/// Reads one length-prefixed UTF-8 string.
pub fn dec_str(data: &[u8], pos: usize) -> (r: Option<(String, usize)>)
    ensures
        match r {
            Some((s, p)) => {
                &&& spec_dec_str(data@, pos as int) == Some((s@, p as int))
                &&& pos < p <= data@.len()
            },
            None => spec_dec_str(data@, pos as int) is None,
        },
{
    match dec_u64(data, pos) {
        Some((n, p)) => {
            if n <= (data.len() - p) as u64 {
                let end = p + (n as usize);
                let bytes = slice_to_vec(slice_subrange(data, p, end));
                match string_from_utf8(bytes) {
                    Some(s) => Some((s, end)),
                    None => None,
                }
            } else {
                None
            }
        },
        None => None,
    }
}

/// A variable-length integer, read back from wherever it was written,
/// yields the value it was written from.
pub proof fn lemma_u64_round_trip(v: u64, data: Seq<u8>, pos: int)
    requires
        0 <= pos,
        pos + spec_enc_u64(v).len() <= data.len(),
        data.subrange(pos, pos + spec_enc_u64(v).len()) == spec_enc_u64(v),
    ensures
        spec_dec_u64(data, pos) == Some((v, pos + spec_enc_u64(v).len())),
{
    let e = spec_enc_u64(v);
    assert(data.subrange(pos, pos + e.len() as int)[0] == e[0]);
    assert(data[pos] == e[0]);
    if v <= 250 {
    } else if v <= u16::MAX {
        lemma_auto_spec_u16_to_from_le_bytes();
        let tail = spec_u16_to_le_bytes(v as u16);
        assert forall|i: int| 0 <= i < 2 implies data[pos + 1 + i] == tail[i] by {
            assert(data.subrange(pos, pos + 3)[i + 1] == e[i + 1]);
        }
        assert(data.subrange(pos + 1, pos + 3) =~= tail);
    } else if v <= u32::MAX {
        lemma_auto_spec_u32_to_from_le_bytes();
        let tail = spec_u32_to_le_bytes(v as u32);
        assert forall|i: int| 0 <= i < 4 implies data[pos + 1 + i] == tail[i] by {
            assert(data.subrange(pos, pos + 5)[i + 1] == e[i + 1]);
        }
        assert(data.subrange(pos + 1, pos + 5) =~= tail);
        assert(data[pos] == 252);
    } else {
        lemma_auto_spec_u64_to_from_le_bytes();
        let tail = spec_u64_to_le_bytes(v);
        assert forall|i: int| 0 <= i < 8 implies data[pos + 1 + i] == tail[i] by {
            assert(data.subrange(pos, pos + 9)[i + 1] == e[i + 1]);
        }
        assert(data.subrange(pos + 1, pos + 9) =~= tail);
        assert(data[pos] == 253);
    }
}

/// As `lemma_u64_round_trip`, for zigzag-folded 32-bit values.
pub proof fn lemma_i32_round_trip(v: i32, data: Seq<u8>, pos: int)
    requires
        0 <= pos,
        pos + spec_enc_i32(v).len() <= data.len(),
        data.subrange(pos, pos + spec_enc_i32(v).len()) == spec_enc_i32(v),
    ensures
        spec_dec_i32(data, pos) == Some((v, pos + spec_enc_i32(v).len())),
{
    lemma_zigzag_round_trip(v as int);
    lemma_u64_round_trip(spec_zigzag(v as int) as u64, data, pos);
}

/// As `lemma_u64_round_trip`, for zigzag-folded 16-bit values.
pub proof fn lemma_i16_round_trip(v: i16, data: Seq<u8>, pos: int)
    requires
        0 <= pos,
        pos + spec_enc_i16(v).len() <= data.len(),
        data.subrange(pos, pos + spec_enc_i16(v).len()) == spec_enc_i16(v),
    ensures
        spec_dec_i16(data, pos) == Some((v, pos + spec_enc_i16(v).len())),
{
    lemma_zigzag_round_trip(v as int);
    lemma_u64_round_trip(spec_zigzag(v as int) as u64, data, pos);
}

/// As `lemma_u64_round_trip`, for unsigned 32-bit values.
pub proof fn lemma_u32_round_trip(v: u32, data: Seq<u8>, pos: int)
    requires
        0 <= pos,
        pos + spec_enc_u32(v).len() <= data.len(),
        data.subrange(pos, pos + spec_enc_u32(v).len()) == spec_enc_u32(v),
    ensures
        spec_dec_u32(data, pos) == Some((v, pos + spec_enc_u32(v).len())),
{
    lemma_u64_round_trip(v as u64, data, pos);
}

/// As `lemma_u64_round_trip`, for raw signed bytes.
pub proof fn lemma_i8_round_trip(v: i8, data: Seq<u8>, pos: int)
    requires
        0 <= pos,
        pos + 1 <= data.len(),
        data.subrange(pos, pos + 1) == spec_enc_i8(v),
    ensures
        spec_dec_i8(data, pos) == Some((v, pos + 1)),
{
    assert(data.subrange(pos, pos + 1)[0] == spec_enc_i8(v)[0]);
    assert(data[pos] == (v as u8));
    assert((v as u8) as i8 == v) by (bit_vector);
}

/// As `lemma_u64_round_trip`, for length-prefixed strings.
pub proof fn lemma_str_round_trip(s: Seq<char>, data: Seq<u8>, pos: int)
    requires
        0 <= pos,
        encode_utf8(s).len() <= u64::MAX,
        pos + spec_enc_str(s).len() <= data.len(),
        data.subrange(pos, pos + spec_enc_str(s).len()) == spec_enc_str(s),
    ensures
        spec_dec_str(data, pos) == Some((s, pos + spec_enc_str(s).len())),
{
    let bytes = encode_utf8(s);
    let lenenc = spec_enc_u64(bytes.len() as u64);
    let e = spec_enc_str(s);
    assert forall|i: int| 0 <= i < lenenc.len() implies data[pos + i] == lenenc[i] by {
        assert(data.subrange(pos, pos + e.len() as int)[i] == e[i]);
    }
    assert(data.subrange(pos, pos + lenenc.len()) =~= lenenc);
    lemma_u64_round_trip(bytes.len() as u64, data, pos);
    let p = pos + lenenc.len();
    assert forall|i: int| 0 <= i < bytes.len() implies data[p + i] == bytes[i] by {
        assert(data.subrange(pos, pos + e.len() as int)[lenenc.len() + i] == e[lenenc.len() + i]);
    }
    assert(data.subrange(p, p + bytes.len()) =~= bytes);
    encode_utf8_valid_utf8(s);
    encode_utf8_decode_utf8(s);
}

} // verus!
