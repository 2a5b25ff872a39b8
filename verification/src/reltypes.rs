use vstd::prelude::*;
use crate::cursor::{in_range, lemma_prefix_u32_le, spec_u32_le_at, Cursor};
use crate::strings::push_char;
use crate::DecodeError;

verus! {

/// The views of all elements of a sequence, in order.
pub open spec fn views_of<T: View>(s: Seq<T>) -> Seq<T::V> {
    s.map_values(|t: T| t@)
}

/// A record of the packed database: a fixed, ordered field list whose
/// inline header occupies `header_size` bytes.  `spec_new` is the
/// mathematical decode function; `new` is its executable counterpart.
///
/// Decoding a record leaves the cursor exactly at the end of the
/// record's inline header, however deeply nested relative reads
/// recursed, so sibling fields always decode from well-defined
/// positions.
pub trait POD: Sized + View {
    /// How many inline bytes the record occupies at its own position.
    spec fn header_size() -> int;

    /// What the record at `pos` of `data` decodes to.
    spec fn spec_new(data: Seq<u8>, pos: int) -> Result<Self::V, DecodeError>;

    /// Decodes one record at the cursor position.
    fn new(cur: &mut Cursor) -> (r: Result<Self, DecodeError>)
        requires
            old(cur).wf(),
        ensures
            final(cur).data() == old(cur).data(),
            final(cur).wf(),
            match r {
                Ok(v) => {
                    &&& Self::spec_new(old(cur).data(), old(cur).pos()) == Ok::<Self::V, DecodeError>(v@)
                    &&& final(cur).pos() == old(cur).pos() + Self::header_size()
                },
                Err(e) => Self::spec_new(old(cur).data(), old(cur).pos()) == Err::<Self::V, DecodeError>(e),
            };

    /// Law: a record that decodes from a buffer fails closed under
    /// truncation: from any cut copy of that buffer it either still
    /// decodes or fails with `Truncated` — a cut never misreads a kind
    /// field into an `UnknownTag` failure.
    proof fn lemma_truncation_fails_closed(data: Seq<u8>, pos: int, k: int)
        requires
            0 <= k <= data.len(),
            Self::spec_new(data, pos) is Ok,
        ensures
            Self::spec_new(data.subrange(0, k), pos) is Ok || Self::spec_new(
                data.subrange(0, k),
                pos,
            ) == Err::<Self::V, DecodeError>(DecodeError::Truncated);
}

/// The characters stored at `pos`, one per byte, up to but excluding
/// the first zero byte, bounded only by the end of the buffer.
pub open spec fn spec_string_chars(data: Seq<u8>, pos: int) -> Seq<char>
    decreases data.len() - pos,
{
    if pos < 0 || pos >= data.len() || data[pos] == 0 {
        Seq::<char>::empty()
    } else {
        seq![data[pos] as char] + spec_string_chars(data, pos + 1)
    }
}

/// The relative string whose 4-byte signed offset header stands at
/// `pos`: the offset counts from just past the header, a computed
/// target of -1 is the reserved "absent string" sentinel, and any other
/// out-of-bounds target is a truncation failure.
pub open spec fn spec_relstring(data: Seq<u8>, pos: int) -> Result<Seq<char>, DecodeError> {
    if !in_range(data, pos, 4) {
        Err(DecodeError::Truncated)
    } else {
        let off = spec_u32_le_at(data, pos) as i32;
        let target = pos + off;
        if target == -1 {
            Ok(Seq::<char>::empty())
        } else if !(0 <= target <= data.len()) {
            Err(DecodeError::Truncated)
        } else {
            Ok(spec_string_chars(data, target))
        }
    }
}

/// The record a 4-byte relative pointer header at `pos` points to.
pub open spec fn spec_relptr<T: POD>(data: Seq<u8>, pos: int) -> Result<T::V, DecodeError> {
    if !in_range(data, pos, 4) {
        Err(DecodeError::Truncated)
    } else {
        let off = spec_u32_le_at(data, pos) as i32;
        let target = pos + off;
        if !(0 <= target <= data.len()) {
            Err(DecodeError::Truncated)
        } else {
            T::spec_new(data, target)
        }
    }
}

/// `n` consecutive records decoded from `pos` on.
pub open spec fn spec_dec_n<T: POD>(data: Seq<u8>, pos: int, n: nat) -> Result<Seq<T::V>, DecodeError>
    decreases n,
{
    if n == 0 {
        Ok(Seq::<T::V>::empty())
    } else {
        match T::spec_new(data, pos) {
            Ok(v) => match spec_dec_n::<T>(data, pos + T::header_size(), (n - 1) as nat) {
                Ok(rest) => Ok(seq![v] + rest),
                Err(e) => Err(e),
            },
            Err(e) => Err(e),
        }
    }
}

/// The record slice whose 8-byte header `(offset: i32, length: u32)`
/// stands at `pos`.  A zero length yields the empty slice without any
/// seek, whatever the offset bytes hold.
pub open spec fn spec_relslice<T: POD>(data: Seq<u8>, pos: int) -> Result<Seq<T::V>, DecodeError> {
    if !in_range(data, pos, 8) {
        Err(DecodeError::Truncated)
    } else {
        let off = spec_u32_le_at(data, pos) as i32;
        let n = spec_u32_le_at(data, pos + 4);
        if n == 0 {
            Ok(Seq::<T::V>::empty())
        } else {
            let target = pos + off;
            if !(0 <= target <= data.len()) {
                Err(DecodeError::Truncated)
            } else {
                spec_dec_n::<T>(data, target, n as nat)
            }
        }
    }
}

/// Reads a relative string and leaves the cursor just past its 4-byte
/// header.
pub fn read_relstring(cur: &mut Cursor) -> (r: Result<String, DecodeError>)
    requires
        old(cur).wf(),
    ensures
        final(cur).data() == old(cur).data(),
        final(cur).wf(),
        match r {
            Ok(s) => {
                &&& spec_relstring(old(cur).data(), old(cur).pos()) == Ok::<Seq<char>, DecodeError>(s@)
                &&& final(cur).pos() == old(cur).pos() + 4
            },
            Err(e) => spec_relstring(old(cur).data(), old(cur).pos()) == Err::<Seq<char>, DecodeError>(e),
        },
{
    let saved = cur.position();
    let off = cur.read_i32_le()?;
    let restore = cur.position();
    let target: i128 = saved as i128 + off as i128;
    if target == -1 {
        return Ok(String::new());
    }
    cur.try_set_position(target)?;
    let ghost data = cur.data();
    let ghost start: int = cur.pos();
    let mut s = String::new();
    loop
        invariant_except_break
            spec_string_chars(data, start) == s@ + spec_string_chars(data, cur.pos()),
        invariant
            cur.wf(),
            cur.data() == data,
            data == old(cur).data(),
            0 <= start <= cur.pos() <= data.len(),
            restore == old(cur).pos() + 4,
            restore <= data.len(),
            spec_relstring(old(cur).data(), old(cur).pos()) == Ok::<Seq<char>, DecodeError>(
                spec_string_chars(data, start),
            ),
        ensures
            s@ == spec_string_chars(data, start),
        decreases data.len() - cur.pos(),
    {
        match cur.read_u8() {
            Ok(b) => {
                if b == 0 {
                    proof {
                        assert(s@ + spec_string_chars(data, cur.pos() - 1) =~= s@);
                    }
                    break;
                }
                proof {
                    assert(spec_string_chars(data, cur.pos() - 1) =~= seq![b as char]
                        + spec_string_chars(data, cur.pos()));
                    assert(s@ + (seq![b as char] + spec_string_chars(data, cur.pos()))
                        =~= s@.push(b as char) + spec_string_chars(data, cur.pos()));
                }
                push_char(&mut s, b as char);
            },
            Err(_) => {
                proof {
                    assert(s@ + spec_string_chars(data, cur.pos()) =~= s@);
                }
                break;
            },
        }
    }
    cur.set_position(restore);
    Ok(s)
}

/// Reads the record a relative pointer refers to and leaves the cursor
/// just past the 4-byte header.
pub fn read_relptr<T: POD>(cur: &mut Cursor) -> (r: Result<T, DecodeError>)
    requires
        old(cur).wf(),
    ensures
        final(cur).data() == old(cur).data(),
        final(cur).wf(),
        match r {
            Ok(v) => {
                &&& spec_relptr::<T>(old(cur).data(), old(cur).pos()) == Ok::<T::V, DecodeError>(v@)
                &&& final(cur).pos() == old(cur).pos() + 4
            },
            Err(e) => spec_relptr::<T>(old(cur).data(), old(cur).pos()) == Err::<T::V, DecodeError>(e),
        },
{
    let saved = cur.position();
    let off = cur.read_i32_le()?;
    let restore = cur.position();
    let target: i128 = saved as i128 + off as i128;
    cur.try_set_position(target)?;
    let v = T::new(cur)?;
    cur.set_position(restore);
    Ok(v)
}

/// Reads a slice of records and leaves the cursor just past the 8-byte
/// header.
pub fn read_relslice<T: POD>(cur: &mut Cursor) -> (r: Result<Vec<T>, DecodeError>)
    requires
        old(cur).wf(),
    ensures
        final(cur).data() == old(cur).data(),
        final(cur).wf(),
        match r {
            Ok(v) => {
                &&& spec_relslice::<T>(old(cur).data(), old(cur).pos()) == Ok::<Seq<T::V>, DecodeError>(views_of(v@))
                &&& final(cur).pos() == old(cur).pos() + 8
            },
            Err(e) => spec_relslice::<T>(old(cur).data(), old(cur).pos()) == Err::<Seq<T::V>, DecodeError>(e),
        },
{
    let saved = cur.position();
    let off = cur.read_i32_le()?;
    let n = cur.read_u32_le()?;
    let restore = cur.position();
    if n == 0 {
        proof {
            assert(views_of(Seq::<T>::empty()) =~= Seq::<T::V>::empty());
        }
        return Ok(Vec::new());
    }
    let target: i128 = saved as i128 + off as i128;
    cur.try_set_position(target)?;
    let ghost data = cur.data();
    let ghost start: int = cur.pos();
    let mut res: Vec<T> = Vec::new();
    let mut i: u32 = 0;
    proof {
        if spec_dec_n::<T>(data, start, n as nat) is Ok {
            assert(views_of(res@) + spec_dec_n::<T>(data, start, n as nat)->Ok_0
                =~= spec_dec_n::<T>(data, start, n as nat)->Ok_0);
        }
    }
    while i < n
        invariant
            cur.wf(),
            cur.data() == data,
            data == old(cur).data(),
            restore == old(cur).pos() + 8,
            restore <= data.len(),
            spec_relslice::<T>(old(cur).data(), old(cur).pos()) == spec_dec_n::<T>(data, start, n as nat),
            i <= n,
            res@.len() == i,
            spec_dec_n::<T>(data, start, n as nat) == match spec_dec_n::<T>(data, cur.pos(), (n - i) as nat) {
                Ok(rest) => Ok::<Seq<T::V>, DecodeError>(views_of(res@) + rest),
                Err(e) => Err::<Seq<T::V>, DecodeError>(e),
            },
        decreases n - i,
    {
        let ghost p: int = cur.pos();
        match T::new(cur) {
            Ok(v) => {
                proof {
                    let rest_n = (n - i) as nat;
                    assert(spec_dec_n::<T>(data, p, rest_n) == match spec_dec_n::<T>(data, p + T::header_size(), (rest_n - 1) as nat) {
                        Ok(rest) => Ok::<Seq<T::V>, DecodeError>(seq![v@] + rest),
                        Err(e) => Err::<Seq<T::V>, DecodeError>(e),
                    });
                    if spec_dec_n::<T>(data, p + T::header_size(), (rest_n - 1) as nat) is Ok {
                        let rest = spec_dec_n::<T>(data, p + T::header_size(), (rest_n - 1) as nat)->Ok_0;
                        assert(views_of(res@) + (seq![v@] + rest) =~= views_of(res@.push(v)) + rest);
                    }
                }
                res.push(v);
            },
            Err(e) => {
                return Err(e);
            },
        }
        i = i + 1;
    }
    proof {
        assert(spec_dec_n::<T>(data, cur.pos(), 0) == Ok::<Seq<T::V>, DecodeError>(Seq::<T::V>::empty()));
        assert(views_of(res@) + Seq::<T::V>::empty() =~= views_of(res@));
    }
    cur.set_position(restore);
    Ok(res)
}

/// A relative string read fails only by truncation, never any other
/// way.
pub proof fn lemma_relstring_fails_truncated(data: Seq<u8>, pos: int)
    ensures
        spec_relstring(data, pos) is Ok || spec_relstring(data, pos) == Err::<
            Seq<char>,
            DecodeError,
        >(DecodeError::Truncated),
{
}

/// A run of record decodes that succeeds on a buffer fails closed on
/// any cut copy of it.
proof fn lemma_dec_n_truncation_fails_closed<T: POD>(data: Seq<u8>, pos: int, n: nat, k: int)
    requires
        0 <= k <= data.len(),
        spec_dec_n::<T>(data, pos, n) is Ok,
    ensures
        spec_dec_n::<T>(data.subrange(0, k), pos, n) is Ok || spec_dec_n::<T>(
            data.subrange(0, k),
            pos,
            n,
        ) == Err::<Seq<T::V>, DecodeError>(DecodeError::Truncated),
    decreases n,
{
    let pre = data.subrange(0, k);
    if n != 0 {
        T::lemma_truncation_fails_closed(data, pos, k);
        if T::spec_new(pre, pos) is Ok {
            lemma_dec_n_truncation_fails_closed::<T>(data, pos + T::header_size(), (n - 1) as nat, k);
        }
    }
}

/// A record slice that decodes from a buffer fails closed on any cut
/// copy of it.
pub proof fn lemma_relslice_truncation_fails_closed<T: POD>(data: Seq<u8>, pos: int, k: int)
    requires
        0 <= k <= data.len(),
        spec_relslice::<T>(data, pos) is Ok,
    ensures
        spec_relslice::<T>(data.subrange(0, k), pos) is Ok || spec_relslice::<T>(
            data.subrange(0, k),
            pos,
        ) == Err::<Seq<T::V>, DecodeError>(DecodeError::Truncated),
{
    let pre = data.subrange(0, k);
    if in_range(pre, pos, 8) {
        lemma_prefix_u32_le(data, k, pos);
        lemma_prefix_u32_le(data, k, pos + 4);
        let n = spec_u32_le_at(data, pos + 4);
        if n != 0 {
            let off = spec_u32_le_at(data, pos) as i32;
            let target = pos + off;
            if 0 <= target <= pre.len() {
                lemma_dec_n_truncation_fails_closed::<T>(data, target, n as nat, k);
            }
        }
    }
}

/// A relative pointer that decodes from a buffer fails closed on any
/// cut copy of it.
pub proof fn lemma_relptr_truncation_fails_closed<T: POD>(data: Seq<u8>, pos: int, k: int)
    requires
        0 <= k <= data.len(),
        spec_relptr::<T>(data, pos) is Ok,
    ensures
        spec_relptr::<T>(data.subrange(0, k), pos) is Ok || spec_relptr::<T>(
            data.subrange(0, k),
            pos,
        ) == Err::<T::V, DecodeError>(DecodeError::Truncated),
{
    let pre = data.subrange(0, k);
    if in_range(pre, pos, 4) {
        lemma_prefix_u32_le(data, k, pos);
        let off = spec_u32_le_at(data, pos) as i32;
        let target = pos + off;
        if 0 <= target <= pre.len() {
            T::lemma_truncation_fails_closed(data, target, k);
        }
    }
}

/// A bare little-endian `i32` stands in arrays of raw integers, decoded
/// with the same slice discipline as compound records.
impl POD for i32 {
    open spec fn header_size() -> int {
        4
    }

    open spec fn spec_new(data: Seq<u8>, pos: int) -> Result<i32, DecodeError> {
        if in_range(data, pos, 4) {
            Ok(spec_u32_le_at(data, pos) as i32)
        } else {
            Err(DecodeError::Truncated)
        }
    }

    fn new(cur: &mut Cursor) -> (r: Result<i32, DecodeError>) {
        cur.read_i32_le()
    }

    proof fn lemma_truncation_fails_closed(data: Seq<u8>, pos: int, k: int) {
    }
}

/// A bare little-endian `u32`, as `i32`.
impl POD for u32 {
    open spec fn header_size() -> int {
        4
    }

    open spec fn spec_new(data: Seq<u8>, pos: int) -> Result<u32, DecodeError> {
        if in_range(data, pos, 4) {
            Ok(spec_u32_le_at(data, pos))
        } else {
            Err(DecodeError::Truncated)
        }
    }

    fn new(cur: &mut Cursor) -> (r: Result<u32, DecodeError>) {
        cur.read_u32_le()
    }

    proof fn lemma_truncation_fails_closed(data: Seq<u8>, pos: int, k: int) {
    }
}

/// A relative string is itself a 4-byte record, so arrays of strings
/// decode through the same slice discipline.
impl POD for String {
    open spec fn header_size() -> int {
        4
    }

    open spec fn spec_new(data: Seq<u8>, pos: int) -> Result<Seq<char>, DecodeError> {
        spec_relstring(data, pos)
    }

    fn new(cur: &mut Cursor) -> (r: Result<String, DecodeError>) {
        read_relstring(cur)
    }

    proof fn lemma_truncation_fails_closed(data: Seq<u8>, pos: int, k: int) {
        lemma_relstring_fails_truncated(data.subrange(0, k), pos);
    }
}

/// Reads an array of raw `i32` values through a slice header.
pub fn read_reli32arr(cur: &mut Cursor) -> (r: Result<Vec<i32>, DecodeError>)
    requires
        old(cur).wf(),
    ensures
        final(cur).data() == old(cur).data(),
        final(cur).wf(),
        match r {
            Ok(v) => {
                &&& spec_relslice::<i32>(old(cur).data(), old(cur).pos()) == Ok::<Seq<i32>, DecodeError>(v@)
                &&& final(cur).pos() == old(cur).pos() + 8
            },
            Err(e) => spec_relslice::<i32>(old(cur).data(), old(cur).pos()) == Err::<Seq<i32>, DecodeError>(e),
        },
{
    let r = read_relslice::<i32>(cur);
    proof {
        if r is Ok {
            assert(views_of(r->Ok_0@) =~= r->Ok_0@);
        }
    }
    r
}

/// Reads an array of raw `u32` values through a slice header.
pub fn read_relu32arr(cur: &mut Cursor) -> (r: Result<Vec<u32>, DecodeError>)
    requires
        old(cur).wf(),
    ensures
        final(cur).data() == old(cur).data(),
        final(cur).wf(),
        match r {
            Ok(v) => {
                &&& spec_relslice::<u32>(old(cur).data(), old(cur).pos()) == Ok::<Seq<u32>, DecodeError>(v@)
                &&& final(cur).pos() == old(cur).pos() + 8
            },
            Err(e) => spec_relslice::<u32>(old(cur).data(), old(cur).pos()) == Err::<Seq<u32>, DecodeError>(e),
        },
{
    let r = read_relslice::<u32>(cur);
    proof {
        if r is Ok {
            assert(views_of(r->Ok_0@) =~= r->Ok_0@);
        }
    }
    r
}

/// Reads an array of relative strings through a slice header.
pub fn read_relstringarr(cur: &mut Cursor) -> (r: Result<Vec<String>, DecodeError>)
    requires
        old(cur).wf(),
    ensures
        final(cur).data() == old(cur).data(),
        final(cur).wf(),
        match r {
            Ok(v) => {
                &&& spec_relslice::<String>(old(cur).data(), old(cur).pos()) == Ok::<Seq<Seq<char>>, DecodeError>(views_of(v@))
                &&& final(cur).pos() == old(cur).pos() + 8
            },
            Err(e) => spec_relslice::<String>(old(cur).data(), old(cur).pos()) == Err::<Seq<Seq<char>>, DecodeError>(e),
        },
{
    read_relslice::<String>(cur)
}

/// Law: whenever a slice of records decodes successfully, it holds
/// exactly as many records as its length header states.
pub proof fn lemma_relslice_length_matches_header<T: POD>(data: Seq<u8>, pos: int)
    requires
        spec_relslice::<T>(data, pos) is Ok,
    ensures
        in_range(data, pos, 8),
        spec_relslice::<T>(data, pos)->Ok_0.len() == spec_u32_le_at(data, pos + 4),
{
    let n = spec_u32_le_at(data, pos + 4);
    if n != 0 {
        let off = spec_u32_le_at(data, pos) as i32;
        lemma_dec_n_length::<T>(data, pos + off, n as nat);
    }
}

/// Every successful run of `n` record decodes yields exactly `n`
/// records.
proof fn lemma_dec_n_length<T: POD>(data: Seq<u8>, pos: int, n: nat)
    requires
        spec_dec_n::<T>(data, pos, n) is Ok,
    ensures
        spec_dec_n::<T>(data, pos, n)->Ok_0.len() == n,
    decreases n,
{
    if n != 0 {
        lemma_dec_n_length::<T>(data, pos + T::header_size(), (n - 1) as nat);
    }
}

/// Law: a slice header with length zero decodes to the empty slice and
/// never seeks, whatever garbage its offset bytes hold.
pub proof fn lemma_relslice_zero_length<T: POD>(data: Seq<u8>, pos: int)
    requires
        in_range(data, pos, 8),
        spec_u32_le_at(data, pos + 4) == 0,
    ensures
        spec_relslice::<T>(data, pos) == Ok::<Seq<T::V>, DecodeError>(Seq::<T::V>::empty()),
{
}

/// Law: a string header whose computed target is the reserved -1
/// sentinel decodes to the empty string without dereferencing.
pub proof fn lemma_relstring_sentinel(data: Seq<u8>, pos: int)
    requires
        in_range(data, pos, 4),
        pos + (spec_u32_le_at(data, pos) as i32) == -1,
    ensures
        spec_relstring(data, pos) == Ok::<Seq<char>, DecodeError>(Seq::<char>::empty()),
{
}

} // verus!
