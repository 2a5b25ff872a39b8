use vstd::prelude::*;
use crate::reltypes::views_of;
use crate::varint::{
    dec_i32, dec_u32, dec_u64, enc_i32, enc_u32, enc_u64, lemma_i32_round_trip,
    lemma_u32_round_trip, spec_dec_i32, spec_dec_u32, spec_dec_u64, spec_enc_i32, spec_enc_u32,
    spec_enc_u64,
};

verus! {

/// A value of the minimized transport format: it has a canonical byte
/// encoding, an exact decoder, and a proof that the two are inverse.
pub trait Codec: Sized + View {
    /// The value fits the transport format (every sequence in it fits
    /// the length prefix).
    spec fn wf(v: Self::V) -> bool;

    /// The canonical byte encoding of the value.
    spec fn enc(v: Self::V) -> Seq<u8>;

    /// Reads one value at `pos`; yields it and the position just past
    /// it.
    spec fn dec(data: Seq<u8>, pos: int) -> Option<(Self::V, int)>;

    /// Reading back what was written yields the written value.
    proof fn lemma_round_trip(v: Self::V, data: Seq<u8>, pos: int)
        requires
            Self::wf(v),
            0 <= pos,
            pos + Self::enc(v).len() <= data.len(),
            data.subrange(pos, pos + Self::enc(v).len() as int) == Self::enc(v),
        ensures
            Self::dec(data, pos) == Some((v, pos + Self::enc(v).len() as int));

    /// Appends the value's encoding to the output.
    fn encode_into(&self, out: &mut Vec<u8>)
        ensures
            final(out)@ == old(out)@ + Self::enc(self@),
            Self::wf(self@);

    /// Reads one value at `pos`.
    fn decode_from(data: &[u8], pos: usize) -> (r: Option<(Self, usize)>)
        ensures
            match r {
                Some((v, p)) => {
                    &&& Self::dec(data@, pos as int) == Some((v@, p as int))
                    &&& pos <= p <= data@.len()
                },
                None => Self::dec(data@, pos as int) is None,
            };
}

/// The concatenated encodings of the elements, in order.
pub open spec fn spec_enc_seq<T: Codec>(s: Seq<T::V>) -> Seq<u8>
    decreases s.len(),
{
    if s.len() == 0 {
        Seq::<u8>::empty()
    } else {
        T::enc(s[0]) + spec_enc_seq::<T>(s.drop_first())
    }
}

/// Every element fits the format and the count fits the length prefix.
pub open spec fn wf_seq<T: Codec>(s: Seq<T::V>) -> bool {
    s.len() <= u64::MAX && forall|i: int| 0 <= i < s.len() ==> T::wf(#[trigger] s[i])
}

/// `n` consecutive elements read from `pos` on.
pub open spec fn spec_dec_seq_n<T: Codec>(data: Seq<u8>, pos: int, n: nat) -> Option<
    (Seq<T::V>, int),
>
    decreases n,
{
    if n == 0 {
        Some((Seq::<T::V>::empty(), pos))
    } else {
        match T::dec(data, pos) {
            Some((v, p)) => match spec_dec_seq_n::<T>(data, p, (n - 1) as nat) {
                Some((rest, p2)) => Some((seq![v] + rest, p2)),
                None => None,
            },
            None => None,
        }
    }
}

/// A whole vector: its length, then its elements.
pub open spec fn spec_enc_vec<T: Codec>(s: Seq<T::V>) -> Seq<u8> {
    spec_enc_u64(s.len() as u64) + spec_enc_seq::<T>(s)
}

pub open spec fn spec_dec_vec<T: Codec>(data: Seq<u8>, pos: int) -> Option<(Seq<T::V>, int)> {
    match spec_dec_u64(data, pos) {
        Some((n, p)) => spec_dec_seq_n::<T>(data, p, n as nat),
        None => None,
    }
}

/// A piece of a byte string laid down at `pos` reads back out of the
/// surrounding buffer unchanged.
pub proof fn lemma_part(data: Seq<u8>, pos: int, whole: Seq<u8>, a: int, b: int)
    requires
        0 <= pos,
        pos + whole.len() <= data.len(),
        data.subrange(pos, pos + whole.len() as int) == whole,
        0 <= a <= b <= whole.len(),
    ensures
        data.subrange(pos + a, pos + b) == whole.subrange(a, b),
{
    assert forall|j: int| pos + a <= j < pos + b implies #[trigger] data[j] == whole[j - pos] by {
        assert(data.subrange(pos, pos + whole.len() as int)[j - pos] == whole[j - pos]);
    }
    assert(data.subrange(pos + a, pos + b) =~= whole.subrange(a, b));
}

/// Appending one element extends the concatenated encoding at its end.
pub proof fn lemma_enc_seq_push<T: Codec>(s: Seq<T::V>, x: T::V)
    ensures
        spec_enc_seq::<T>(s.push(x)) == spec_enc_seq::<T>(s) + T::enc(x),
    decreases s.len(),
{
    if s.len() == 0 {
        assert(s.push(x)[0] == x);
        assert(s.push(x).drop_first() =~= Seq::<T::V>::empty());
        assert(spec_enc_seq::<T>(s.push(x)) == T::enc(x) + spec_enc_seq::<T>(
            s.push(x).drop_first(),
        ));
        assert(spec_enc_seq::<T>(s.push(x).drop_first()) == Seq::<u8>::empty());
        assert(spec_enc_seq::<T>(s) == Seq::<u8>::empty());
        assert(T::enc(x) + Seq::<u8>::empty() =~= Seq::<u8>::empty() + T::enc(x));
        assert(spec_enc_seq::<T>(s.push(x)) =~= spec_enc_seq::<T>(s) + T::enc(x));
    } else {
        assert(s.push(x)[0] == s[0]);
        assert(s.push(x).drop_first() =~= s.drop_first().push(x));
        assert(spec_enc_seq::<T>(s.push(x)) == T::enc(s[0]) + spec_enc_seq::<T>(
            s.drop_first().push(x),
        ));
        lemma_enc_seq_push::<T>(s.drop_first(), x);
        assert(T::enc(s[0]) + (spec_enc_seq::<T>(s.drop_first()) + T::enc(x)) =~= (T::enc(s[0])
            + spec_enc_seq::<T>(s.drop_first())) + T::enc(x));
        assert(spec_enc_seq::<T>(s.push(x)) =~= spec_enc_seq::<T>(s) + T::enc(x));
    }
}

/// Reading back a run of elements yields exactly the written elements.
pub proof fn lemma_seq_round_trip<T: Codec>(s: Seq<T::V>, data: Seq<u8>, pos: int)
    requires
        forall|i: int| 0 <= i < s.len() ==> T::wf(#[trigger] s[i]),
        0 <= pos,
        pos + spec_enc_seq::<T>(s).len() <= data.len(),
        data.subrange(pos, pos + spec_enc_seq::<T>(s).len() as int) == spec_enc_seq::<T>(s),
    ensures
        spec_dec_seq_n::<T>(data, pos, s.len()) == Some(
            (s, pos + spec_enc_seq::<T>(s).len() as int),
        ),
    decreases s.len(),
{
    if s.len() == 0 {
        assert(spec_dec_seq_n::<T>(data, pos, 0) == Some((Seq::<T::V>::empty(), pos)));
        assert(Seq::<T::V>::empty() =~= s);
    } else {
        let e = spec_enc_seq::<T>(s);
        let e0 = T::enc(s[0]);
        let rest = spec_enc_seq::<T>(s.drop_first());
        assert(e.subrange(0, e0.len() as int) =~= e0);
        lemma_part(data, pos, e, 0, e0.len() as int);
        T::lemma_round_trip(s[0], data, pos);
        assert(e.subrange(e0.len() as int, e.len() as int) =~= rest);
        lemma_part(data, pos, e, e0.len() as int, e.len() as int);
        lemma_seq_round_trip::<T>(s.drop_first(), data, pos + e0.len());
        assert(seq![s[0]] + s.drop_first() =~= s);
    }
}

/// Reading back a whole written vector yields the written vector.
pub proof fn lemma_vec_round_trip<T: Codec>(s: Seq<T::V>, data: Seq<u8>, pos: int)
    requires
        wf_seq::<T>(s),
        0 <= pos,
        pos + spec_enc_vec::<T>(s).len() <= data.len(),
        data.subrange(pos, pos + spec_enc_vec::<T>(s).len() as int) == spec_enc_vec::<T>(s),
    ensures
        spec_dec_vec::<T>(data, pos) == Some((s, pos + spec_enc_vec::<T>(s).len() as int)),
{
    let e = spec_enc_vec::<T>(s);
    let e0 = spec_enc_u64(s.len() as u64);
    let rest = spec_enc_seq::<T>(s);
    assert(e.subrange(0, e0.len() as int) =~= e0);
    lemma_part(data, pos, e, 0, e0.len() as int);
    crate::varint::lemma_u64_round_trip(s.len() as u64, data, pos);
    assert(e.subrange(e0.len() as int, e.len() as int) =~= rest);
    lemma_part(data, pos, e, e0.len() as int, e.len() as int);
    lemma_seq_round_trip::<T>(s, data, pos + e0.len());
}

/// Appends a whole vector, length first, to the output.
pub fn encode_vec_into<T: Codec>(v: &Vec<T>, out: &mut Vec<u8>)
    ensures
        final(out)@ == old(out)@ + spec_enc_vec::<T>(views_of(v@)),
        wf_seq::<T>(views_of(v@)),
{
    let n = v.len();
    enc_u64(out, n as u64);
    let ghost base = out@;
    let mut i: usize = 0;
    proof {
        assert(base + spec_enc_seq::<T>(views_of(v@.subrange(0, 0))) =~= base);
    }
    while i < n
        invariant
            i <= n,
            n == v@.len(),
            base == old(out)@ + spec_enc_u64(n as u64),
            out@ == base + spec_enc_seq::<T>(views_of(v@.subrange(0, i as int))),
            forall|j: int| 0 <= j < i ==> T::wf(#[trigger] views_of(v@)[j]),
        decreases n - i,
    {
        v[i].encode_into(out);
        proof {
            assert(views_of(v@.subrange(0, i + 1)) =~= views_of(v@.subrange(0, i as int)).push(
                v@[i as int]@,
            ));
            lemma_enc_seq_push::<T>(views_of(v@.subrange(0, i as int)), v@[i as int]@);
            assert(views_of(v@)[i as int] == v@[i as int]@);
        }
        i = i + 1;
    }
    proof {
        assert(views_of(v@.subrange(0, n as int)) =~= views_of(v@));
        assert(old(out)@ + spec_enc_u64(n as u64) + spec_enc_seq::<T>(views_of(v@)) =~= old(out)@
            + spec_enc_vec::<T>(views_of(v@)));
    }
}

/// Reads a whole vector, length first.
pub fn decode_vec_from<T: Codec>(data: &[u8], pos: usize) -> (r: Option<(Vec<T>, usize)>)
    ensures
        match r {
            Some((v, p)) => {
                &&& spec_dec_vec::<T>(data@, pos as int) == Some((views_of(v@), p as int))
                &&& pos <= p <= data@.len()
            },
            None => spec_dec_vec::<T>(data@, pos as int) is None,
        },
{
    match dec_u64(data, pos) {
        None => None,
        Some((n, start)) => {
            let mut res: Vec<T> = Vec::new();
            let mut p = start;
            let mut i: u64 = 0;
            proof {
                if spec_dec_seq_n::<T>(data@, p as int, n as nat) is Some {
                    let rest = spec_dec_seq_n::<T>(data@, p as int, n as nat)->Some_0.0;
                    assert(views_of(res@) + rest =~= rest);
                }
            }
            while i < n
                invariant
                    i <= n,
                    res@.len() == i,
                    pos <= p <= data@.len(),
                    spec_dec_u64(data@, pos as int) == Some((n, start as int)),
                    spec_dec_seq_n::<T>(data@, start as int, n as nat) == match spec_dec_seq_n::<
                        T,
                    >(data@, p as int, (n - i) as nat) {
                        Some((rest, pe)) => Some((views_of(res@) + rest, pe)),
                        None => None,
                    },
                decreases n - i,
            {
                match T::decode_from(data, p) {
                    Some((v, p2)) => {
                        proof {
                            let rest_n = (n - i) as nat;
                            if spec_dec_seq_n::<T>(data@, p2 as int, (rest_n - 1) as nat) is Some {
                                let rest = spec_dec_seq_n::<T>(
                                    data@,
                                    p2 as int,
                                    (rest_n - 1) as nat,
                                )->Some_0.0;
                                assert(views_of(res@) + (seq![v@] + rest) =~= views_of(
                                    res@.push(v),
                                ) + rest);
                            }
                        }
                        res.push(v);
                        p = p2;
                    },
                    None => {
                        return None;
                    },
                }
                i = i + 1;
            }
            proof {
                assert(spec_dec_seq_n::<T>(data@, p as int, 0) == Some(
                    (Seq::<T::V>::empty(), p as int),
                ));
                assert(views_of(res@) + Seq::<T::V>::empty() =~= views_of(res@));
            }
            Some((res, p))
        },
    }
}

/// A raw signed 32-bit value is itself transportable, zigzag-folded.
impl Codec for i32 {
    open spec fn wf(v: i32) -> bool {
        true
    }

    open spec fn enc(v: i32) -> Seq<u8> {
        spec_enc_i32(v)
    }

    open spec fn dec(data: Seq<u8>, pos: int) -> Option<(i32, int)> {
        spec_dec_i32(data, pos)
    }

    proof fn lemma_round_trip(v: i32, data: Seq<u8>, pos: int) {
        lemma_i32_round_trip(v, data, pos);
    }

    fn encode_into(&self, out: &mut Vec<u8>) {
        enc_i32(out, *self);
    }

    fn decode_from(data: &[u8], pos: usize) -> (r: Option<(i32, usize)>) {
        dec_i32(data, pos)
    }
}

/// A raw unsigned 32-bit value is itself transportable.
impl Codec for u32 {
    open spec fn wf(v: u32) -> bool {
        true
    }

    open spec fn enc(v: u32) -> Seq<u8> {
        spec_enc_u32(v)
    }

    open spec fn dec(data: Seq<u8>, pos: int) -> Option<(u32, int)> {
        spec_dec_u32(data, pos)
    }

    proof fn lemma_round_trip(v: u32, data: Seq<u8>, pos: int) {
        lemma_u32_round_trip(v, data, pos);
    }

    fn encode_into(&self, out: &mut Vec<u8>) {
        enc_u32(out, *self);
    }

    fn decode_from(data: &[u8], pos: usize) -> (r: Option<(u32, usize)>) {
        dec_u32(data, pos)
    }
}

} // verus!
