//! The encodable capability and its built-in composition rules: nullable
//! wrappers, fixed-length sequences, fixed-arity tuples, and zero-size
//! markers, all structurally recursive.
use vstd::prelude::*;
use vstd::array::array_index_get;
use std::marker::PhantomData;
use crate::pod::UnsafePod;
use crate::sink::UnsafePokable;

verus! {

/// The encodable capability: a type that can lay itself down into any
/// destination and knows a static, value-independent upper bound on its
/// encoded length.
pub trait UnsafePoke {
    /// The exact wire bytes of this value.
    spec fn wire(&self) -> Seq<u8>;

    /// The static upper bound on the encoded length of any value of the
    /// type. Sound, not necessarily tight.
    spec fn size_bound() -> nat;

    /// Upper-bound soundness: no value encodes past the bound.
    proof fn wire_bounded(&self)
        ensures
            self.wire().len() <= Self::size_bound(),
    ;

    /// Write this value into the destination, advancing it by exactly the
    /// value's wire length. The destination must have the full bound free.
    fn poke<UP: UnsafePokable>(&self, up: UP) -> (r: UP)
        requires
            Self::size_bound() <= up.room(),
        ensures
            r.written() == up.written() + self.wire(),
            r.room() + self.wire().len() == up.room(),
    ;

    /// The static bound as a runtime value.
    fn poke_max_size() -> (n: usize)
        requires
            Self::size_bound() <= usize::MAX,
        ensures
            n == Self::size_bound(),
    ;
}

/// The wire bytes of a whole sequence of values: each element's encoding,
/// concatenated in index order.
pub open spec fn wire_seq<T: UnsafePoke>(s: Seq<T>) -> Seq<u8>
    decreases s.len(),
{
    if s.len() == 0 {
        Seq::empty()
    } else {
        s[0].wire() + wire_seq(s.drop_first())
    }
}

/// Concatenation distributes over `wire_seq`.
pub proof fn lemma_wire_seq_concat<T: UnsafePoke>(a: Seq<T>, b: Seq<T>)
    ensures
        wire_seq(a + b) == wire_seq(a) + wire_seq(b),
    decreases a.len(),
{
    if a.len() == 0 {
        assert(a + b =~= b);
        assert(wire_seq(a) + wire_seq(b) =~= wire_seq(b));
    } else {
        assert((a + b).drop_first() =~= a.drop_first() + b);
        lemma_wire_seq_concat(a.drop_first(), b);
        assert(a[0].wire() + (wire_seq(a.drop_first()) + wire_seq(b)) =~= (a[0].wire()
            + wire_seq(a.drop_first())) + wire_seq(b));
        assert((a + b)[0] == a[0]);
    }
}

/// A one-element sequence encodes to just that element's encoding.
pub proof fn lemma_wire_seq_single<T: UnsafePoke>(x: T)
    ensures
        wire_seq(seq![x]) == x.wire(),
{
    let s = seq![x];
    assert(s.drop_first() =~= Seq::<T>::empty());
    assert(wire_seq(Seq::<T>::empty()) =~= Seq::<u8>::empty());
    assert(wire_seq(s) == s[0].wire() + wire_seq(s.drop_first()));
    assert(s[0].wire() + Seq::<u8>::empty() =~= x.wire());
}

/// A sequence of `n` values of bound `b` encodes to at most `n * b` bytes.
pub proof fn lemma_wire_seq_bound<T: UnsafePoke>(s: Seq<T>)
    ensures
        wire_seq(s).len() <= s.len() * T::size_bound(),
    decreases s.len(),
{
    if s.len() > 0 {
        s[0].wire_bounded();
        lemma_wire_seq_bound(s.drop_first());
        assert(T::size_bound() + (s.len() - 1) * T::size_bound() == s.len()
            * T::size_bound()) by (nonlinear_arith);
    }
}

/// A plain-data value is encoded by the direct copy of its wire image.
impl<T: UnsafePod> UnsafePoke for T {
    open spec fn wire(&self) -> Seq<u8> {
        self.pod_wire()
    }

    open spec fn size_bound() -> nat {
        T::pod_size()
    }

    proof fn wire_bounded(&self) {
        self.pod_wire_len();
    }

    fn poke<UP: UnsafePokable>(&self, up: UP) -> UP {
        proof {
            self.pod_wire_len();
        }
        up.poke_pod(*self)
    }

    fn poke_max_size() -> usize {
        T::pod_width()
    }
}

/// A nullable wrapper: one presence byte (1 for present, 0 for absent),
/// then the inner encoding only if present.
impl<T: UnsafePoke> UnsafePoke for Option<T> {
    open spec fn wire(&self) -> Seq<u8> {
        match self {
            Option::Some(v) => seq![1u8] + v.wire(),
            Option::None => seq![0u8],
        }
    }

    open spec fn size_bound() -> nat {
        1 + T::size_bound()
    }

    proof fn wire_bounded(&self) {
        match self {
            Option::Some(v) => v.wire_bounded(),
            Option::None => {},
        }
    }

    fn poke<UP: UnsafePokable>(&self, up: UP) -> UP {
        match self {
            Option::Some(v) => {
                proof {
                    v.wire_bounded();
                    crate::wire::lemma_le_bytes_single(1);
                    assert(1u8.pod_wire() =~= seq![1u8]);
                }
                let ghost w0 = up.written();
                let mid = 1u8.poke(up);
                let r = v.poke(mid);
                proof {
                    assert(w0 + (seq![1u8] + v.wire()) =~= (w0 + seq![1u8]) + v.wire());
                }
                r
            },
            Option::None => {
                proof {
                    crate::wire::lemma_le_bytes_single(0);
                    assert(0u8.pod_wire() =~= seq![0u8]);
                }
                0u8.poke(up)
            },
        }
    }

    fn poke_max_size() -> usize {
        1 + T::poke_max_size()
    }
}

/// The unit value carries no data and contributes no bytes.
impl UnsafePoke for () {
    open spec fn wire(&self) -> Seq<u8> {
        Seq::empty()
    }

    open spec fn size_bound() -> nat {
        0
    }

    proof fn wire_bounded(&self) {
    }

    fn poke<UP: UnsafePokable>(&self, up: UP) -> UP {
        proof {
            assert(up.written() + Seq::<u8>::empty() =~= up.written());
        }
        up
    }

    fn poke_max_size() -> usize {
        0
    }
}

/// A zero-size marker encodes to nothing, whatever its type parameter;
/// the parameter owes no capability of its own.
impl<T> UnsafePoke for PhantomData<T> {
    open spec fn wire(&self) -> Seq<u8> {
        Seq::empty()
    }

    open spec fn size_bound() -> nat {
        0
    }

    proof fn wire_bounded(&self) {
    }

    fn poke<UP: UnsafePokable>(&self, up: UP) -> UP {
        proof {
            assert(up.written() + Seq::<u8>::empty() =~= up.written());
        }
        up
    }

    fn poke_max_size() -> usize {
        0
    }
}

/// A fixed-length sequence: the elements' encodings concatenated in index
/// order, bounded by the length times the element bound.
impl<T: UnsafePoke, const N: usize> UnsafePoke for [T; N] {
    open spec fn wire(&self) -> Seq<u8> {
        wire_seq(self@)
    }

    open spec fn size_bound() -> nat {
        (N * T::size_bound()) as nat
    }

    proof fn wire_bounded(&self) {
        lemma_wire_seq_bound(self@);
    }

    fn poke<UP: UnsafePokable>(&self, up: UP) -> UP {
        proof {
            lemma_wire_seq_bound(self@);
        }
        let ghost w0 = up.written();
        let ghost r0 = up.room();
        let mut cur = up;
        let mut i: usize = 0;
        while i < N
            invariant
                i <= N,
                self@.len() == N,
                cur.written() == w0 + wire_seq(self@.take(i as int)),
                cur.room() + wire_seq(self@.take(i as int)).len() == r0,
                N * T::size_bound() <= r0,
            decreases N - i,
        {
            proof {
                lemma_wire_seq_bound(self@.take(i as int));
                assert(i * T::size_bound() + (N - i) * T::size_bound() == N
                    * T::size_bound()) by (nonlinear_arith);
                assert(wire_seq(self@.take(i as int)).len() <= i * T::size_bound());
                assert((N - i) * T::size_bound() >= 1 * T::size_bound())
                    by (nonlinear_arith)
                    requires i < N;
            }
            let e = array_index_get(self, i);
            cur = e.poke(cur);
            proof {
                assert(self@.take(i + 1) =~= self@.take(i as int) + seq![self@[i as int]]);
                lemma_wire_seq_concat(self@.take(i as int), seq![self@[i as int]]);
                lemma_wire_seq_single(self@[i as int]);
                assert((w0 + wire_seq(self@.take(i as int))) + self@[i as int].wire()
                    =~= w0 + (wire_seq(self@.take(i as int)) + self@[i as int].wire()));
            }
            i = i + 1;
        }
        proof {
            assert(self@.take(N as int) =~= self@);
        }
        cur
    }

    fn poke_max_size() -> usize {
        if N == 0 {
            0
        } else {
            proof {
                assert(1 * T::size_bound() <= N * T::size_bound()) by (nonlinear_arith)
                    requires N >= 1;
            }
            let t = T::poke_max_size();
            N * t
        }
    }
}

/// A fixed-arity tuple: each component's encoding concatenated in
/// declared order; the bound is the sum of the components' bounds.
impl<T0: UnsafePoke> UnsafePoke for (T0,) {
    open spec fn wire(&self) -> Seq<u8> {
        self.0.wire()
    }

    open spec fn size_bound() -> nat {
        T0::size_bound()
    }

    proof fn wire_bounded(&self) {
        self.0.wire_bounded();
    }

    fn poke<UP: UnsafePokable>(&self, up: UP) -> UP {
        proof {
            self.0.wire_bounded();
        }
        let ghost w0 = up.written();
        let up = self.0.poke(up);
        proof {
            assert(up.written() =~= w0 + self.wire());
        }
        up
    }

    fn poke_max_size() -> usize {
        let m0 = T0::poke_max_size();
        m0
    }
}

impl<T0: UnsafePoke, T1: UnsafePoke> UnsafePoke for (T0, T1) {
    open spec fn wire(&self) -> Seq<u8> {
        self.0.wire() + self.1.wire()
    }

    open spec fn size_bound() -> nat {
        T0::size_bound() + T1::size_bound()
    }

    proof fn wire_bounded(&self) {
        self.0.wire_bounded();
        self.1.wire_bounded();
    }

    fn poke<UP: UnsafePokable>(&self, up: UP) -> UP {
        proof {
            self.0.wire_bounded();
            self.1.wire_bounded();
        }
        let ghost w0 = up.written();
        let up = self.0.poke(up);
        let up = self.1.poke(up);
        proof {
            assert(up.written() =~= w0 + self.wire());
        }
        up
    }

    fn poke_max_size() -> usize {
        let m0 = T0::poke_max_size();
        let m1 = T1::poke_max_size();
        m0 + m1
    }
}

impl<T0: UnsafePoke, T1: UnsafePoke, T2: UnsafePoke> UnsafePoke for (T0, T1, T2) {
    open spec fn wire(&self) -> Seq<u8> {
        self.0.wire() + self.1.wire() + self.2.wire()
    }

    open spec fn size_bound() -> nat {
        T0::size_bound() + T1::size_bound() + T2::size_bound()
    }

    proof fn wire_bounded(&self) {
        self.0.wire_bounded();
        self.1.wire_bounded();
        self.2.wire_bounded();
    }

    fn poke<UP: UnsafePokable>(&self, up: UP) -> UP {
        proof {
            self.0.wire_bounded();
            self.1.wire_bounded();
            self.2.wire_bounded();
        }
        let ghost w0 = up.written();
        let up = self.0.poke(up);
        let up = self.1.poke(up);
        let up = self.2.poke(up);
        proof {
            assert(up.written() =~= w0 + self.wire());
        }
        up
    }

    fn poke_max_size() -> usize {
        let m0 = T0::poke_max_size();
        let m1 = T1::poke_max_size();
        let m2 = T2::poke_max_size();
        m0 + m1 + m2
    }
}

impl<T0: UnsafePoke, T1: UnsafePoke, T2: UnsafePoke, T3: UnsafePoke> UnsafePoke for (T0, T1, T2, T3) {
    open spec fn wire(&self) -> Seq<u8> {
        self.0.wire() + self.1.wire() + self.2.wire() + self.3.wire()
    }

    open spec fn size_bound() -> nat {
        T0::size_bound() + T1::size_bound() + T2::size_bound() + T3::size_bound()
    }

    proof fn wire_bounded(&self) {
        self.0.wire_bounded();
        self.1.wire_bounded();
        self.2.wire_bounded();
        self.3.wire_bounded();
    }

    fn poke<UP: UnsafePokable>(&self, up: UP) -> UP {
        proof {
            self.0.wire_bounded();
            self.1.wire_bounded();
            self.2.wire_bounded();
            self.3.wire_bounded();
        }
        let ghost w0 = up.written();
        let up = self.0.poke(up);
        let up = self.1.poke(up);
        let up = self.2.poke(up);
        let up = self.3.poke(up);
        proof {
            assert(up.written() =~= w0 + self.wire());
        }
        up
    }

    fn poke_max_size() -> usize {
        let m0 = T0::poke_max_size();
        let m1 = T1::poke_max_size();
        let m2 = T2::poke_max_size();
        let m3 = T3::poke_max_size();
        m0 + m1 + m2 + m3
    }
}

impl<T0: UnsafePoke, T1: UnsafePoke, T2: UnsafePoke, T3: UnsafePoke, T4: UnsafePoke> UnsafePoke for (T0, T1, T2, T3, T4) {
    open spec fn wire(&self) -> Seq<u8> {
        self.0.wire() + self.1.wire() + self.2.wire() + self.3.wire() + self.4.wire()
    }

    open spec fn size_bound() -> nat {
        T0::size_bound() + T1::size_bound() + T2::size_bound() + T3::size_bound() + T4::size_bound()
    }

    proof fn wire_bounded(&self) {
        self.0.wire_bounded();
        self.1.wire_bounded();
        self.2.wire_bounded();
        self.3.wire_bounded();
        self.4.wire_bounded();
    }

    fn poke<UP: UnsafePokable>(&self, up: UP) -> UP {
        proof {
            self.0.wire_bounded();
            self.1.wire_bounded();
            self.2.wire_bounded();
            self.3.wire_bounded();
            self.4.wire_bounded();
        }
        let ghost w0 = up.written();
        let up = self.0.poke(up);
        let up = self.1.poke(up);
        let up = self.2.poke(up);
        let up = self.3.poke(up);
        let up = self.4.poke(up);
        proof {
            assert(up.written() =~= w0 + self.wire());
        }
        up
    }

    fn poke_max_size() -> usize {
        let m0 = T0::poke_max_size();
        let m1 = T1::poke_max_size();
        let m2 = T2::poke_max_size();
        let m3 = T3::poke_max_size();
        let m4 = T4::poke_max_size();
        m0 + m1 + m2 + m3 + m4
    }
}

impl<T0: UnsafePoke, T1: UnsafePoke, T2: UnsafePoke, T3: UnsafePoke, T4: UnsafePoke, T5: UnsafePoke> UnsafePoke for (T0, T1, T2, T3, T4, T5) {
    open spec fn wire(&self) -> Seq<u8> {
        self.0.wire() + self.1.wire() + self.2.wire() + self.3.wire() + self.4.wire() + self.5.wire()
    }

    open spec fn size_bound() -> nat {
        T0::size_bound() + T1::size_bound() + T2::size_bound() + T3::size_bound() + T4::size_bound() + T5::size_bound()
    }

    proof fn wire_bounded(&self) {
        self.0.wire_bounded();
        self.1.wire_bounded();
        self.2.wire_bounded();
        self.3.wire_bounded();
        self.4.wire_bounded();
        self.5.wire_bounded();
    }

    fn poke<UP: UnsafePokable>(&self, up: UP) -> UP {
        proof {
            self.0.wire_bounded();
            self.1.wire_bounded();
            self.2.wire_bounded();
            self.3.wire_bounded();
            self.4.wire_bounded();
            self.5.wire_bounded();
        }
        let ghost w0 = up.written();
        let up = self.0.poke(up);
        let up = self.1.poke(up);
        let up = self.2.poke(up);
        let up = self.3.poke(up);
        let up = self.4.poke(up);
        let up = self.5.poke(up);
        proof {
            assert(up.written() =~= w0 + self.wire());
        }
        up
    }

    fn poke_max_size() -> usize {
        let m0 = T0::poke_max_size();
        let m1 = T1::poke_max_size();
        let m2 = T2::poke_max_size();
        let m3 = T3::poke_max_size();
        let m4 = T4::poke_max_size();
        let m5 = T5::poke_max_size();
        m0 + m1 + m2 + m3 + m4 + m5
    }
}

impl<T0: UnsafePoke, T1: UnsafePoke, T2: UnsafePoke, T3: UnsafePoke, T4: UnsafePoke, T5: UnsafePoke, T6: UnsafePoke> UnsafePoke for (T0, T1, T2, T3, T4, T5, T6) {
    open spec fn wire(&self) -> Seq<u8> {
        self.0.wire() + self.1.wire() + self.2.wire() + self.3.wire() + self.4.wire() + self.5.wire() + self.6.wire()
    }

    open spec fn size_bound() -> nat {
        T0::size_bound() + T1::size_bound() + T2::size_bound() + T3::size_bound() + T4::size_bound() + T5::size_bound() + T6::size_bound()
    }

    proof fn wire_bounded(&self) {
        self.0.wire_bounded();
        self.1.wire_bounded();
        self.2.wire_bounded();
        self.3.wire_bounded();
        self.4.wire_bounded();
        self.5.wire_bounded();
        self.6.wire_bounded();
    }

    fn poke<UP: UnsafePokable>(&self, up: UP) -> UP {
        proof {
            self.0.wire_bounded();
            self.1.wire_bounded();
            self.2.wire_bounded();
            self.3.wire_bounded();
            self.4.wire_bounded();
            self.5.wire_bounded();
            self.6.wire_bounded();
        }
        let ghost w0 = up.written();
        let up = self.0.poke(up);
        let up = self.1.poke(up);
        let up = self.2.poke(up);
        let up = self.3.poke(up);
        let up = self.4.poke(up);
        let up = self.5.poke(up);
        let up = self.6.poke(up);
        proof {
            assert(up.written() =~= w0 + self.wire());
        }
        up
    }

    fn poke_max_size() -> usize {
        let m0 = T0::poke_max_size();
        let m1 = T1::poke_max_size();
        let m2 = T2::poke_max_size();
        let m3 = T3::poke_max_size();
        let m4 = T4::poke_max_size();
        let m5 = T5::poke_max_size();
        let m6 = T6::poke_max_size();
        m0 + m1 + m2 + m3 + m4 + m5 + m6
    }
}

impl<T0: UnsafePoke, T1: UnsafePoke, T2: UnsafePoke, T3: UnsafePoke, T4: UnsafePoke, T5: UnsafePoke, T6: UnsafePoke, T7: UnsafePoke> UnsafePoke for (T0, T1, T2, T3, T4, T5, T6, T7) {
    open spec fn wire(&self) -> Seq<u8> {
        self.0.wire() + self.1.wire() + self.2.wire() + self.3.wire() + self.4.wire() + self.5.wire() + self.6.wire() + self.7.wire()
    }

    open spec fn size_bound() -> nat {
        T0::size_bound() + T1::size_bound() + T2::size_bound() + T3::size_bound() + T4::size_bound() + T5::size_bound() + T6::size_bound() + T7::size_bound()
    }

    proof fn wire_bounded(&self) {
        self.0.wire_bounded();
        self.1.wire_bounded();
        self.2.wire_bounded();
        self.3.wire_bounded();
        self.4.wire_bounded();
        self.5.wire_bounded();
        self.6.wire_bounded();
        self.7.wire_bounded();
    }

    fn poke<UP: UnsafePokable>(&self, up: UP) -> UP {
        proof {
            self.0.wire_bounded();
            self.1.wire_bounded();
            self.2.wire_bounded();
            self.3.wire_bounded();
            self.4.wire_bounded();
            self.5.wire_bounded();
            self.6.wire_bounded();
            self.7.wire_bounded();
        }
        let ghost w0 = up.written();
        let up = self.0.poke(up);
        let up = self.1.poke(up);
        let up = self.2.poke(up);
        let up = self.3.poke(up);
        let up = self.4.poke(up);
        let up = self.5.poke(up);
        let up = self.6.poke(up);
        let up = self.7.poke(up);
        proof {
            assert(up.written() =~= w0 + self.wire());
        }
        up
    }

    fn poke_max_size() -> usize {
        let m0 = T0::poke_max_size();
        let m1 = T1::poke_max_size();
        let m2 = T2::poke_max_size();
        let m3 = T3::poke_max_size();
        let m4 = T4::poke_max_size();
        let m5 = T5::poke_max_size();
        let m6 = T6::poke_max_size();
        let m7 = T7::poke_max_size();
        m0 + m1 + m2 + m3 + m4 + m5 + m6 + m7
    }
}

impl<T0: UnsafePoke, T1: UnsafePoke, T2: UnsafePoke, T3: UnsafePoke, T4: UnsafePoke, T5: UnsafePoke, T6: UnsafePoke, T7: UnsafePoke, T8: UnsafePoke> UnsafePoke for (T0, T1, T2, T3, T4, T5, T6, T7, T8) {
    open spec fn wire(&self) -> Seq<u8> {
        self.0.wire() + self.1.wire() + self.2.wire() + self.3.wire() + self.4.wire() + self.5.wire() + self.6.wire() + self.7.wire() + self.8.wire()
    }

    open spec fn size_bound() -> nat {
        T0::size_bound() + T1::size_bound() + T2::size_bound() + T3::size_bound() + T4::size_bound() + T5::size_bound() + T6::size_bound() + T7::size_bound() + T8::size_bound()
    }

    proof fn wire_bounded(&self) {
        self.0.wire_bounded();
        self.1.wire_bounded();
        self.2.wire_bounded();
        self.3.wire_bounded();
        self.4.wire_bounded();
        self.5.wire_bounded();
        self.6.wire_bounded();
        self.7.wire_bounded();
        self.8.wire_bounded();
    }

    fn poke<UP: UnsafePokable>(&self, up: UP) -> UP {
        proof {
            self.0.wire_bounded();
            self.1.wire_bounded();
            self.2.wire_bounded();
            self.3.wire_bounded();
            self.4.wire_bounded();
            self.5.wire_bounded();
            self.6.wire_bounded();
            self.7.wire_bounded();
            self.8.wire_bounded();
        }
        let ghost w0 = up.written();
        let up = self.0.poke(up);
        let up = self.1.poke(up);
        let up = self.2.poke(up);
        let up = self.3.poke(up);
        let up = self.4.poke(up);
        let up = self.5.poke(up);
        let up = self.6.poke(up);
        let up = self.7.poke(up);
        let up = self.8.poke(up);
        proof {
            assert(up.written() =~= w0 + self.wire());
        }
        up
    }

    fn poke_max_size() -> usize {
        let m0 = T0::poke_max_size();
        let m1 = T1::poke_max_size();
        let m2 = T2::poke_max_size();
        let m3 = T3::poke_max_size();
        let m4 = T4::poke_max_size();
        let m5 = T5::poke_max_size();
        let m6 = T6::poke_max_size();
        let m7 = T7::poke_max_size();
        let m8 = T8::poke_max_size();
        m0 + m1 + m2 + m3 + m4 + m5 + m6 + m7 + m8
    }
}

impl<T0: UnsafePoke, T1: UnsafePoke, T2: UnsafePoke, T3: UnsafePoke, T4: UnsafePoke, T5: UnsafePoke, T6: UnsafePoke, T7: UnsafePoke, T8: UnsafePoke, T9: UnsafePoke> UnsafePoke for (T0, T1, T2, T3, T4, T5, T6, T7, T8, T9) {
    open spec fn wire(&self) -> Seq<u8> {
        self.0.wire() + self.1.wire() + self.2.wire() + self.3.wire() + self.4.wire() + self.5.wire() + self.6.wire() + self.7.wire() + self.8.wire() + self.9.wire()
    }

    open spec fn size_bound() -> nat {
        T0::size_bound() + T1::size_bound() + T2::size_bound() + T3::size_bound() + T4::size_bound() + T5::size_bound() + T6::size_bound() + T7::size_bound() + T8::size_bound() + T9::size_bound()
    }

    proof fn wire_bounded(&self) {
        self.0.wire_bounded();
        self.1.wire_bounded();
        self.2.wire_bounded();
        self.3.wire_bounded();
        self.4.wire_bounded();
        self.5.wire_bounded();
        self.6.wire_bounded();
        self.7.wire_bounded();
        self.8.wire_bounded();
        self.9.wire_bounded();
    }

    fn poke<UP: UnsafePokable>(&self, up: UP) -> UP {
        proof {
            self.0.wire_bounded();
            self.1.wire_bounded();
            self.2.wire_bounded();
            self.3.wire_bounded();
            self.4.wire_bounded();
            self.5.wire_bounded();
            self.6.wire_bounded();
            self.7.wire_bounded();
            self.8.wire_bounded();
            self.9.wire_bounded();
        }
        let ghost w0 = up.written();
        let up = self.0.poke(up);
        let up = self.1.poke(up);
        let up = self.2.poke(up);
        let up = self.3.poke(up);
        let up = self.4.poke(up);
        let up = self.5.poke(up);
        let up = self.6.poke(up);
        let up = self.7.poke(up);
        let up = self.8.poke(up);
        let up = self.9.poke(up);
        proof {
            assert(up.written() =~= w0 + self.wire());
        }
        up
    }

    fn poke_max_size() -> usize {
        let m0 = T0::poke_max_size();
        let m1 = T1::poke_max_size();
        let m2 = T2::poke_max_size();
        let m3 = T3::poke_max_size();
        let m4 = T4::poke_max_size();
        let m5 = T5::poke_max_size();
        let m6 = T6::poke_max_size();
        let m7 = T7::poke_max_size();
        let m8 = T8::poke_max_size();
        let m9 = T9::poke_max_size();
        m0 + m1 + m2 + m3 + m4 + m5 + m6 + m7 + m8 + m9
    }
}

impl<T0: UnsafePoke, T1: UnsafePoke, T2: UnsafePoke, T3: UnsafePoke, T4: UnsafePoke, T5: UnsafePoke, T6: UnsafePoke, T7: UnsafePoke, T8: UnsafePoke, T9: UnsafePoke, T10: UnsafePoke> UnsafePoke for (T0, T1, T2, T3, T4, T5, T6, T7, T8, T9, T10) {
    open spec fn wire(&self) -> Seq<u8> {
        self.0.wire() + self.1.wire() + self.2.wire() + self.3.wire() + self.4.wire() + self.5.wire() + self.6.wire() + self.7.wire() + self.8.wire() + self.9.wire() + self.10.wire()
    }

    open spec fn size_bound() -> nat {
        T0::size_bound() + T1::size_bound() + T2::size_bound() + T3::size_bound() + T4::size_bound() + T5::size_bound() + T6::size_bound() + T7::size_bound() + T8::size_bound() + T9::size_bound() + T10::size_bound()
    }

    proof fn wire_bounded(&self) {
        self.0.wire_bounded();
        self.1.wire_bounded();
        self.2.wire_bounded();
        self.3.wire_bounded();
        self.4.wire_bounded();
        self.5.wire_bounded();
        self.6.wire_bounded();
        self.7.wire_bounded();
        self.8.wire_bounded();
        self.9.wire_bounded();
        self.10.wire_bounded();
    }

    fn poke<UP: UnsafePokable>(&self, up: UP) -> UP {
        proof {
            self.0.wire_bounded();
            self.1.wire_bounded();
            self.2.wire_bounded();
            self.3.wire_bounded();
            self.4.wire_bounded();
            self.5.wire_bounded();
            self.6.wire_bounded();
            self.7.wire_bounded();
            self.8.wire_bounded();
            self.9.wire_bounded();
            self.10.wire_bounded();
        }
        let ghost w0 = up.written();
        let up = self.0.poke(up);
        let up = self.1.poke(up);
        let up = self.2.poke(up);
        let up = self.3.poke(up);
        let up = self.4.poke(up);
        let up = self.5.poke(up);
        let up = self.6.poke(up);
        let up = self.7.poke(up);
        let up = self.8.poke(up);
        let up = self.9.poke(up);
        let up = self.10.poke(up);
        proof {
            assert(up.written() =~= w0 + self.wire());
        }
        up
    }

    fn poke_max_size() -> usize {
        let m0 = T0::poke_max_size();
        let m1 = T1::poke_max_size();
        let m2 = T2::poke_max_size();
        let m3 = T3::poke_max_size();
        let m4 = T4::poke_max_size();
        let m5 = T5::poke_max_size();
        let m6 = T6::poke_max_size();
        let m7 = T7::poke_max_size();
        let m8 = T8::poke_max_size();
        let m9 = T9::poke_max_size();
        let m10 = T10::poke_max_size();
        m0 + m1 + m2 + m3 + m4 + m5 + m6 + m7 + m8 + m9 + m10
    }
}

impl<T0: UnsafePoke, T1: UnsafePoke, T2: UnsafePoke, T3: UnsafePoke, T4: UnsafePoke, T5: UnsafePoke, T6: UnsafePoke, T7: UnsafePoke, T8: UnsafePoke, T9: UnsafePoke, T10: UnsafePoke, T11: UnsafePoke> UnsafePoke for (T0, T1, T2, T3, T4, T5, T6, T7, T8, T9, T10, T11) {
    open spec fn wire(&self) -> Seq<u8> {
        self.0.wire() + self.1.wire() + self.2.wire() + self.3.wire() + self.4.wire() + self.5.wire() + self.6.wire() + self.7.wire() + self.8.wire() + self.9.wire() + self.10.wire() + self.11.wire()
    }

    open spec fn size_bound() -> nat {
        T0::size_bound() + T1::size_bound() + T2::size_bound() + T3::size_bound() + T4::size_bound() + T5::size_bound() + T6::size_bound() + T7::size_bound() + T8::size_bound() + T9::size_bound() + T10::size_bound() + T11::size_bound()
    }

    proof fn wire_bounded(&self) {
        self.0.wire_bounded();
        self.1.wire_bounded();
        self.2.wire_bounded();
        self.3.wire_bounded();
        self.4.wire_bounded();
        self.5.wire_bounded();
        self.6.wire_bounded();
        self.7.wire_bounded();
        self.8.wire_bounded();
        self.9.wire_bounded();
        self.10.wire_bounded();
        self.11.wire_bounded();
    }

    fn poke<UP: UnsafePokable>(&self, up: UP) -> UP {
        proof {
            self.0.wire_bounded();
            self.1.wire_bounded();
            self.2.wire_bounded();
            self.3.wire_bounded();
            self.4.wire_bounded();
            self.5.wire_bounded();
            self.6.wire_bounded();
            self.7.wire_bounded();
            self.8.wire_bounded();
            self.9.wire_bounded();
            self.10.wire_bounded();
            self.11.wire_bounded();
        }
        let ghost w0 = up.written();
        let up = self.0.poke(up);
        let up = self.1.poke(up);
        let up = self.2.poke(up);
        let up = self.3.poke(up);
        let up = self.4.poke(up);
        let up = self.5.poke(up);
        let up = self.6.poke(up);
        let up = self.7.poke(up);
        let up = self.8.poke(up);
        let up = self.9.poke(up);
        let up = self.10.poke(up);
        let up = self.11.poke(up);
        proof {
            assert(up.written() =~= w0 + self.wire());
        }
        up
    }

    fn poke_max_size() -> usize {
        let m0 = T0::poke_max_size();
        let m1 = T1::poke_max_size();
        let m2 = T2::poke_max_size();
        let m3 = T3::poke_max_size();
        let m4 = T4::poke_max_size();
        let m5 = T5::poke_max_size();
        let m6 = T6::poke_max_size();
        let m7 = T7::poke_max_size();
        let m8 = T8::poke_max_size();
        let m9 = T9::poke_max_size();
        let m10 = T10::poke_max_size();
        let m11 = T11::poke_max_size();
        m0 + m1 + m2 + m3 + m4 + m5 + m6 + m7 + m8 + m9 + m10 + m11
    }
}

impl<T0: UnsafePoke, T1: UnsafePoke, T2: UnsafePoke, T3: UnsafePoke, T4: UnsafePoke, T5: UnsafePoke, T6: UnsafePoke, T7: UnsafePoke, T8: UnsafePoke, T9: UnsafePoke, T10: UnsafePoke, T11: UnsafePoke, T12: UnsafePoke> UnsafePoke for (T0, T1, T2, T3, T4, T5, T6, T7, T8, T9, T10, T11, T12) {
    open spec fn wire(&self) -> Seq<u8> {
        self.0.wire() + self.1.wire() + self.2.wire() + self.3.wire() + self.4.wire() + self.5.wire() + self.6.wire() + self.7.wire() + self.8.wire() + self.9.wire() + self.10.wire() + self.11.wire() + self.12.wire()
    }

    open spec fn size_bound() -> nat {
        T0::size_bound() + T1::size_bound() + T2::size_bound() + T3::size_bound() + T4::size_bound() + T5::size_bound() + T6::size_bound() + T7::size_bound() + T8::size_bound() + T9::size_bound() + T10::size_bound() + T11::size_bound() + T12::size_bound()
    }

    proof fn wire_bounded(&self) {
        self.0.wire_bounded();
        self.1.wire_bounded();
        self.2.wire_bounded();
        self.3.wire_bounded();
        self.4.wire_bounded();
        self.5.wire_bounded();
        self.6.wire_bounded();
        self.7.wire_bounded();
        self.8.wire_bounded();
        self.9.wire_bounded();
        self.10.wire_bounded();
        self.11.wire_bounded();
        self.12.wire_bounded();
    }

    fn poke<UP: UnsafePokable>(&self, up: UP) -> UP {
        proof {
            self.0.wire_bounded();
            self.1.wire_bounded();
            self.2.wire_bounded();
            self.3.wire_bounded();
            self.4.wire_bounded();
            self.5.wire_bounded();
            self.6.wire_bounded();
            self.7.wire_bounded();
            self.8.wire_bounded();
            self.9.wire_bounded();
            self.10.wire_bounded();
            self.11.wire_bounded();
            self.12.wire_bounded();
        }
        let ghost w0 = up.written();
        let up = self.0.poke(up);
        let up = self.1.poke(up);
        let up = self.2.poke(up);
        let up = self.3.poke(up);
        let up = self.4.poke(up);
        let up = self.5.poke(up);
        let up = self.6.poke(up);
        let up = self.7.poke(up);
        let up = self.8.poke(up);
        let up = self.9.poke(up);
        let up = self.10.poke(up);
        let up = self.11.poke(up);
        let up = self.12.poke(up);
        proof {
            assert(up.written() =~= w0 + self.wire());
        }
        up
    }

    fn poke_max_size() -> usize {
        let m0 = T0::poke_max_size();
        let m1 = T1::poke_max_size();
        let m2 = T2::poke_max_size();
        let m3 = T3::poke_max_size();
        let m4 = T4::poke_max_size();
        let m5 = T5::poke_max_size();
        let m6 = T6::poke_max_size();
        let m7 = T7::poke_max_size();
        let m8 = T8::poke_max_size();
        let m9 = T9::poke_max_size();
        let m10 = T10::poke_max_size();
        let m11 = T11::poke_max_size();
        let m12 = T12::poke_max_size();
        m0 + m1 + m2 + m3 + m4 + m5 + m6 + m7 + m8 + m9 + m10 + m11 + m12
    }
}

impl<T0: UnsafePoke, T1: UnsafePoke, T2: UnsafePoke, T3: UnsafePoke, T4: UnsafePoke, T5: UnsafePoke, T6: UnsafePoke, T7: UnsafePoke, T8: UnsafePoke, T9: UnsafePoke, T10: UnsafePoke, T11: UnsafePoke, T12: UnsafePoke, T13: UnsafePoke> UnsafePoke for (T0, T1, T2, T3, T4, T5, T6, T7, T8, T9, T10, T11, T12, T13) {
    open spec fn wire(&self) -> Seq<u8> {
        self.0.wire() + self.1.wire() + self.2.wire() + self.3.wire() + self.4.wire() + self.5.wire() + self.6.wire() + self.7.wire() + self.8.wire() + self.9.wire() + self.10.wire() + self.11.wire() + self.12.wire() + self.13.wire()
    }

    open spec fn size_bound() -> nat {
        T0::size_bound() + T1::size_bound() + T2::size_bound() + T3::size_bound() + T4::size_bound() + T5::size_bound() + T6::size_bound() + T7::size_bound() + T8::size_bound() + T9::size_bound() + T10::size_bound() + T11::size_bound() + T12::size_bound() + T13::size_bound()
    }

    proof fn wire_bounded(&self) {
        self.0.wire_bounded();
        self.1.wire_bounded();
        self.2.wire_bounded();
        self.3.wire_bounded();
        self.4.wire_bounded();
        self.5.wire_bounded();
        self.6.wire_bounded();
        self.7.wire_bounded();
        self.8.wire_bounded();
        self.9.wire_bounded();
        self.10.wire_bounded();
        self.11.wire_bounded();
        self.12.wire_bounded();
        self.13.wire_bounded();
    }

    fn poke<UP: UnsafePokable>(&self, up: UP) -> UP {
        proof {
            self.0.wire_bounded();
            self.1.wire_bounded();
            self.2.wire_bounded();
            self.3.wire_bounded();
            self.4.wire_bounded();
            self.5.wire_bounded();
            self.6.wire_bounded();
            self.7.wire_bounded();
            self.8.wire_bounded();
            self.9.wire_bounded();
            self.10.wire_bounded();
            self.11.wire_bounded();
            self.12.wire_bounded();
            self.13.wire_bounded();
        }
        let ghost w0 = up.written();
        let up = self.0.poke(up);
        let up = self.1.poke(up);
        let up = self.2.poke(up);
        let up = self.3.poke(up);
        let up = self.4.poke(up);
        let up = self.5.poke(up);
        let up = self.6.poke(up);
        let up = self.7.poke(up);
        let up = self.8.poke(up);
        let up = self.9.poke(up);
        let up = self.10.poke(up);
        let up = self.11.poke(up);
        let up = self.12.poke(up);
        let up = self.13.poke(up);
        proof {
            assert(up.written() =~= w0 + self.wire());
        }
        up
    }

    fn poke_max_size() -> usize {
        let m0 = T0::poke_max_size();
        let m1 = T1::poke_max_size();
        let m2 = T2::poke_max_size();
        let m3 = T3::poke_max_size();
        let m4 = T4::poke_max_size();
        let m5 = T5::poke_max_size();
        let m6 = T6::poke_max_size();
        let m7 = T7::poke_max_size();
        let m8 = T8::poke_max_size();
        let m9 = T9::poke_max_size();
        let m10 = T10::poke_max_size();
        let m11 = T11::poke_max_size();
        let m12 = T12::poke_max_size();
        let m13 = T13::poke_max_size();
        m0 + m1 + m2 + m3 + m4 + m5 + m6 + m7 + m8 + m9 + m10 + m11 + m12 + m13
    }
}

impl<T0: UnsafePoke, T1: UnsafePoke, T2: UnsafePoke, T3: UnsafePoke, T4: UnsafePoke, T5: UnsafePoke, T6: UnsafePoke, T7: UnsafePoke, T8: UnsafePoke, T9: UnsafePoke, T10: UnsafePoke, T11: UnsafePoke, T12: UnsafePoke, T13: UnsafePoke, T14: UnsafePoke> UnsafePoke for (T0, T1, T2, T3, T4, T5, T6, T7, T8, T9, T10, T11, T12, T13, T14) {
    open spec fn wire(&self) -> Seq<u8> {
        self.0.wire() + self.1.wire() + self.2.wire() + self.3.wire() + self.4.wire() + self.5.wire() + self.6.wire() + self.7.wire() + self.8.wire() + self.9.wire() + self.10.wire() + self.11.wire() + self.12.wire() + self.13.wire() + self.14.wire()
    }

    open spec fn size_bound() -> nat {
        T0::size_bound() + T1::size_bound() + T2::size_bound() + T3::size_bound() + T4::size_bound() + T5::size_bound() + T6::size_bound() + T7::size_bound() + T8::size_bound() + T9::size_bound() + T10::size_bound() + T11::size_bound() + T12::size_bound() + T13::size_bound() + T14::size_bound()
    }

    proof fn wire_bounded(&self) {
        self.0.wire_bounded();
        self.1.wire_bounded();
        self.2.wire_bounded();
        self.3.wire_bounded();
        self.4.wire_bounded();
        self.5.wire_bounded();
        self.6.wire_bounded();
        self.7.wire_bounded();
        self.8.wire_bounded();
        self.9.wire_bounded();
        self.10.wire_bounded();
        self.11.wire_bounded();
        self.12.wire_bounded();
        self.13.wire_bounded();
        self.14.wire_bounded();
    }

    fn poke<UP: UnsafePokable>(&self, up: UP) -> UP {
        proof {
            self.0.wire_bounded();
            self.1.wire_bounded();
            self.2.wire_bounded();
            self.3.wire_bounded();
            self.4.wire_bounded();
            self.5.wire_bounded();
            self.6.wire_bounded();
            self.7.wire_bounded();
            self.8.wire_bounded();
            self.9.wire_bounded();
            self.10.wire_bounded();
            self.11.wire_bounded();
            self.12.wire_bounded();
            self.13.wire_bounded();
            self.14.wire_bounded();
        }
        let ghost w0 = up.written();
        let up = self.0.poke(up);
        let up = self.1.poke(up);
        let up = self.2.poke(up);
        let up = self.3.poke(up);
        let up = self.4.poke(up);
        let up = self.5.poke(up);
        let up = self.6.poke(up);
        let up = self.7.poke(up);
        let up = self.8.poke(up);
        let up = self.9.poke(up);
        let up = self.10.poke(up);
        let up = self.11.poke(up);
        let up = self.12.poke(up);
        let up = self.13.poke(up);
        let up = self.14.poke(up);
        proof {
            assert(up.written() =~= w0 + self.wire());
        }
        up
    }

    fn poke_max_size() -> usize {
        let m0 = T0::poke_max_size();
        let m1 = T1::poke_max_size();
        let m2 = T2::poke_max_size();
        let m3 = T3::poke_max_size();
        let m4 = T4::poke_max_size();
        let m5 = T5::poke_max_size();
        let m6 = T6::poke_max_size();
        let m7 = T7::poke_max_size();
        let m8 = T8::poke_max_size();
        let m9 = T9::poke_max_size();
        let m10 = T10::poke_max_size();
        let m11 = T11::poke_max_size();
        let m12 = T12::poke_max_size();
        let m13 = T13::poke_max_size();
        let m14 = T14::poke_max_size();
        m0 + m1 + m2 + m3 + m4 + m5 + m6 + m7 + m8 + m9 + m10 + m11 + m12 + m13 + m14
    }
}

impl<T0: UnsafePoke, T1: UnsafePoke, T2: UnsafePoke, T3: UnsafePoke, T4: UnsafePoke, T5: UnsafePoke, T6: UnsafePoke, T7: UnsafePoke, T8: UnsafePoke, T9: UnsafePoke, T10: UnsafePoke, T11: UnsafePoke, T12: UnsafePoke, T13: UnsafePoke, T14: UnsafePoke, T15: UnsafePoke> UnsafePoke for (T0, T1, T2, T3, T4, T5, T6, T7, T8, T9, T10, T11, T12, T13, T14, T15) {
    open spec fn wire(&self) -> Seq<u8> {
        self.0.wire() + self.1.wire() + self.2.wire() + self.3.wire() + self.4.wire() + self.5.wire() + self.6.wire() + self.7.wire() + self.8.wire() + self.9.wire() + self.10.wire() + self.11.wire() + self.12.wire() + self.13.wire() + self.14.wire() + self.15.wire()
    }

    open spec fn size_bound() -> nat {
        T0::size_bound() + T1::size_bound() + T2::size_bound() + T3::size_bound() + T4::size_bound() + T5::size_bound() + T6::size_bound() + T7::size_bound() + T8::size_bound() + T9::size_bound() + T10::size_bound() + T11::size_bound() + T12::size_bound() + T13::size_bound() + T14::size_bound() + T15::size_bound()
    }

    proof fn wire_bounded(&self) {
        self.0.wire_bounded();
        self.1.wire_bounded();
        self.2.wire_bounded();
        self.3.wire_bounded();
        self.4.wire_bounded();
        self.5.wire_bounded();
        self.6.wire_bounded();
        self.7.wire_bounded();
        self.8.wire_bounded();
        self.9.wire_bounded();
        self.10.wire_bounded();
        self.11.wire_bounded();
        self.12.wire_bounded();
        self.13.wire_bounded();
        self.14.wire_bounded();
        self.15.wire_bounded();
    }

    fn poke<UP: UnsafePokable>(&self, up: UP) -> UP {
        proof {
            self.0.wire_bounded();
            self.1.wire_bounded();
            self.2.wire_bounded();
            self.3.wire_bounded();
            self.4.wire_bounded();
            self.5.wire_bounded();
            self.6.wire_bounded();
            self.7.wire_bounded();
            self.8.wire_bounded();
            self.9.wire_bounded();
            self.10.wire_bounded();
            self.11.wire_bounded();
            self.12.wire_bounded();
            self.13.wire_bounded();
            self.14.wire_bounded();
            self.15.wire_bounded();
        }
        let ghost w0 = up.written();
        let up = self.0.poke(up);
        let up = self.1.poke(up);
        let up = self.2.poke(up);
        let up = self.3.poke(up);
        let up = self.4.poke(up);
        let up = self.5.poke(up);
        let up = self.6.poke(up);
        let up = self.7.poke(up);
        let up = self.8.poke(up);
        let up = self.9.poke(up);
        let up = self.10.poke(up);
        let up = self.11.poke(up);
        let up = self.12.poke(up);
        let up = self.13.poke(up);
        let up = self.14.poke(up);
        let up = self.15.poke(up);
        proof {
            assert(up.written() =~= w0 + self.wire());
        }
        up
    }

    fn poke_max_size() -> usize {
        let m0 = T0::poke_max_size();
        let m1 = T1::poke_max_size();
        let m2 = T2::poke_max_size();
        let m3 = T3::poke_max_size();
        let m4 = T4::poke_max_size();
        let m5 = T5::poke_max_size();
        let m6 = T6::poke_max_size();
        let m7 = T7::poke_max_size();
        let m8 = T8::poke_max_size();
        let m9 = T9::poke_max_size();
        let m10 = T10::poke_max_size();
        let m11 = T11::poke_max_size();
        let m12 = T12::poke_max_size();
        let m13 = T13::poke_max_size();
        let m14 = T14::poke_max_size();
        let m15 = T15::poke_max_size();
        m0 + m1 + m2 + m3 + m4 + m5 + m6 + m7 + m8 + m9 + m10 + m11 + m12 + m13 + m14 + m15
    }
}

/// Encode one value into a fresh buffer sized by its type's own static
/// bound, handing back exactly the bytes written.
pub fn poke_to_vec<T: UnsafePoke>(v: &T) -> (r: Vec<u8>)
    requires
        T::size_bound() <= usize::MAX,
    ensures
        r@ == v.wire(),
{
    let m = T::poke_max_size();
    let mut buf: Vec<u8> = Vec::new();
    let mut k: usize = 0;
    while k < m
        invariant
            k <= m,
            buf@.len() == k,
        decreases m - k,
    {
        buf.push(0u8);
        k = k + 1;
    }
    let p = crate::sink::Poker::new(buf);
    proof {
        assert(Seq::<u8>::empty() + v.wire() =~= v.wire());
    }
    let p2 = v.poke(p);
    p2.into_vec()
}

/// Composition associativity for the built-in tuples: a pair encodes to
/// the concatenation of its components' independent encodings, and the
/// matching triple appends the third component's encoding to the pair's.
pub proof fn lemma_tuple_concat<A: UnsafePoke, B: UnsafePoke, C: UnsafePoke>(a: A, b: B, c: C)
    ensures
        (a, b).wire() == a.wire() + b.wire(),
        (a, b, c).wire() == (a, b).wire() + c.wire(),
{
}

} // verus!
