//! The destination abstraction: a cursor over a caller-owned, pre-sized
//! buffer that advances by exactly the number of bytes written.
use vstd::prelude::*;
use vstd::slice::slice_index_get;
use crate::pod::UnsafePod;
use crate::wire::le_bytes;

verus! {

/// A write destination. `written` is the byte string laid down so far and
/// `room` the bytes still free past the cursor; each write extends the one
/// and shrinks the other by exactly the width written. Every write demands
/// its room up front: the caller sizes the destination before encoding
/// starts, so the hot path carries no runtime bounds check.
pub trait UnsafePokable: Sized {
    /// The bytes laid down so far.
    spec fn written(self) -> Seq<u8>;

    /// The bytes still free past the cursor.
    spec fn room(self) -> nat;

    /// Lay down the wire image of one plain-data value.
    fn poke_pod<T: UnsafePod>(self, v: T) -> (r: Self)
        requires
            T::pod_size() <= self.room(),
        ensures
            r.written() == self.written() + v.pod_wire(),
            r.room() + T::pod_size() == self.room(),
    ;

    /// Lay down a raw byte string verbatim.
    fn poke_bytes(self, v: &[u8]) -> (r: Self)
        requires
            v@.len() <= self.room(),
        ensures
            r.written() == self.written() + v@,
            r.room() + v@.len() == self.room(),
    ;
}

/// The concrete destination: a cursor over a caller-owned byte buffer.
/// The caller hands the pre-sized buffer in, encodes, and takes the
/// written prefix back out.
pub struct Poker {
    buf: Vec<u8>,
    pos: usize,
}

impl Poker {
    #[verifier::type_invariant]
    closed spec fn inv(self) -> bool {
        self.pos <= self.buf@.len()
    }

    /// Wrap a caller-sized buffer, with the cursor at its start.
    pub fn new(buf: Vec<u8>) -> (r: Self)
        ensures
            r.written() == Seq::<u8>::empty(),
            r.room() == buf@.len(),
    {
        let r = Poker { buf, pos: 0 };
        proof {
            assert(r.written() =~= Seq::<u8>::empty());
        }
        r
    }

    /// How many bytes have been written so far.
    pub fn position(&self) -> (n: usize)
        ensures
            n == self.written().len(),
    {
        proof {
            use_type_invariant(self);
        }
        self.pos
    }

    /// Hand the buffer back, trimmed to exactly the bytes written.
    pub fn into_vec(self) -> (r: Vec<u8>)
        ensures
            r@ == self.written(),
    {
        proof {
            use_type_invariant(&self);
        }
        let Poker { mut buf, pos } = self;
        buf.truncate(pos);
        buf
    }
}

impl UnsafePokable for Poker {
    closed spec fn written(self) -> Seq<u8> {
        self.buf@.take(self.pos as int)
    }

    closed spec fn room(self) -> nat {
        (self.buf@.len() - self.pos) as nat
    }

    fn poke_pod<T: UnsafePod>(self, v: T) -> (r: Self) {
        proof {
            use_type_invariant(&self);
            v.pod_wire_len();
        }
        let n = T::pod_width();
        let mut w = v.pod_word();
        let ghost target = v.pod_wire();
        let Poker { mut buf, mut pos } = self;
        let buflen = buf.len();
        let ghost buf0 = buf@;
        let ghost pos0 = pos as int;
        let mut i: usize = 0;
        while i < n
            invariant
                i <= n,
                n == T::pod_size(),
                buf@.len() == buflen,
                buf0.len() == buflen,
                target.len() == n,
                pos == pos0 + i,
                0 <= pos0,
                pos0 + n <= buf@.len(),
                le_bytes(w as nat, (n - i) as nat) == target.skip(i as int),
                buf@.take(pos0 + i) == buf0.take(pos0) + target.take(i as int),
            decreases n - i,
        {
            let b: u8 = (w % 256) as u8;
            let ghost pre = buf@;
            buf[pos] = b;
            proof {
                assert(target.skip(i as int)[0] == target[i as int]);
                assert(target[i as int] == b);
                assert(target.skip(i as int).drop_first() =~= target.skip(i as int + 1));
                assert(le_bytes((w / 256) as nat, (n - i - 1) as nat) == target.skip(
                    i as int + 1,
                ));
                assert(buf@.take(pos0 + i + 1) =~= pre.take(pos0 + i) + seq![b]);
                assert(target.take(i as int + 1) =~= target.take(i as int) + seq![
                    target[i as int],
                ]);
            }
            pos = pos + 1;
            w = w / 256;
            i = i + 1;
        }
        proof {
            assert(target.take(n as int) =~= target);
        }
        Poker { buf, pos }
    }

    fn poke_bytes(self, v: &[u8]) -> (r: Self) {
        proof {
            use_type_invariant(&self);
        }
        let n = v.len();
        let Poker { mut buf, mut pos } = self;
        let buflen = buf.len();
        let ghost buf0 = buf@;
        let ghost pos0 = pos as int;
        let mut i: usize = 0;
        while i < n
            invariant
                i <= n,
                n == v@.len(),
                buf@.len() == buflen,
                buf0.len() == buflen,
                pos == pos0 + i,
                0 <= pos0,
                pos0 + n <= buf@.len(),
                buf@.take(pos0 + i) == buf0.take(pos0) + v@.take(i as int),
            decreases n - i,
        {
            let b: u8 = *slice_index_get(v, i);
            let ghost pre = buf@;
            buf[pos] = b;
            proof {
                assert(buf@.take(pos0 + i + 1) =~= pre.take(pos0 + i) + seq![b]);
                assert(v@.take(i as int + 1) =~= v@.take(i as int) + seq![v@[i as int]]);
            }
            pos = pos + 1;
            i = i + 1;
        }
        proof {
            assert(v@.take(n as int) =~= v@);
        }
        Poker { buf, pos }
    }
}

} // verus!
