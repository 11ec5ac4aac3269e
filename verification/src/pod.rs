//! The plain-data capability: types whose wire form is the little-endian
//! image of their value, at a fixed width normalized per type.
use vstd::prelude::*;
use crate::wire::{le_bytes, lemma_le_bytes_len, unsigned_in};

verus! {

/// A plain-data type: every value has a fixed-width little-endian wire
/// image, at most eight bytes wide, recoverable as a packed word.
///
/// Booleans are one byte (1 for true, 0 for false); fixed-width integers
/// keep their native width; platform-word integers are normalized to eight
/// wire bytes; the unit value contributes no bytes.
pub trait UnsafePod: Sized + Copy {
    /// The exact wire bytes of this value.
    spec fn pod_wire(self) -> Seq<u8>;

    /// The fixed wire width of the type, in bytes; the same for every value.
    spec fn pod_size() -> nat;

    /// Every value's wire image is exactly `pod_size` bytes, at most eight.
    proof fn pod_wire_len(self)
        ensures
            self.pod_wire().len() == Self::pod_size(),
            Self::pod_size() <= 8,
    ;

    /// The value's wire bytes packed into one word, low byte first.
    fn pod_word(self) -> (w: u64)
        ensures
            le_bytes(w as nat, Self::pod_size()) == self.pod_wire(),
    ;

    /// The wire width as a runtime value.
    fn pod_width() -> (n: usize)
        ensures
            n == Self::pod_size(),
    ;
}

impl UnsafePod for bool {
    open spec fn pod_wire(self) -> Seq<u8> {
        le_bytes(if self { 1nat } else { 0nat }, 1)
    }

    open spec fn pod_size() -> nat {
        1
    }

    proof fn pod_wire_len(self) {
        lemma_le_bytes_len(if self { 1nat } else { 0nat }, 1);
    }

    fn pod_word(self) -> u64 {
        if self {
            1
        } else {
            0
        }
    }

    fn pod_width() -> usize {
        1
    }
}

impl UnsafePod for u8 {
    open spec fn pod_wire(self) -> Seq<u8> {
        le_bytes(self as nat, 1)
    }

    open spec fn pod_size() -> nat {
        1
    }

    proof fn pod_wire_len(self) {
        lemma_le_bytes_len(self as nat, 1);
    }

    fn pod_word(self) -> u64 {
        self as u64
    }

    fn pod_width() -> usize {
        1
    }
}

impl UnsafePod for u16 {
    open spec fn pod_wire(self) -> Seq<u8> {
        le_bytes(self as nat, 2)
    }

    open spec fn pod_size() -> nat {
        2
    }

    proof fn pod_wire_len(self) {
        lemma_le_bytes_len(self as nat, 2);
    }

    fn pod_word(self) -> u64 {
        self as u64
    }

    fn pod_width() -> usize {
        2
    }
}

impl UnsafePod for u32 {
    open spec fn pod_wire(self) -> Seq<u8> {
        le_bytes(self as nat, 4)
    }

    open spec fn pod_size() -> nat {
        4
    }

    proof fn pod_wire_len(self) {
        lemma_le_bytes_len(self as nat, 4);
    }

    fn pod_word(self) -> u64 {
        self as u64
    }

    fn pod_width() -> usize {
        4
    }
}

impl UnsafePod for u64 {
    open spec fn pod_wire(self) -> Seq<u8> {
        le_bytes(self as nat, 8)
    }

    open spec fn pod_size() -> nat {
        8
    }

    proof fn pod_wire_len(self) {
        lemma_le_bytes_len(self as nat, 8);
    }

    fn pod_word(self) -> u64 {
        self
    }

    fn pod_width() -> usize {
        8
    }
}

impl UnsafePod for usize {
    open spec fn pod_wire(self) -> Seq<u8> {
        le_bytes(self as nat, 8)
    }

    open spec fn pod_size() -> nat {
        8
    }

    proof fn pod_wire_len(self) {
        lemma_le_bytes_len(self as nat, 8);
    }

    fn pod_word(self) -> u64 {
        self as u64
    }

    fn pod_width() -> usize {
        8
    }
}

impl UnsafePod for i8 {
    open spec fn pod_wire(self) -> Seq<u8> {
        le_bytes(unsigned_in(self as int, 0x100), 1)
    }

    open spec fn pod_size() -> nat {
        1
    }

    proof fn pod_wire_len(self) {
        lemma_le_bytes_len(unsigned_in(self as int, 0x100), 1);
    }

    fn pod_word(self) -> u64 {
        if self >= 0 {
            self as u64
        } else {
            ((self as i16) + 0x100) as u64
        }
    }

    fn pod_width() -> usize {
        1
    }
}

impl UnsafePod for i16 {
    open spec fn pod_wire(self) -> Seq<u8> {
        le_bytes(unsigned_in(self as int, 0x10000), 2)
    }

    open spec fn pod_size() -> nat {
        2
    }

    proof fn pod_wire_len(self) {
        lemma_le_bytes_len(unsigned_in(self as int, 0x10000), 2);
    }

    fn pod_word(self) -> u64 {
        if self >= 0 {
            self as u64
        } else {
            ((self as i32) + 0x10000) as u64
        }
    }

    fn pod_width() -> usize {
        2
    }
}

impl UnsafePod for i32 {
    open spec fn pod_wire(self) -> Seq<u8> {
        le_bytes(unsigned_in(self as int, 0x1_0000_0000), 4)
    }

    open spec fn pod_size() -> nat {
        4
    }

    proof fn pod_wire_len(self) {
        lemma_le_bytes_len(unsigned_in(self as int, 0x1_0000_0000), 4);
    }

    fn pod_word(self) -> u64 {
        if self >= 0 {
            self as u64
        } else {
            ((self as i64) + 0x1_0000_0000) as u64
        }
    }

    fn pod_width() -> usize {
        4
    }
}

impl UnsafePod for i64 {
    open spec fn pod_wire(self) -> Seq<u8> {
        le_bytes(unsigned_in(self as int, 0x1_0000_0000_0000_0000), 8)
    }

    open spec fn pod_size() -> nat {
        8
    }

    proof fn pod_wire_len(self) {
        lemma_le_bytes_len(unsigned_in(self as int, 0x1_0000_0000_0000_0000), 8);
    }

    fn pod_word(self) -> u64 {
        if self >= 0 {
            self as u64
        } else {
            ((self as i128) + 0x1_0000_0000_0000_0000) as u64
        }
    }

    fn pod_width() -> usize {
        8
    }
}

impl UnsafePod for isize {
    open spec fn pod_wire(self) -> Seq<u8> {
        le_bytes(unsigned_in(self as int, 0x1_0000_0000_0000_0000), 8)
    }

    open spec fn pod_size() -> nat {
        8
    }

    proof fn pod_wire_len(self) {
        lemma_le_bytes_len(unsigned_in(self as int, 0x1_0000_0000_0000_0000), 8);
    }

    fn pod_word(self) -> u64 {
        let v = self as i64;
        if v >= 0 {
            v as u64
        } else {
            ((v as i128) + 0x1_0000_0000_0000_0000) as u64
        }
    }

    fn pod_width() -> usize {
        8
    }
}

/// The bit pattern of an IEEE single-precision number, held as a plain
/// integer; its wire form is those four bytes, little-endian, exactly the
/// verbatim image of the number itself.
#[derive(Clone, Copy, Debug)]
pub struct F32Bits(pub u32);

/// The bit pattern of an IEEE double-precision number, held as a plain
/// integer; its wire form is those eight bytes, little-endian.
#[derive(Clone, Copy, Debug)]
pub struct F64Bits(pub u64);

impl UnsafePod for F32Bits {
    open spec fn pod_wire(self) -> Seq<u8> {
        le_bytes(self.0 as nat, 4)
    }

    open spec fn pod_size() -> nat {
        4
    }

    proof fn pod_wire_len(self) {
        lemma_le_bytes_len(self.0 as nat, 4);
    }

    fn pod_word(self) -> u64 {
        self.0 as u64
    }

    fn pod_width() -> usize {
        4
    }
}

impl UnsafePod for F64Bits {
    open spec fn pod_wire(self) -> Seq<u8> {
        le_bytes(self.0 as nat, 8)
    }

    open spec fn pod_size() -> nat {
        8
    }

    proof fn pod_wire_len(self) {
        lemma_le_bytes_len(self.0 as nat, 8);
    }

    fn pod_word(self) -> u64 {
        self.0
    }

    fn pod_width() -> usize {
        8
    }
}

} // verus!
