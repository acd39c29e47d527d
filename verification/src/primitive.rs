//! Primitive fields: fixed-size integer and unit-typed fields at a fixed
//! offset, in either byte order. Each primitive type maps bijectively onto
//! the unsigned values of its width (two's complement for the signed types),
//! and the field stores that representation in the chosen byte order.

use vstd::prelude::*;
use core::marker::PhantomData;
use crate::bytes::endian_bytes;
use crate::bytes::endian_decode;
use crate::bytes::lemma_endian_bytes_len;
use crate::bytes::lemma_endian_decode_bound;
use crate::bytes::lemma_endian_roundtrip;
use crate::bytes::lemma_pow256_values;
use crate::bytes::pow256;
use crate::bytes::read_endian;
use crate::bytes::write_endian;
use crate::endian::Endianness;
use crate::field::Field;
use crate::field::FieldCopyAccess;

verus! {

/// The unsigned representation of the signed value `v` in `n` bytes
/// (two's complement).
pub open spec fn signed_rep(v: int, n: nat) -> int {
    if v < 0 {
        v + pow256(n)
    } else {
        v
    }
}

/// The signed value whose `n`-byte unsigned representation is `u`.
pub open spec fn rep_signed(u: int, n: nat) -> int {
    if 2 * u >= pow256(n) {
        u - pow256(n)
    } else {
        u
    }
}

/// A primitive type that can be stored in a fixed-size field: it has a fixed
/// width and a bijection onto the unsigned values of that width.
pub trait PrimitiveValue: Sized {
    /// The type's width in bytes.
    spec fn spec_width() -> usize;

    /// The unsigned representation of `v`.
    spec fn spec_to_rep(v: Self) -> nat;

    /// The value whose unsigned representation is `u`.
    spec fn spec_from_rep(u: nat) -> Self;

    /// The width fits the widest supported primitive.
    proof fn lemma_width()
        ensures
            Self::spec_width() <= 16,
    ;

    /// The representation fills the width, and converting back gives the
    /// value again.
    proof fn lemma_rep(v: Self)
        ensures
            Self::spec_to_rep(v) < pow256(Self::spec_width() as nat),
            Self::spec_from_rep(Self::spec_to_rep(v)) == v,
    ;

    /// Returns the type's width in bytes.
    fn width() -> (r: usize)
        ensures
            r == Self::spec_width(),
    ;

    /// Returns the unsigned representation of `v`.
    fn to_rep(v: Self) -> (r: u128)
        ensures
            r == Self::spec_to_rep(v),
    ;

    /// Returns the value whose unsigned representation is `u`.
    fn from_rep(u: u128) -> (r: Self)
        requires
            u < pow256(Self::spec_width() as nat),
        ensures
            r == Self::spec_from_rep(u as nat),
    ;
}

/// A field holding a primitive value `U` in byte order `E` at byte offset
/// `OFFSET`. A zero-storage marker type: the descriptor is the type itself.
pub struct PrimitiveField<U, E: Endianness, const OFFSET: usize> {
    _value: PhantomData<U>,
    _endian: PhantomData<E>,
}

impl<U: PrimitiveValue, E: Endianness, const OFFSET: usize> Field for PrimitiveField<
    U,
    E,
    OFFSET,
> {
    type Endian = E;

    open spec fn spec_offset() -> usize {
        OFFSET
    }

    open spec fn spec_size() -> Option<usize> {
        Some(U::spec_width())
    }

    fn offset() -> usize {
        OFFSET
    }

    fn size() -> Option<usize> {
        Some(U::width())
    }
}

impl<U: PrimitiveValue, E: Endianness, const OFFSET: usize> FieldCopyAccess for PrimitiveField<
    U,
    E,
    OFFSET,
> {
    type HighLevelType = U;

    open spec fn spec_encode(v: U) -> Seq<u8> {
        endian_bytes(E::spec_kind(), U::spec_to_rep(v), U::spec_width() as nat)
    }

    open spec fn spec_decode(w: Seq<u8>) -> U {
        U::spec_from_rep(endian_decode(E::spec_kind(), w))
    }

    proof fn lemma_encode_len(v: U) {
        lemma_endian_bytes_len(E::spec_kind(), U::spec_to_rep(v), U::spec_width() as nat);
    }

    proof fn lemma_decode_encode(v: U) {
        U::lemma_rep(v);
        lemma_endian_roundtrip(E::spec_kind(), U::spec_to_rep(v), U::spec_width() as nat);
    }

    fn read(storage: &Vec<u8>) -> U {
        proof {
            U::lemma_width();
        }
        let n = U::width();
        let raw = read_endian(storage, E::kind(), OFFSET, n);
        proof {
            lemma_endian_decode_bound(
                E::spec_kind(),
                storage@.subrange(OFFSET as int, OFFSET + U::spec_width()),
            );
        }
        U::from_rep(raw)
    }

    fn write(storage: &mut Vec<u8>, v: U) {
        proof {
            U::lemma_width();
            U::lemma_rep(v);
        }
        let n = U::width();
        let rep = U::to_rep(v);
        write_endian(storage, E::kind(), OFFSET, rep, n);
    }
}

impl PrimitiveValue for u8 {
    open spec fn spec_width() -> usize {
        1
    }

    open spec fn spec_to_rep(v: u8) -> nat {
        v as nat
    }

    open spec fn spec_from_rep(u: nat) -> u8 {
        u as u8
    }

    proof fn lemma_width() {
    }

    proof fn lemma_rep(v: u8) {
        lemma_pow256_values();
    }

    fn width() -> usize {
        1
    }

    fn to_rep(v: u8) -> u128 {
        v as u128
    }

    fn from_rep(u: u128) -> u8 {
        proof {
            lemma_pow256_values();
        }
        u as u8
    }
}

impl PrimitiveValue for u16 {
    open spec fn spec_width() -> usize {
        2
    }

    open spec fn spec_to_rep(v: u16) -> nat {
        v as nat
    }

    open spec fn spec_from_rep(u: nat) -> u16 {
        u as u16
    }

    proof fn lemma_width() {
    }

    proof fn lemma_rep(v: u16) {
        lemma_pow256_values();
    }

    fn width() -> usize {
        2
    }

    fn to_rep(v: u16) -> u128 {
        v as u128
    }

    fn from_rep(u: u128) -> u16 {
        proof {
            lemma_pow256_values();
        }
        u as u16
    }
}

impl PrimitiveValue for u32 {
    open spec fn spec_width() -> usize {
        4
    }

    open spec fn spec_to_rep(v: u32) -> nat {
        v as nat
    }

    open spec fn spec_from_rep(u: nat) -> u32 {
        u as u32
    }

    proof fn lemma_width() {
    }

    proof fn lemma_rep(v: u32) {
        lemma_pow256_values();
    }

    fn width() -> usize {
        4
    }

    fn to_rep(v: u32) -> u128 {
        v as u128
    }

    fn from_rep(u: u128) -> u32 {
        proof {
            lemma_pow256_values();
        }
        u as u32
    }
}

impl PrimitiveValue for u64 {
    open spec fn spec_width() -> usize {
        8
    }

    open spec fn spec_to_rep(v: u64) -> nat {
        v as nat
    }

    open spec fn spec_from_rep(u: nat) -> u64 {
        u as u64
    }

    proof fn lemma_width() {
    }

    proof fn lemma_rep(v: u64) {
        lemma_pow256_values();
    }

    fn width() -> usize {
        8
    }

    fn to_rep(v: u64) -> u128 {
        v as u128
    }

    fn from_rep(u: u128) -> u64 {
        proof {
            lemma_pow256_values();
        }
        u as u64
    }
}

impl PrimitiveValue for u128 {
    open spec fn spec_width() -> usize {
        16
    }

    open spec fn spec_to_rep(v: u128) -> nat {
        v as nat
    }

    open spec fn spec_from_rep(u: nat) -> u128 {
        u as u128
    }

    proof fn lemma_width() {
    }

    proof fn lemma_rep(v: u128) {
        lemma_pow256_values();
    }

    fn width() -> usize {
        16
    }

    fn to_rep(v: u128) -> u128 {
        v
    }

    fn from_rep(u: u128) -> u128 {
        u
    }
}

impl PrimitiveValue for i8 {
    open spec fn spec_width() -> usize {
        1
    }

    open spec fn spec_to_rep(v: i8) -> nat {
        signed_rep(v as int, 1) as nat
    }

    open spec fn spec_from_rep(u: nat) -> i8 {
        rep_signed(u as int, 1) as i8
    }

    proof fn lemma_width() {
    }

    proof fn lemma_rep(v: i8) {
        lemma_pow256_values();
    }

    fn width() -> usize {
        1
    }

    fn to_rep(v: i8) -> u128 {
        proof {
            lemma_pow256_values();
        }
        if v >= 0 {
            v as u128
        } else {
            ((v as i16) + 0x100) as u128
        }
    }

    fn from_rep(u: u128) -> i8 {
        proof {
            lemma_pow256_values();
        }
        if u >= 0x80 {
            ((u as i16) - 0x100) as i8
        } else {
            u as i8
        }
    }
}

impl PrimitiveValue for i16 {
    open spec fn spec_width() -> usize {
        2
    }

    open spec fn spec_to_rep(v: i16) -> nat {
        signed_rep(v as int, 2) as nat
    }

    open spec fn spec_from_rep(u: nat) -> i16 {
        rep_signed(u as int, 2) as i16
    }

    proof fn lemma_width() {
    }

    proof fn lemma_rep(v: i16) {
        lemma_pow256_values();
    }

    fn width() -> usize {
        2
    }

    fn to_rep(v: i16) -> u128 {
        proof {
            lemma_pow256_values();
        }
        if v >= 0 {
            v as u128
        } else {
            ((v as i32) + 0x10000) as u128
        }
    }

    fn from_rep(u: u128) -> i16 {
        proof {
            lemma_pow256_values();
        }
        if u >= 0x8000 {
            ((u as i32) - 0x10000) as i16
        } else {
            u as i16
        }
    }
}

impl PrimitiveValue for i32 {
    open spec fn spec_width() -> usize {
        4
    }

    open spec fn spec_to_rep(v: i32) -> nat {
        signed_rep(v as int, 4) as nat
    }

    open spec fn spec_from_rep(u: nat) -> i32 {
        rep_signed(u as int, 4) as i32
    }

    proof fn lemma_width() {
    }

    proof fn lemma_rep(v: i32) {
        lemma_pow256_values();
    }

    fn width() -> usize {
        4
    }

    fn to_rep(v: i32) -> u128 {
        proof {
            lemma_pow256_values();
        }
        if v >= 0 {
            v as u128
        } else {
            ((v as i64) + 0x100000000) as u128
        }
    }

    fn from_rep(u: u128) -> i32 {
        proof {
            lemma_pow256_values();
        }
        if u >= 0x80000000 {
            ((u as i64) - 0x100000000) as i32
        } else {
            u as i32
        }
    }
}

impl PrimitiveValue for i64 {
    open spec fn spec_width() -> usize {
        8
    }

    open spec fn spec_to_rep(v: i64) -> nat {
        signed_rep(v as int, 8) as nat
    }

    open spec fn spec_from_rep(u: nat) -> i64 {
        rep_signed(u as int, 8) as i64
    }

    proof fn lemma_width() {
    }

    proof fn lemma_rep(v: i64) {
        lemma_pow256_values();
    }

    fn width() -> usize {
        8
    }

    fn to_rep(v: i64) -> u128 {
        proof {
            lemma_pow256_values();
        }
        if v >= 0 {
            v as u128
        } else {
            ((v as i128) + 0x10000000000000000) as u128
        }
    }

    fn from_rep(u: u128) -> i64 {
        proof {
            lemma_pow256_values();
        }
        if u >= 0x8000000000000000 {
            ((u as i128) - 0x10000000000000000) as i64
        } else {
            u as i64
        }
    }
}

impl PrimitiveValue for i128 {
    open spec fn spec_width() -> usize {
        16
    }

    open spec fn spec_to_rep(v: i128) -> nat {
        signed_rep(v as int, 16) as nat
    }

    open spec fn spec_from_rep(u: nat) -> i128 {
        rep_signed(u as int, 16) as i128
    }

    proof fn lemma_width() {
    }

    proof fn lemma_rep(v: i128) {
        lemma_pow256_values();
    }

    fn width() -> usize {
        16
    }

    fn to_rep(v: i128) -> u128 {
        proof {
            lemma_pow256_values();
        }
        if v >= 0 {
            v as u128
        } else {
            // v + 2^128, computed without leaving the 128-bit range:
            // (v - i128::MIN) fits in an i128, and adding 2^127 lands in u128.
            let d = v - i128::MIN;
            (d as u128) + 0x80000000000000000000000000000000u128
        }
    }

    fn from_rep(u: u128) -> i128 {
        proof {
            lemma_pow256_values();
        }
        if u >= 0x80000000000000000000000000000000u128 {
            // u - 2^128, computed without leaving the 128-bit range.
            let e = u128::MAX - u;
            -(e as i128) - 1
        } else {
            u as i128
        }
    }
}

impl PrimitiveValue for () {
    open spec fn spec_width() -> usize {
        0
    }

    open spec fn spec_to_rep(v: ()) -> nat {
        0
    }

    open spec fn spec_from_rep(u: nat) -> () {
        ()
    }

    proof fn lemma_width() {
    }

    proof fn lemma_rep(v: ()) {
    }

    fn width() -> usize {
        0
    }

    fn to_rep(v: ()) -> u128 {
        0
    }

    fn from_rep(u: u128) -> () {
        ()
    }
}

} // verus!
