//! The contract a type meets so that a [`crate::StackAny`] cell can store it.

use vstd::bytes::*;
use vstd::prelude::*;

verus! {

/// Identity token of `u8`.
pub const TOKEN_U8: u64 = 1;

/// Identity token of `u16`.
pub const TOKEN_U16: u64 = 2;

/// Identity token of `u32`.
pub const TOKEN_U32: u64 = 3;

/// Identity token of `u64`.
pub const TOKEN_U64: u64 = 4;

/// Identity token of `i32`.
pub const TOKEN_I32: u64 = 5;

/// Identity token of `i64`.
pub const TOKEN_I64: u64 = 6;

/// Identity token of `bool`.
pub const TOKEN_BOOL: u64 = 7;

/// A type whose values can live inside a [`crate::StackAny`] cell.
///
/// An implementation names a runtime identity token for the type, the exact
/// byte size of its stored form, and a codec between values and raw bytes.
/// The token stands in for a runtime type identity: every implementation in
/// this crate picks a token distinct from all the others', so the cell's
/// identity check tells any two of them apart even when their sizes agree.
///
/// The two proof obligations pin the codec down: an encoding has exactly
/// `spec_size()` bytes, and decoding an encoding yields the encoded value
/// back. Together with the cell's contracts they give the round trip through
/// a cell for every implementing type at once.
pub trait Inline: Sized {
    /// The identity token of the type.
    spec fn spec_token() -> u64;

    /// The byte size of the type's stored form.
    spec fn spec_size() -> nat;

    /// The bytes that stand for a value.
    spec fn spec_encode(v: Self) -> Seq<u8>;

    /// The value a byte string stands for, if it stands for one.
    spec fn spec_decode(b: Seq<u8>) -> Option<Self>;

    /// The identity token, at runtime.
    fn token() -> (t: u64)
        ensures
            t == Self::spec_token(),
    ;

    /// The byte size of the stored form, at runtime.
    fn size() -> (n: usize)
        ensures
            n == Self::spec_size(),
    ;

    /// Turn a value into its stored bytes.
    fn encode(self) -> (b: Vec<u8>)
        ensures
            b@ == Self::spec_encode(self),
    ;

    /// Recover a value from stored bytes, if they stand for one.
    fn decode(b: &[u8]) -> (r: Option<Self>)
        ensures
            r == Self::spec_decode(b@),
    ;

    /// An encoding always has exactly `spec_size()` bytes.
    proof fn lemma_encode_size(v: Self)
        ensures
            Self::spec_encode(v).len() == Self::spec_size(),
    ;

    /// Decoding inverts encoding: the stored bytes give the value back.
    proof fn lemma_decode_of_encode(v: Self)
        ensures
            Self::spec_decode(Self::spec_encode(v)) == Some(v),
    ;
}

impl Inline for u8 {
    open spec fn spec_token() -> u64 {
        TOKEN_U8
    }

    open spec fn spec_size() -> nat {
        1
    }

    open spec fn spec_encode(v: u8) -> Seq<u8> {
        seq![v]
    }

    open spec fn spec_decode(b: Seq<u8>) -> Option<u8> {
        if b.len() == 1 {
            Some(b[0])
        } else {
            None
        }
    }

    fn token() -> (t: u64) {
        TOKEN_U8
    }

    fn size() -> (n: usize) {
        1
    }

    fn encode(self) -> (b: Vec<u8>) {
        let mut b: Vec<u8> = Vec::new();
        b.push(self);
        proof {
            assert(b@ =~= seq![self]);
        }
        b
    }

    fn decode(b: &[u8]) -> (r: Option<u8>) {
        if b.len() == 1 {
            Some(b[0])
        } else {
            None
        }
    }

    proof fn lemma_encode_size(v: u8) {
    }

    proof fn lemma_decode_of_encode(v: u8) {
        assert(seq![v][0] == v);
    }
}

impl Inline for u16 {
    open spec fn spec_token() -> u64 {
        TOKEN_U16
    }

    open spec fn spec_size() -> nat {
        2
    }

    open spec fn spec_encode(v: u16) -> Seq<u8> {
        spec_u16_to_le_bytes(v)
    }

    open spec fn spec_decode(b: Seq<u8>) -> Option<u16> {
        if b.len() == 2 {
            Some(spec_u16_from_le_bytes(b))
        } else {
            None
        }
    }

    fn token() -> (t: u64) {
        TOKEN_U16
    }

    fn size() -> (n: usize) {
        2
    }

    fn encode(self) -> (b: Vec<u8>) {
        u16_to_le_bytes(self)
    }

    fn decode(b: &[u8]) -> (r: Option<u16>) {
        if b.len() == 2 {
            Some(u16_from_le_bytes(b))
        } else {
            None
        }
    }

    proof fn lemma_encode_size(v: u16) {
        lemma_auto_spec_u16_to_from_le_bytes();
    }

    proof fn lemma_decode_of_encode(v: u16) {
        lemma_auto_spec_u16_to_from_le_bytes();
    }
}

impl Inline for u32 {
    open spec fn spec_token() -> u64 {
        TOKEN_U32
    }

    open spec fn spec_size() -> nat {
        4
    }

    open spec fn spec_encode(v: u32) -> Seq<u8> {
        spec_u32_to_le_bytes(v)
    }

    open spec fn spec_decode(b: Seq<u8>) -> Option<u32> {
        if b.len() == 4 {
            Some(spec_u32_from_le_bytes(b))
        } else {
            None
        }
    }

    fn token() -> (t: u64) {
        TOKEN_U32
    }

    fn size() -> (n: usize) {
        4
    }

    fn encode(self) -> (b: Vec<u8>) {
        u32_to_le_bytes(self)
    }

    fn decode(b: &[u8]) -> (r: Option<u32>) {
        if b.len() == 4 {
            Some(u32_from_le_bytes(b))
        } else {
            None
        }
    }

    proof fn lemma_encode_size(v: u32) {
        lemma_auto_spec_u32_to_from_le_bytes();
    }

    proof fn lemma_decode_of_encode(v: u32) {
        lemma_auto_spec_u32_to_from_le_bytes();
    }
}

impl Inline for u64 {
    open spec fn spec_token() -> u64 {
        TOKEN_U64
    }

    open spec fn spec_size() -> nat {
        8
    }

    open spec fn spec_encode(v: u64) -> Seq<u8> {
        spec_u64_to_le_bytes(v)
    }

    open spec fn spec_decode(b: Seq<u8>) -> Option<u64> {
        if b.len() == 8 {
            Some(spec_u64_from_le_bytes(b))
        } else {
            None
        }
    }

    fn token() -> (t: u64) {
        TOKEN_U64
    }

    fn size() -> (n: usize) {
        8
    }

    fn encode(self) -> (b: Vec<u8>) {
        u64_to_le_bytes(self)
    }

    fn decode(b: &[u8]) -> (r: Option<u64>) {
        if b.len() == 8 {
            Some(u64_from_le_bytes(b))
        } else {
            None
        }
    }

    proof fn lemma_encode_size(v: u64) {
        lemma_auto_spec_u64_to_from_le_bytes();
    }

    proof fn lemma_decode_of_encode(v: u64) {
        lemma_auto_spec_u64_to_from_le_bytes();
    }
}

impl Inline for i32 {
    open spec fn spec_token() -> u64 {
        TOKEN_I32
    }

    open spec fn spec_size() -> nat {
        4
    }

    open spec fn spec_encode(v: i32) -> Seq<u8> {
        spec_u32_to_le_bytes(v as u32)
    }

    open spec fn spec_decode(b: Seq<u8>) -> Option<i32> {
        if b.len() == 4 {
            Some(spec_u32_from_le_bytes(b) as i32)
        } else {
            None
        }
    }

    fn token() -> (t: u64) {
        TOKEN_I32
    }

    fn size() -> (n: usize) {
        4
    }

    fn encode(self) -> (b: Vec<u8>) {
        u32_to_le_bytes(self as u32)
    }

    fn decode(b: &[u8]) -> (r: Option<i32>) {
        if b.len() == 4 {
            Some(u32_from_le_bytes(b) as i32)
        } else {
            None
        }
    }

    proof fn lemma_encode_size(v: i32) {
        lemma_auto_spec_u32_to_from_le_bytes();
    }

    proof fn lemma_decode_of_encode(v: i32) {
        lemma_auto_spec_u32_to_from_le_bytes();
        assert((v as u32) as i32 == v) by (bit_vector);
    }
}

impl Inline for i64 {
    open spec fn spec_token() -> u64 {
        TOKEN_I64
    }

    open spec fn spec_size() -> nat {
        8
    }

    open spec fn spec_encode(v: i64) -> Seq<u8> {
        spec_u64_to_le_bytes(v as u64)
    }

    open spec fn spec_decode(b: Seq<u8>) -> Option<i64> {
        if b.len() == 8 {
            Some(spec_u64_from_le_bytes(b) as i64)
        } else {
            None
        }
    }

    fn token() -> (t: u64) {
        TOKEN_I64
    }

    fn size() -> (n: usize) {
        8
    }

    fn encode(self) -> (b: Vec<u8>) {
        u64_to_le_bytes(self as u64)
    }

    fn decode(b: &[u8]) -> (r: Option<i64>) {
        if b.len() == 8 {
            Some(u64_from_le_bytes(b) as i64)
        } else {
            None
        }
    }

    proof fn lemma_encode_size(v: i64) {
        lemma_auto_spec_u64_to_from_le_bytes();
    }

    proof fn lemma_decode_of_encode(v: i64) {
        lemma_auto_spec_u64_to_from_le_bytes();
        assert((v as u64) as i64 == v) by (bit_vector);
    }
}

impl Inline for bool {
    open spec fn spec_token() -> u64 {
        TOKEN_BOOL
    }

    open spec fn spec_size() -> nat {
        1
    }

    open spec fn spec_encode(v: bool) -> Seq<u8> {
        seq![if v { 1u8 } else { 0u8 }]
    }

    open spec fn spec_decode(b: Seq<u8>) -> Option<bool> {
        if b.len() == 1 && b[0] == 0 {
            Some(false)
        } else if b.len() == 1 && b[0] == 1 {
            Some(true)
        } else {
            None
        }
    }

    fn token() -> (t: u64) {
        TOKEN_BOOL
    }

    fn size() -> (n: usize) {
        1
    }

    fn encode(self) -> (b: Vec<u8>) {
        let mut b: Vec<u8> = Vec::new();
        b.push(if self { 1u8 } else { 0u8 });
        proof {
            assert(b@ =~= Self::spec_encode(self));
        }
        b
    }

    fn decode(b: &[u8]) -> (r: Option<bool>) {
        if b.len() != 1 {
            return None;
        }
        let x = b[0];
        if x == 0 {
            Some(false)
        } else if x == 1 {
            Some(true)
        } else {
            None
        }
    }

    proof fn lemma_encode_size(v: bool) {
    }

    proof fn lemma_decode_of_encode(v: bool) {
        assert(Self::spec_encode(v)[0] == if v { 1u8 } else { 0u8 });
    }
}

} // verus!
