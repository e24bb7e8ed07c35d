//! Traits for reading and writing plain data as bytes
//!
//! State data are plain bytes. Reading a value of a type `T` from state data means checking that the data have the
//! size of `T`'s underlying bit pattern, decoding that bit pattern from the bytes and checking that it is a valid `T`.
//! Writing a value means encoding it into bytes. Multi-byte integers use the little-endian byte order of Windows.
//!
//! The traits describe decoding and encoding by spec functions, which the implementations in this library define and
//! are verified against. An implementation elsewhere may leave them undefined; the contracts of the functions reading
//! and writing its values then tell nothing about the values.

use vstd::prelude::*;

verus! {

/// A type for which any bit pattern of the right size is valid
///
/// Values are decoded from exactly [`AnyBitPattern::byte_size`] bytes.
pub trait AnyBitPattern: Sized {
    /// The number of bytes of a value
    closed spec fn byte_size() -> nat {
        arbitrary()
    }

    /// The value encoded by the given bytes
    closed spec fn decode(bytes: Seq<u8>) -> Self {
        arbitrary()
    }

    /// Returns the number of bytes of a value
    fn size() -> (r: usize)
        ensures
            r == Self::byte_size(),
    ;

    /// Decodes a value from bytes
    fn from_bytes(bytes: &[u8]) -> (r: Self)
        requires
            bytes@.len() == Self::byte_size(),
        ensures
            r == Self::decode(bytes@),
    ;
}

/// A type whose values can be checked for valid bit patterns at runtime
///
/// A value is read by decoding its underlying bit pattern of type [`CheckedBitPattern::Bits`] and checking that the
/// bit pattern is valid.
pub trait CheckedBitPattern: Sized {
    /// The type of the underlying bit patterns
    type Bits: AnyBitPattern;

    /// Whether the bit pattern stands for a value
    closed spec fn valid(bits: Self::Bits) -> bool {
        arbitrary()
    }

    /// The value that a valid bit pattern stands for
    closed spec fn interpret(bits: Self::Bits) -> Self {
        arbitrary()
    }

    /// Checks whether the given bit pattern can be interpreted as a valid value
    fn is_valid_bit_pattern(bits: &Self::Bits) -> (r: bool)
        ensures
            r == Self::valid(*bits),
    ;

    /// Interprets a valid bit pattern as a value
    fn from_valid_bits(bits: Self::Bits) -> (r: Self)
        requires
            Self::valid(bits),
        ensures
            r == Self::interpret(bits),
    ;
}

/// A type whose values can be written as bytes
pub trait NoUninit: Sized {
    /// The bytes encoding the value
    closed spec fn encode(v: Self) -> Seq<u8> {
        arbitrary()
    }

    /// Encodes a value as bytes
    fn to_bytes(&self) -> (r: Vec<u8>)
        ensures
            r@ == Self::encode(*self),
    ;
}

impl<T: AnyBitPattern> CheckedBitPattern for T {
    type Bits = T;

    open spec fn valid(bits: T) -> bool {
        true
    }

    open spec fn interpret(bits: T) -> T {
        bits
    }

    fn is_valid_bit_pattern(bits: &T) -> (r: bool) {
        true
    }

    fn from_valid_bits(bits: T) -> (r: T) {
        bits
    }
}

impl AnyBitPattern for () {
    open spec fn byte_size() -> nat {
        0
    }

    open spec fn decode(bytes: Seq<u8>) -> () {
        ()
    }

    fn size() -> (r: usize) {
        0
    }

    fn from_bytes(bytes: &[u8]) -> (r: ()) {
        ()
    }
}

impl NoUninit for () {
    open spec fn encode(v: ()) -> Seq<u8> {
        Seq::empty()
    }

    fn to_bytes(&self) -> (r: Vec<u8>) {
        Vec::new()
    }
}

impl AnyBitPattern for u8 {
    open spec fn byte_size() -> nat {
        1
    }

    open spec fn decode(bytes: Seq<u8>) -> u8 {
        bytes[0]
    }

    fn size() -> (r: usize) {
        1
    }

    fn from_bytes(bytes: &[u8]) -> (r: u8) {
        bytes[0]
    }
}

impl NoUninit for u8 {
    open spec fn encode(v: u8) -> Seq<u8> {
        seq![v]
    }

    fn to_bytes(&self) -> (r: Vec<u8>) {
        let mut v = Vec::new();
        v.push(*self);
        v
    }
}

impl AnyBitPattern for u16 {
    open spec fn byte_size() -> nat {
        2
    }

    open spec fn decode(bytes: Seq<u8>) -> u16 {
        (bytes[0] as u16) | ((bytes[1] as u16) << 8u16)
    }

    fn size() -> (r: usize) {
        2
    }

    fn from_bytes(bytes: &[u8]) -> (r: u16) {
        (bytes[0] as u16) | ((bytes[1] as u16) << 8)
    }
}

impl NoUninit for u16 {
    open spec fn encode(v: u16) -> Seq<u8> {
        seq![(v & 0xff) as u8, ((v >> 8u16) & 0xff) as u8]
    }

    fn to_bytes(&self) -> (r: Vec<u8>) {
        let v = *self;
        let mut r = Vec::new();
        r.push((v & 0xff) as u8);
        r.push(((v >> 8) & 0xff) as u8);
        assert(r@ =~= Self::encode(v));
        r
    }
}

impl AnyBitPattern for u32 {
    open spec fn byte_size() -> nat {
        4
    }

    open spec fn decode(bytes: Seq<u8>) -> u32 {
        (bytes[0] as u32) | ((bytes[1] as u32) << 8u32) | ((bytes[2] as u32) << 16u32) | ((
        bytes[3] as u32) << 24u32)
    }

    fn size() -> (r: usize) {
        4
    }

    fn from_bytes(bytes: &[u8]) -> (r: u32) {
        (bytes[0] as u32) | ((bytes[1] as u32) << 8) | ((bytes[2] as u32) << 16) | ((
        bytes[3] as u32) << 24)
    }
}

impl NoUninit for u32 {
    open spec fn encode(v: u32) -> Seq<u8> {
        seq![
            (v & 0xff) as u8,
            ((v >> 8u32) & 0xff) as u8,
            ((v >> 16u32) & 0xff) as u8,
            ((v >> 24u32) & 0xff) as u8,
        ]
    }

    fn to_bytes(&self) -> (r: Vec<u8>) {
        let v = *self;
        let mut r = Vec::new();
        r.push((v & 0xff) as u8);
        r.push(((v >> 8) & 0xff) as u8);
        r.push(((v >> 16) & 0xff) as u8);
        r.push(((v >> 24) & 0xff) as u8);
        assert(r@ =~= Self::encode(v));
        r
    }
}

impl AnyBitPattern for u64 {
    open spec fn byte_size() -> nat {
        8
    }

    open spec fn decode(bytes: Seq<u8>) -> u64 {
        (bytes[0] as u64) | ((bytes[1] as u64) << 8u64) | ((bytes[2] as u64) << 16u64) | ((
        bytes[3] as u64) << 24u64) | ((bytes[4] as u64) << 32u64) | ((bytes[5] as u64) << 40u64)
            | ((bytes[6] as u64) << 48u64) | ((bytes[7] as u64) << 56u64)
    }

    fn size() -> (r: usize) {
        8
    }

    fn from_bytes(bytes: &[u8]) -> (r: u64) {
        (bytes[0] as u64) | ((bytes[1] as u64) << 8) | ((bytes[2] as u64) << 16) | ((
        bytes[3] as u64) << 24) | ((bytes[4] as u64) << 32) | ((bytes[5] as u64) << 40) | ((
        bytes[6] as u64) << 48) | ((bytes[7] as u64) << 56)
    }
}

impl NoUninit for u64 {
    open spec fn encode(v: u64) -> Seq<u8> {
        seq![
            (v & 0xff) as u8,
            ((v >> 8u64) & 0xff) as u8,
            ((v >> 16u64) & 0xff) as u8,
            ((v >> 24u64) & 0xff) as u8,
            ((v >> 32u64) & 0xff) as u8,
            ((v >> 40u64) & 0xff) as u8,
            ((v >> 48u64) & 0xff) as u8,
            ((v >> 56u64) & 0xff) as u8,
        ]
    }

    fn to_bytes(&self) -> (r: Vec<u8>) {
        let v = *self;
        let mut r = Vec::new();
        r.push((v & 0xff) as u8);
        r.push(((v >> 8) & 0xff) as u8);
        r.push(((v >> 16) & 0xff) as u8);
        r.push(((v >> 24) & 0xff) as u8);
        r.push(((v >> 32) & 0xff) as u8);
        r.push(((v >> 40) & 0xff) as u8);
        r.push(((v >> 48) & 0xff) as u8);
        r.push(((v >> 56) & 0xff) as u8);
        assert(r@ =~= Self::encode(v));
        r
    }
}

impl AnyBitPattern for i32 {
    open spec fn byte_size() -> nat {
        4
    }

    open spec fn decode(bytes: Seq<u8>) -> i32 {
        <u32 as AnyBitPattern>::decode(bytes) as i32
    }

    fn size() -> (r: usize) {
        4
    }

    fn from_bytes(bytes: &[u8]) -> (r: i32) {
        <u32 as AnyBitPattern>::from_bytes(bytes) as i32
    }
}

impl NoUninit for i32 {
    open spec fn encode(v: i32) -> Seq<u8> {
        <u32 as NoUninit>::encode(v as u32)
    }

    fn to_bytes(&self) -> (r: Vec<u8>) {
        (*self as u32).to_bytes()
    }
}

impl AnyBitPattern for i64 {
    open spec fn byte_size() -> nat {
        8
    }

    open spec fn decode(bytes: Seq<u8>) -> i64 {
        <u64 as AnyBitPattern>::decode(bytes) as i64
    }

    fn size() -> (r: usize) {
        8
    }

    fn from_bytes(bytes: &[u8]) -> (r: i64) {
        <u64 as AnyBitPattern>::from_bytes(bytes) as i64
    }
}

impl NoUninit for i64 {
    open spec fn encode(v: i64) -> Seq<u8> {
        <u64 as NoUninit>::encode(v as u64)
    }

    fn to_bytes(&self) -> (r: Vec<u8>) {
        (*self as u64).to_bytes()
    }
}

/// Whether `bits` is the code of a Unicode scalar value, i.e. a valid `char`
pub open spec fn is_char_code(bits: u32) -> bool {
    bits < 0xD800 || (0xE000 <= bits && bits <= 0x10FFFF)
}

/// Converts a code to a `char`, if it is the code of a Unicode scalar value
///
/// Calls `char::from_u32`, which is documented to return `None` exactly when the input is not a valid `char`, that is,
/// greater than `0x10FFFF` or a surrogate code point (`0xD800..=0xDFFF`).
#[verifier::external_body]
fn char_from_u32(bits: u32) -> (r: Option<char>)
    ensures
        r matches Some(c) ==> is_char_code(bits) && c as u32 == bits && c == bits as char,
        r is None ==> !is_char_code(bits),
{
    char::from_u32(bits)
}

impl CheckedBitPattern for char {
    type Bits = u32;

    open spec fn valid(bits: u32) -> bool {
        is_char_code(bits)
    }

    open spec fn interpret(bits: u32) -> char {
        bits as char
    }

    fn is_valid_bit_pattern(bits: &u32) -> (r: bool) {
        char_from_u32(*bits).is_some()
    }

    fn from_valid_bits(bits: u32) -> (r: char) {
        match char_from_u32(bits) {
            Some(c) => c,
            None => '\0',
        }
    }
}

impl NoUninit for char {
    open spec fn encode(v: char) -> Seq<u8> {
        <u32 as NoUninit>::encode(v as u32)
    }

    fn to_bytes(&self) -> (r: Vec<u8>) {
        (*self as u32).to_bytes()
    }
}

impl CheckedBitPattern for bool {
    type Bits = u8;

    open spec fn valid(bits: u8) -> bool {
        bits == 0 || bits == 1
    }

    open spec fn interpret(bits: u8) -> bool {
        bits == 1
    }

    fn is_valid_bit_pattern(bits: &u8) -> (r: bool) {
        *bits == 0 || *bits == 1
    }

    fn from_valid_bits(bits: u8) -> (r: bool) {
        bits == 1
    }
}

impl NoUninit for bool {
    open spec fn encode(v: bool) -> Seq<u8> {
        seq![if v { 1u8 } else { 0u8 }]
    }

    fn to_bytes(&self) -> (r: Vec<u8>) {
        let mut r = Vec::new();
        r.push(if *self { 1u8 } else { 0u8 });
        r
    }
}

/// The bytes of a sequence of values: the encodings of the values one after another
pub open spec fn encode_all<T: NoUninit>(values: Seq<T>) -> Seq<u8>
    decreases values.len(),
{
    if values.len() == 0 {
        Seq::empty()
    } else {
        encode_all(values.drop_last()) + T::encode(values.last())
    }
}

/// Encodes a slice of values as bytes
pub fn slice_to_bytes<T: NoUninit>(values: &[T]) -> (r: Vec<u8>)
    ensures
        r@ == encode_all(values@),
{
    let mut r = Vec::new();
    let mut i: usize = 0;
    while i < values.len()
        invariant
            i <= values@.len(),
            r@ == encode_all(values@.take(i as int)),
        decreases values@.len() - i,
    {
        let mut b = values[i].to_bytes();
        r.append(&mut b);
        assert(values@.take(i + 1).drop_last() =~= values@.take(i as int));
        i += 1;
    }
    assert(values@.take(values@.len() as int) =~= values@);
    r
}

/// Decoding the bytes of an encoded value gives back the value
pub proof fn lemma_integer_round_trip(a: u16, b: u32, c: u64)
    ensures
        <u16 as AnyBitPattern>::decode(<u16 as NoUninit>::encode(a)) == a,
        <u32 as AnyBitPattern>::decode(<u32 as NoUninit>::encode(b)) == b,
        <u64 as AnyBitPattern>::decode(<u64 as NoUninit>::encode(c)) == c,
{
    assert(((a & 0xff) as u8 as u16) | ((((a >> 8u16) & 0xff) as u8 as u16) << 8u16) == a)
        by (bit_vector);
    assert(((b & 0xff) as u8 as u32) | ((((b >> 8u32) & 0xff) as u8 as u32) << 8u32) | ((((b
        >> 16u32) & 0xff) as u8 as u32) << 16u32) | ((((b >> 24u32) & 0xff) as u8 as u32)
        << 24u32) == b) by (bit_vector);
    assert(((c & 0xff) as u8 as u64) | ((((c >> 8u64) & 0xff) as u8 as u64) << 8u64) | ((((c
        >> 16u64) & 0xff) as u8 as u64) << 16u64) | ((((c >> 24u64) & 0xff) as u8 as u64)
        << 24u64) | ((((c >> 32u64) & 0xff) as u8 as u64) << 32u64) | ((((c >> 40u64) & 0xff)
        as u8 as u64) << 40u64) | ((((c >> 48u64) & 0xff) as u8 as u64) << 48u64) | ((((c
        >> 56u64) & 0xff) as u8 as u64) << 56u64) == c) by (bit_vector);
}

impl AnyBitPattern for i8 {
    open spec fn byte_size() -> nat {
        1
    }

    open spec fn decode(bytes: Seq<u8>) -> i8 {
        bytes[0] as i8
    }

    fn size() -> (r: usize) {
        1
    }

    fn from_bytes(bytes: &[u8]) -> (r: i8) {
        bytes[0] as i8
    }
}

impl NoUninit for i8 {
    open spec fn encode(v: i8) -> Seq<u8> {
        seq![v as u8]
    }

    fn to_bytes(&self) -> (r: Vec<u8>) {
        let mut r = Vec::new();
        r.push(*self as u8);
        r
    }
}

impl AnyBitPattern for i16 {
    open spec fn byte_size() -> nat {
        2
    }

    open spec fn decode(bytes: Seq<u8>) -> i16 {
        <u16 as AnyBitPattern>::decode(bytes) as i16
    }

    fn size() -> (r: usize) {
        2
    }

    fn from_bytes(bytes: &[u8]) -> (r: i16) {
        <u16 as AnyBitPattern>::from_bytes(bytes) as i16
    }
}

impl NoUninit for i16 {
    open spec fn encode(v: i16) -> Seq<u8> {
        <u16 as NoUninit>::encode(v as u16)
    }

    fn to_bytes(&self) -> (r: Vec<u8>) {
        (*self as u16).to_bytes()
    }
}

impl AnyBitPattern for u128 {
    open spec fn byte_size() -> nat {
        16
    }

    open spec fn decode(bytes: Seq<u8>) -> u128 {
        (<u64 as AnyBitPattern>::decode(bytes.subrange(0, 8)) as u128) | ((<u64 as AnyBitPattern>::decode(
            bytes.subrange(8, 16),
        ) as u128) << 64u128)
    }

    fn size() -> (r: usize) {
        16
    }

    fn from_bytes(bytes: &[u8]) -> (r: u128) {
        let low = <u64 as AnyBitPattern>::from_bytes(vstd::slice::slice_subrange(bytes, 0, 8));
        let high = <u64 as AnyBitPattern>::from_bytes(vstd::slice::slice_subrange(bytes, 8, 16));
        (low as u128) | ((high as u128) << 64)
    }
}

impl NoUninit for u128 {
    open spec fn encode(v: u128) -> Seq<u8> {
        <u64 as NoUninit>::encode(v as u64) + <u64 as NoUninit>::encode((v >> 64u128) as u64)
    }

    fn to_bytes(&self) -> (r: Vec<u8>) {
        let mut r = (*self as u64).to_bytes();
        let mut high = ((*self >> 64) as u64).to_bytes();
        r.append(&mut high);
        r
    }
}

impl AnyBitPattern for i128 {
    open spec fn byte_size() -> nat {
        16
    }

    open spec fn decode(bytes: Seq<u8>) -> i128 {
        <u128 as AnyBitPattern>::decode(bytes) as i128
    }

    fn size() -> (r: usize) {
        16
    }

    fn from_bytes(bytes: &[u8]) -> (r: i128) {
        <u128 as AnyBitPattern>::from_bytes(bytes) as i128
    }
}

impl NoUninit for i128 {
    open spec fn encode(v: i128) -> Seq<u8> {
        <u128 as NoUninit>::encode(v as u128)
    }

    fn to_bytes(&self) -> (r: Vec<u8>) {
        (*self as u128).to_bytes()
    }
}

/// Integers are read little-endian: the byte at position `k` weighs `256^k`
///
/// This states the value decoded from the bytes of each unsigned integer type, byte by byte.
pub proof fn lemma_unsigned_decoding_is_little_endian(b: Seq<u8>)
    requires
        b.len() >= 16,
    ensures
        <u8 as AnyBitPattern>::byte_size() == 1 && <u8 as AnyBitPattern>::decode(b) == b[0],
        <u16 as AnyBitPattern>::byte_size() == 2 && <u16 as AnyBitPattern>::decode(b) as int == b[0] + b[1] * 0x100,
        <u32 as AnyBitPattern>::byte_size() == 4 && <u32 as AnyBitPattern>::decode(b) as int == b[0] + b[1] * 0x100
            + b[2] * 0x1_0000 + b[3] * 0x100_0000,
        <u64 as AnyBitPattern>::byte_size() == 8 && <u64 as AnyBitPattern>::decode(b) as int == b[0] + b[1] * 0x100
            + b[2] * 0x1_0000 + b[3] * 0x100_0000 + b[4] * 0x1_0000_0000 + b[5] * 0x100_0000_0000 + b[6]
            * 0x1_0000_0000_0000 + b[7] * 0x100_0000_0000_0000,
        <u128 as AnyBitPattern>::byte_size() == 16 && <u128 as AnyBitPattern>::decode(b) as int == b[0] + b[1]
            * 0x100 + b[2] * 0x1_0000 + b[3] * 0x100_0000 + b[4] * 0x1_0000_0000 + b[5] * 0x100_0000_0000 + b[6]
            * 0x1_0000_0000_0000 + b[7] * 0x100_0000_0000_0000 + b[8] * 0x1_0000_0000_0000_0000 + b[9]
            * 0x100_0000_0000_0000_0000 + b[10] * 0x1_0000_0000_0000_0000_0000 + b[11]
            * 0x100_0000_0000_0000_0000_0000 + b[12] * 0x1_0000_0000_0000_0000_0000_0000 + b[13]
            * 0x100_0000_0000_0000_0000_0000_0000 + b[14] * 0x1_0000_0000_0000_0000_0000_0000_0000 + b[15]
            * 0x100_0000_0000_0000_0000_0000_0000_0000,
{
    let (b0, b1, b2, b3, b4, b5, b6, b7) = (b[0], b[1], b[2], b[3], b[4], b[5], b[6], b[7]);
    assert((b0 as u16) | ((b1 as u16) << 8u16) == b0 as u16 + (b1 as u16) * 0x100) by (bit_vector);
    assert((b0 as u32) | ((b1 as u32) << 8u32) | ((b2 as u32) << 16u32) | ((b3 as u32) << 24u32) == b0 as u32
        + (b1 as u32) * 0x100 + (b2 as u32) * 0x1_0000 + (b3 as u32) * 0x100_0000) by (bit_vector);
    lemma_u64_little_endian(b0, b1, b2, b3, b4, b5, b6, b7);
    let lo = b.subrange(0, 8);
    let hi = b.subrange(8, 16);
    lemma_u64_little_endian(hi[0], hi[1], hi[2], hi[3], hi[4], hi[5], hi[6], hi[7]);
    let l = <u64 as AnyBitPattern>::decode(lo);
    let h = <u64 as AnyBitPattern>::decode(hi);
    assert(l == <u64 as AnyBitPattern>::decode(b));
    assert((l as u128) | ((h as u128) << 64u128) == l as u128 + (h as u128) * 0x1_0000_0000_0000_0000)
        by (bit_vector);
}

/// Eight bytes combined by shifts are the sum of the bytes weighted by `256^k`
proof fn lemma_u64_little_endian(b0: u8, b1: u8, b2: u8, b3: u8, b4: u8, b5: u8, b6: u8, b7: u8)
    ensures
        ((b0 as u64) | ((b1 as u64) << 8u64) | ((b2 as u64) << 16u64) | ((b3 as u64) << 24u64) | ((b4 as u64)
            << 32u64) | ((b5 as u64) << 40u64) | ((b6 as u64) << 48u64) | ((b7 as u64) << 56u64)) as int == b0
            + b1 * 0x100 + b2 * 0x1_0000 + b3 * 0x100_0000 + b4 * 0x1_0000_0000 + b5 * 0x100_0000_0000 + b6
            * 0x1_0000_0000_0000 + b7 * 0x100_0000_0000_0000,
{
    assert((b0 as u64) | ((b1 as u64) << 8u64) | ((b2 as u64) << 16u64) | ((b3 as u64) << 24u64) | ((b4 as u64)
        << 32u64) | ((b5 as u64) << 40u64) | ((b6 as u64) << 48u64) | ((b7 as u64) << 56u64) == b0 as u64
        + (b1 as u64) * 0x100 + (b2 as u64) * 0x1_0000 + (b3 as u64) * 0x100_0000 + (b4 as u64) * 0x1_0000_0000
        + (b5 as u64) * 0x100_0000_0000 + (b6 as u64) * 0x1_0000_0000_0000 + (b7 as u64) * 0x100_0000_0000_0000)
        by (bit_vector);
}

/// Integers are written little-endian: the byte at position `k` is the digit of weight `256^k` of the value
pub proof fn lemma_unsigned_encoding_is_little_endian(x: u8, a: u16, b: u32, c: u64, d: u128)
    ensures
        <u8 as NoUninit>::encode(x) == seq![x],
        <u16 as NoUninit>::encode(a) == seq![(a % 0x100) as u8, ((a / 0x100) % 0x100) as u8],
        <u32 as NoUninit>::encode(b) == seq![
            (b % 0x100) as u8,
            ((b / 0x100) % 0x100) as u8,
            ((b / 0x1_0000) % 0x100) as u8,
            ((b / 0x100_0000) % 0x100) as u8,
        ],
        <u64 as NoUninit>::encode(c) == u64_digits(c),
        <u128 as NoUninit>::encode(d) == seq![
            (d % 0x100) as u8,
            ((d / 0x100) % 0x100) as u8,
            ((d / 0x1_0000) % 0x100) as u8,
            ((d / 0x100_0000) % 0x100) as u8,
            ((d / 0x1_0000_0000) % 0x100) as u8,
            ((d / 0x100_0000_0000) % 0x100) as u8,
            ((d / 0x1_0000_0000_0000) % 0x100) as u8,
            ((d / 0x100_0000_0000_0000) % 0x100) as u8,
            ((d / 0x1_0000_0000_0000_0000) % 0x100) as u8,
            ((d / 0x100_0000_0000_0000_0000) % 0x100) as u8,
            ((d / 0x1_0000_0000_0000_0000_0000) % 0x100) as u8,
            ((d / 0x100_0000_0000_0000_0000_0000) % 0x100) as u8,
            ((d / 0x1_0000_0000_0000_0000_0000_0000) % 0x100) as u8,
            ((d / 0x100_0000_0000_0000_0000_0000_0000) % 0x100) as u8,
            ((d / 0x1_0000_0000_0000_0000_0000_0000_0000) % 0x100) as u8,
            ((d / 0x100_0000_0000_0000_0000_0000_0000_0000) % 0x100) as u8,
        ],
{
    assert((a & 0xff) as u8 == (a % 0x100) as u8 && ((a >> 8u16) & 0xff) as u8 == ((a / 0x100) % 0x100) as u8)
        by (bit_vector);
    assert(<u16 as NoUninit>::encode(a) =~= seq![(a % 0x100) as u8, ((a / 0x100) % 0x100) as u8]);
    assert((b & 0xff) as u8 == (b % 0x100) as u8 && ((b >> 8u32) & 0xff) as u8 == ((b / 0x100) % 0x100) as u8
        && ((b >> 16u32) & 0xff) as u8 == ((b / 0x1_0000) % 0x100) as u8 && ((b >> 24u32) & 0xff) as u8 == ((b
        / 0x100_0000) % 0x100) as u8) by (bit_vector);
    assert(<u32 as NoUninit>::encode(b) =~= seq![
        (b % 0x100) as u8,
        ((b / 0x100) % 0x100) as u8,
        ((b / 0x1_0000) % 0x100) as u8,
        ((b / 0x100_0000) % 0x100) as u8,
    ]);
    lemma_u64_digits(c);
    let lo = d as u64;
    let hi = (d >> 64u128) as u64;
    lemma_u64_digits(lo);
    lemma_u64_digits(hi);
    assert({
        &&& (lo % 0x100) as u8 == (d % 0x100) as u8
        &&& ((lo / 0x100) % 0x100) as u8 == ((d / 0x100) % 0x100) as u8
        &&& ((lo / 0x1_0000) % 0x100) as u8 == ((d / 0x1_0000) % 0x100) as u8
        &&& ((lo / 0x100_0000) % 0x100) as u8 == ((d / 0x100_0000) % 0x100) as u8
        &&& ((lo / 0x1_0000_0000) % 0x100) as u8 == ((d / 0x1_0000_0000) % 0x100) as u8
        &&& ((lo / 0x100_0000_0000) % 0x100) as u8 == ((d / 0x100_0000_0000) % 0x100) as u8
        &&& ((lo / 0x1_0000_0000_0000) % 0x100) as u8 == ((d / 0x1_0000_0000_0000) % 0x100) as u8
        &&& ((lo / 0x100_0000_0000_0000) % 0x100) as u8 == ((d / 0x100_0000_0000_0000) % 0x100) as u8
    }) by (bit_vector)
        requires
            lo == d as u64,
    ;
    assert({
        &&& (hi % 0x100) as u8 == ((d / 0x1_0000_0000_0000_0000) % 0x100) as u8
        &&& ((hi / 0x100) % 0x100) as u8 == ((d / 0x100_0000_0000_0000_0000) % 0x100) as u8
        &&& ((hi / 0x1_0000) % 0x100) as u8 == ((d / 0x1_0000_0000_0000_0000_0000) % 0x100) as u8
        &&& ((hi / 0x100_0000) % 0x100) as u8 == ((d / 0x100_0000_0000_0000_0000_0000) % 0x100) as u8
        &&& ((hi / 0x1_0000_0000) % 0x100) as u8 == ((d / 0x1_0000_0000_0000_0000_0000_0000) % 0x100) as u8
        &&& ((hi / 0x100_0000_0000) % 0x100) as u8 == ((d / 0x100_0000_0000_0000_0000_0000_0000) % 0x100) as u8
        &&& ((hi / 0x1_0000_0000_0000) % 0x100) as u8 == ((d / 0x1_0000_0000_0000_0000_0000_0000_0000) % 0x100) as u8
        &&& ((hi / 0x100_0000_0000_0000) % 0x100) as u8 == ((d / 0x100_0000_0000_0000_0000_0000_0000_0000) % 0x100)
            as u8
    }) by (bit_vector)
        requires
            hi == (d >> 64u128) as u64,
    ;
    assert(<u128 as NoUninit>::encode(d) =~= u64_digits(lo) + u64_digits(hi));
}

/// The eight digits in base 256 of a 64-bit value, from the least significant one
pub open spec fn u64_digits(c: u64) -> Seq<u8> {
    seq![
        (c % 0x100) as u8,
        ((c / 0x100) % 0x100) as u8,
        ((c / 0x1_0000) % 0x100) as u8,
        ((c / 0x100_0000) % 0x100) as u8,
        ((c / 0x1_0000_0000) % 0x100) as u8,
        ((c / 0x100_0000_0000) % 0x100) as u8,
        ((c / 0x1_0000_0000_0000) % 0x100) as u8,
        ((c / 0x100_0000_0000_0000) % 0x100) as u8,
    ]
}

/// The bytes written for a 64-bit value are its digits in base 256
proof fn lemma_u64_digits(c: u64)
    ensures
        <u64 as NoUninit>::encode(c) == u64_digits(c),
{
    assert((c & 0xff) as u8 == (c % 0x100) as u8 && ((c >> 8u64) & 0xff) as u8 == ((c / 0x100) % 0x100) as u8
        && ((c >> 16u64) & 0xff) as u8 == ((c / 0x1_0000) % 0x100) as u8 && ((c >> 24u64) & 0xff) as u8 == ((c
        / 0x100_0000) % 0x100) as u8 && ((c >> 32u64) & 0xff) as u8 == ((c / 0x1_0000_0000) % 0x100) as u8 && ((c
        >> 40u64) & 0xff) as u8 == ((c / 0x100_0000_0000) % 0x100) as u8 && ((c >> 48u64) & 0xff) as u8 == ((c
        / 0x1_0000_0000_0000) % 0x100) as u8 && ((c >> 56u64) & 0xff) as u8 == ((c / 0x100_0000_0000_0000)
        % 0x100) as u8) by (bit_vector);
    assert(<u64 as NoUninit>::encode(c) =~= u64_digits(c));
}

/// Signed integers are read as the two's complement of the little-endian unsigned value of their bytes
pub proof fn lemma_signed_decoding_is_twos_complement(b: Seq<u8>)
    requires
        b.len() >= 16,
    ensures
        ({
            let u = <u8 as AnyBitPattern>::decode(b) as int;
            <i8 as AnyBitPattern>::decode(b) as int == if u < 0x80 { u } else { u - 0x100 }
        }),
        ({
            let u = <u16 as AnyBitPattern>::decode(b) as int;
            <i16 as AnyBitPattern>::decode(b) as int == if u < 0x8000 { u } else { u - 0x1_0000 }
        }),
        ({
            let u = <u32 as AnyBitPattern>::decode(b) as int;
            <i32 as AnyBitPattern>::decode(b) as int == if u < 0x8000_0000 { u } else { u - 0x1_0000_0000 }
        }),
        ({
            let u = <u64 as AnyBitPattern>::decode(b) as int;
            <i64 as AnyBitPattern>::decode(b) as int == if u < 0x8000_0000_0000_0000 {
                u
            } else {
                u - 0x1_0000_0000_0000_0000
            }
        }),
        ({
            let u = <u128 as AnyBitPattern>::decode(b) as int;
            <i128 as AnyBitPattern>::decode(b) as int == if u < 0x8000_0000_0000_0000_0000_0000_0000_0000 {
                u
            } else {
                u - 0x1_0000_0000_0000_0000_0000_0000_0000_0000
            }
        }),
{
    let x8 = <u8 as AnyBitPattern>::decode(b);
    let x16 = <u16 as AnyBitPattern>::decode(b);
    let x32 = <u32 as AnyBitPattern>::decode(b);
    let x64 = <u64 as AnyBitPattern>::decode(b);
    let x128 = <u128 as AnyBitPattern>::decode(b);
    assert((x8 < 0x80 ==> (x8 as i8) == x8) && (x8 >= 0x80 ==> (x8 as i8) == x8 - 0x100)) by (bit_vector);
    assert((x16 < 0x8000 ==> (x16 as i16) == x16) && (x16 >= 0x8000 ==> (x16 as i16) == x16 - 0x1_0000))
        by (bit_vector);
    assert((x32 < 0x8000_0000 ==> (x32 as i32) == x32) && (x32 >= 0x8000_0000 ==> (x32 as i32) == x32
        - 0x1_0000_0000)) by (bit_vector);
    assert((x64 < 0x8000_0000_0000_0000 ==> (x64 as i64) == x64) && (x64 >= 0x8000_0000_0000_0000 ==> (x64
        as i64) == x64 - 0x1_0000_0000_0000_0000)) by (bit_vector);
    assert((x128 < 0x8000_0000_0000_0000_0000_0000_0000_0000 ==> (x128 as i128) == x128) && (x128
        >= 0x8000_0000_0000_0000_0000_0000_0000_0000 ==> (x128 as i128) == x128
        - 0x1_0000_0000_0000_0000_0000_0000_0000_0000)) by (bit_vector);
}

/// Signed integers are written as the bytes of their two's complement, the unsigned value that equals them modulo
/// `2^n`
pub proof fn lemma_signed_encoding_is_twos_complement(a: i8, b: i16, c: i32, d: i64, e: i128)
    ensures
        <i8 as NoUninit>::encode(a) == <u8 as NoUninit>::encode(
            (if a >= 0 { a as int } else { a + 0x100 }) as u8,
        ),
        <i16 as NoUninit>::encode(b) == <u16 as NoUninit>::encode(
            (if b >= 0 { b as int } else { b + 0x1_0000 }) as u16,
        ),
        <i32 as NoUninit>::encode(c) == <u32 as NoUninit>::encode(
            (if c >= 0 { c as int } else { c + 0x1_0000_0000 }) as u32,
        ),
        <i64 as NoUninit>::encode(d) == <u64 as NoUninit>::encode(
            (if d >= 0 { d as int } else { d + 0x1_0000_0000_0000_0000 }) as u64,
        ),
        <i128 as NoUninit>::encode(e) == <u128 as NoUninit>::encode(
            (if e >= 0 { e as int } else { e + 0x1_0000_0000_0000_0000_0000_0000_0000_0000 }) as u128,
        ),
{
    assert((a >= 0 ==> (a as u8) == a) && (a < 0 ==> (a as u8) == a + 0x100)) by (bit_vector);
    assert((b >= 0 ==> (b as u16) == b) && (b < 0 ==> (b as u16) == b + 0x1_0000)) by (bit_vector);
    assert((c >= 0 ==> (c as u32) == c) && (c < 0 ==> (c as u32) == c + 0x1_0000_0000)) by (bit_vector);
    assert((d >= 0 ==> (d as u64) == d) && (d < 0 ==> (d as u64) == d + 0x1_0000_0000_0000_0000)) by (bit_vector);
    assert((e >= 0 ==> (e as u128) == e) && (e < 0 ==> (e as u128) == e
        + 0x1_0000_0000_0000_0000_0000_0000_0000_0000)) by (bit_vector);
}

/// A `bool` is read from one byte, which must be `0` (false) or `1` (true), and written as that byte
pub proof fn lemma_bool_bytes(bits: u8, v: bool)
    ensures
        <bool as CheckedBitPattern>::valid(bits) <==> bits <= 1,
        <bool as CheckedBitPattern>::valid(bits) ==> (<bool as CheckedBitPattern>::interpret(bits) <==> bits != 0),
        <bool as NoUninit>::encode(true) == seq![1u8],
        <bool as NoUninit>::encode(false) == seq![0u8],
{
}

/// A `char` is read from the four bytes of its code, which must be a Unicode scalar value (below `0xD800`, or from
/// `0xE000` up to `0x10FFFF`), and written as those bytes
pub proof fn lemma_char_bytes(bits: u32, c: char)
    ensures
        <char as CheckedBitPattern>::valid(bits) <==> (bits < 0xD800 || (0xE000 <= bits && bits <= 0x10FFFF)),
        <char as CheckedBitPattern>::valid(bits) ==> <char as CheckedBitPattern>::interpret(bits) as u32 == bits,
        <char as NoUninit>::encode(c) == <u32 as NoUninit>::encode(c as u32),
{
}

/// A type whose values can be written as state data
///
/// Every type whose values can be written as bytes is one.
pub trait WnfWrite {}

impl<T: NoUninit> WnfWrite for T {}

} // verus!
