//! Reading values from state data
//!
//! State data are read either from a buffer that already holds all of them or through a reader that fills a buffer
//! of a given capacity and reports the size of the whole data. Since state data can grow between learning their size
//! and reading them, reading a slice through a reader retries with a larger buffer until the data fit.

use vstd::prelude::*;

use crate::bytes::{encode_all, lemma_integer_round_trip, AnyBitPattern, CheckedBitPattern, NoUninit};
use crate::data::OpaqueData;
use crate::text::{decimal_digits, push_decimal_digits};

verus! {

/// An error reading state data
#[derive(Clone, Copy, Debug, PartialEq, Eq, Structural, Hash)]
pub enum WnfReadError {
    /// The data do not have the size of the type being read
    WrongSize { expected: usize, actual: usize },
    /// The data are not a whole number of elements of the type being read
    WrongSizeMultiple { expected_modulus: usize, actual: usize },
    /// The data do not form a valid bit pattern of the type being read
    InvalidBitPattern,
}

/// The message of a [`WnfReadError`]
pub open spec fn read_error_text(error: WnfReadError) -> Seq<char> {
    match error {
        WnfReadError::WrongSize { expected, actual } => "failed to read WNF state data: data has wrong size (expected "@
            + decimal_digits(expected as nat) + ", got "@ + decimal_digits(actual as nat) + ")"@,
        WnfReadError::WrongSizeMultiple { expected_modulus, actual } =>
            "failed to read WNF state data: data has wrong size (expected a multiple of "@ + decimal_digits(
            expected_modulus as nat,
        ) + ", got "@ + decimal_digits(actual as nat) + ")"@,
        WnfReadError::InvalidBitPattern => "failed to read WNF state data: data has invalid bit pattern"@,
    }
}

/// Appends a string slice to a string
fn push_text(out: &mut String, text: &str)
    ensures
        final(out)@ == old(out)@ + text@,
{
    out.append(text);
}

impl WnfReadError {
    /// Renders the message of this error
    pub fn to_string(&self) -> (r: String)
        ensures
            r@ == read_error_text(*self),
    {
        match *self {
            WnfReadError::WrongSize { expected, actual } => {
                let mut out = String::from_str(
                    "failed to read WNF state data: data has wrong size (expected ",
                );
                push_decimal_digits(&mut out, expected as u64);
                push_text(&mut out, ", got ");
                push_decimal_digits(&mut out, actual as u64);
                push_text(&mut out, ")");
                out
            },
            WnfReadError::WrongSizeMultiple { expected_modulus, actual } => {
                let mut out = String::from_str(
                    "failed to read WNF state data: data has wrong size (expected a multiple of ",
                );
                push_decimal_digits(&mut out, expected_modulus as u64);
                push_text(&mut out, ", got ");
                push_decimal_digits(&mut out, actual as u64);
                push_text(&mut out, ")");
                out
            },
            WnfReadError::InvalidBitPattern => {
                String::from_str("failed to read WNF state data: data has invalid bit pattern")
            },
        }
    }
}

/// The number of bytes of the bit pattern of `T`
pub open spec fn bits_size<T: CheckedBitPattern>() -> nat {
    <T::Bits as AnyBitPattern>::byte_size()
}

/// The bit pattern of `T` that the given bytes encode
pub open spec fn bits_of<T: CheckedBitPattern>(bytes: Seq<u8>) -> T::Bits {
    <T::Bits as AnyBitPattern>::decode(bytes)
}

/// The result of reading a single `T` from the given bytes
pub open spec fn value_read<T: CheckedBitPattern>(bytes: Seq<u8>) -> Result<T, WnfReadError> {
    if bytes.len() != bits_size::<T>() {
        Err(WnfReadError::WrongSize { expected: bits_size::<T>() as usize, actual: bytes.len() as usize })
    } else if !T::valid(bits_of::<T>(bytes)) {
        Err(WnfReadError::InvalidBitPattern)
    } else {
        Ok(T::interpret(bits_of::<T>(bytes)))
    }
}

/// The `i`-th chunk of `n` bytes of `bytes`
pub open spec fn chunk(bytes: Seq<u8>, n: nat, i: int) -> Seq<u8> {
    bytes.subrange(i * n, i * n + n)
}

/// Whether some chunk of the given bytes is not a valid bit pattern of `T`
pub open spec fn has_invalid_chunk<T: CheckedBitPattern>(bytes: Seq<u8>) -> bool {
    exists|i: int|
        0 <= i < bytes.len() / bits_size::<T>() && !T::valid(
            bits_of::<T>(#[trigger] chunk(bytes, bits_size::<T>(), i)),
        )
}

/// The result of reading a slice of `T` from the given bytes
pub open spec fn slice_read<T: CheckedBitPattern>(bytes: Seq<u8>) -> Result<Seq<T>, WnfReadError> {
    let n = bits_size::<T>();
    if n == 0 {
        if bytes.len() == 0 {
            Ok(Seq::empty())
        } else {
            Err(WnfReadError::WrongSize { expected: 0, actual: bytes.len() as usize })
        }
    } else if bytes.len() % n != 0 {
        Err(WnfReadError::WrongSizeMultiple { expected_modulus: n as usize, actual: bytes.len() as usize })
    } else if has_invalid_chunk::<T>(bytes) {
        Err(WnfReadError::InvalidBitPattern)
    } else {
        Ok(Seq::new(bytes.len() / n, |i: int| T::interpret(bits_of::<T>(chunk(bytes, n, i)))))
    }
}

/// A slice is read element by element: the data form a slice exactly when their size is a multiple of the size of
/// `T` and each of their chunks of that size reads as a single `T`, and then element `i` is what chunk `i` reads as
pub proof fn lemma_slice_read_by_elements<T: CheckedBitPattern>(bytes: Seq<u8>)
    requires
        bits_size::<T>() > 0,
    ensures
        slice_read::<T>(bytes) matches Ok(s) ==> s.len() * bits_size::<T>() == bytes.len() && forall|i: int|
            0 <= i < s.len() ==> value_read::<T>(
                #[trigger] bytes.subrange(i * bits_size::<T>(), i * bits_size::<T>() + bits_size::<T>()),
            ) == Ok::<T, WnfReadError>(s[i]),
        bytes.len() % bits_size::<T>() == 0 && (forall|i: int|
            0 <= i < bytes.len() / bits_size::<T>() ==> #[trigger] value_read::<T>(
                bytes.subrange(i * bits_size::<T>(), i * bits_size::<T>() + bits_size::<T>()),
            ) is Ok) ==> slice_read::<T>(bytes) is Ok,
{
    let n = bits_size::<T>();
    let len = bytes.len();
    assert forall|i: int| #![trigger chunk(bytes, n, i)] 0 <= i < len / n implies 0 <= i * n && i * n + n <= len by {
        assert(0 <= i * n && i * n + n <= (len / n) * n) by (nonlinear_arith)
            requires
                0 <= i < len / n,
                n > 0,
        ;
        assert((len / n) * n <= len) by (nonlinear_arith)
            requires
                n > 0,
        ;
    }
    if slice_read::<T>(bytes) is Ok {
        assert(len == (len / n) * n) by (nonlinear_arith)
            requires
                n > 0,
                len % n == 0,
        ;
        assert(len / n * n == n * (len / n)) by (nonlinear_arith);
    }
    if len % n == 0 && (forall|i: int|
        0 <= i < len / n ==> #[trigger] value_read::<T>(bytes.subrange(i * n, i * n + n)) is Ok) {
        if has_invalid_chunk::<T>(bytes) {
            let i = choose|i: int|
                0 <= i < bytes.len() / bits_size::<T>() && !T::valid(
                    bits_of::<T>(#[trigger] chunk(bytes, bits_size::<T>(), i)),
                );
            assert(value_read::<T>(bytes.subrange(i * n, i * n + n)) is Ok);
        }
    }
}

/// A read result holding a vector, taken with the vector's contents
pub open spec fn vec_result_view<T, E>(r: Result<Vec<T>, E>) -> Result<Seq<T>, E> {
    match r {
        Ok(v) => Ok(v@),
        Err(e) => Err(e),
    }
}

/// Chunk `i` of a byte sequence made of whole chunks lies within it
proof fn lemma_chunk_in_bounds(i: int, n: int, size: int)
    requires
        0 <= i,
        0 < n,
        0 <= size,
        size % n == 0,
        i < size / n,
    ensures
        0 <= i * n,
        i * n + n <= size,
{
    vstd::arithmetic::div_mod::lemma_fundamental_div_mod(size, n);
    vstd::arithmetic::mul::lemma_mul_inequality(i + 1, size / n, n);
    vstd::arithmetic::mul::lemma_mul_nonnegative(i, n);
    assert((i + 1) * n == i * n + n) by (nonlinear_arith);
    assert(n * (size / n) == (size / n) * n) by (nonlinear_arith);
}

/// Reads a `T` from a buffer holding the whole state data
pub fn value_from_buffer<T: CheckedBitPattern>(bytes: &[u8]) -> (r: Result<T, WnfReadError>)
    ensures
        r == value_read::<T>(bytes@),
{
    let n = <T::Bits as AnyBitPattern>::size();
    if bytes.len() != n {
        return Err(WnfReadError::WrongSize { expected: n, actual: bytes.len() });
    }
    let bits = <T::Bits as AnyBitPattern>::from_bytes(bytes);
    if T::is_valid_bit_pattern(&bits) {
        Ok(T::from_valid_bits(bits))
    } else {
        Err(WnfReadError::InvalidBitPattern)
    }
}

/// Reads a boxed `T` from a buffer holding the whole state data
pub fn boxed_from_buffer<T: CheckedBitPattern>(bytes: &[u8]) -> (r: Result<Box<T>, WnfReadError>)
    ensures
        match r {
            Ok(b) => value_read::<T>(bytes@) == Ok::<T, WnfReadError>(*b),
            Err(e) => value_read::<T>(bytes@) == Err::<T, WnfReadError>(e),
        },
{
    match value_from_buffer::<T>(bytes) {
        Ok(v) => Ok(Box::new(v)),
        Err(e) => Err(e),
    }
}

/// Reads a slice of `T` from a buffer holding the whole state data
pub fn slice_from_buffer<T: CheckedBitPattern>(bytes: &[u8]) -> (r: Result<Vec<T>, WnfReadError>)
    ensures
        vec_result_view(r) == slice_read::<T>(bytes@),
{
    let n = <T::Bits as AnyBitPattern>::size();
    let size = bytes.len();
    if n == 0 {
        if size == 0 {
            let out: Vec<T> = Vec::new();
            assert(out@ =~= Seq::<T>::empty());
            return Ok(out);
        } else {
            return Err(WnfReadError::WrongSize { expected: 0, actual: size });
        }
    }
    if size % n != 0 {
        return Err(WnfReadError::WrongSizeMultiple { expected_modulus: n, actual: size });
    }
    let len = size / n;
    let mut out: Vec<T> = Vec::new();
    let mut i: usize = 0;
    while i < len
        invariant
            n == bits_size::<T>(),
            n > 0,
            size == bytes@.len(),
            size % n == 0,
            len == size / n,
            i <= len,
            out@.len() == i,
            forall|j: int|
                0 <= j < i ==> T::valid(bits_of::<T>(#[trigger] chunk(bytes@, n as nat, j))) && out@[j]
                    == T::interpret(bits_of::<T>(chunk(bytes@, n as nat, j))),
        decreases len - i,
    {
        proof {
            lemma_chunk_in_bounds(i as int, n as int, size as int);
        }
        let start = i * n;
        let part = vstd::slice::slice_subrange(bytes, start, start + n);
        assert(part@ == chunk(bytes@, n as nat, i as int));
        let bits = <T::Bits as AnyBitPattern>::from_bytes(part);
        if !T::is_valid_bit_pattern(&bits) {
            assert(has_invalid_chunk::<T>(bytes@)) by {
                assert(!T::valid(bits_of::<T>(chunk(bytes@, n as nat, i as int))));
            }
            return Err(WnfReadError::InvalidBitPattern);
        }
        out.push(T::from_valid_bits(bits));
        i += 1;
    }
    assert(!has_invalid_chunk::<T>(bytes@));
    assert(out@ =~= Seq::new(
        (size / n) as nat,
        |j: int| T::interpret(bits_of::<T>(chunk(bytes@, n as nat, j))),
    ));
    Ok(out)
}

/// Reads opaque data from a buffer holding the whole state data, keeping only their size
pub fn opaque_from_buffer(bytes: &[u8]) -> (r: Result<OpaqueData, WnfReadError>)
    ensures
        r matches Ok(d) && d@ == bytes@.len(),
{
    Ok(OpaqueData::new(bytes.len()))
}

/// What a reader reports after reading state data into a buffer of a given capacity
pub struct ReadOutput<Meta> {
    /// The bytes written to the buffer: all of the data if they fit into it
    pub bytes: Vec<u8>,
    /// The size in bytes of the whole data
    pub size: usize,
    /// Further information passed through, such as a change stamp
    pub meta: Meta,
}

/// An error reading state data through a reader
#[derive(Debug, PartialEq, Eq)]
pub enum FromReaderError<E> {
    /// The reader failed
    Reader(E),
    /// The data that were read cannot be read as the requested type
    Data(WnfReadError),
}

/// The result of reading a single `T` from what a reader reported for a buffer of the size of `T`
pub open spec fn value_output<T: CheckedBitPattern, Meta, E>(res: Result<ReadOutput<Meta>, E>) -> Result<
    (T, Meta),
    FromReaderError<E>,
> {
    match res {
        Err(e) => Err(FromReaderError::Reader(e)),
        Ok(o) => if o.size != bits_size::<T>() {
            Err(
                FromReaderError::Data(
                    WnfReadError::WrongSize { expected: bits_size::<T>() as usize, actual: o.size },
                ),
            )
        } else {
            match value_read::<T>(o.bytes@) {
                Ok(v) => Ok((v, o.meta)),
                Err(e) => Err(FromReaderError::Data(e)),
            }
        },
    }
}

/// Reads a `T` from what a reader reported for a buffer of the size of `T`
pub fn value_from_output<T: CheckedBitPattern, Meta, E>(res: Result<ReadOutput<Meta>, E>) -> (r: Result<
    (T, Meta),
    FromReaderError<E>,
>)
    ensures
        r == value_output::<T, Meta, E>(res),
{
    match res {
        Err(e) => Err(FromReaderError::Reader(e)),
        Ok(o) => {
            let ReadOutput { bytes, size, meta } = o;
            let n = <T::Bits as AnyBitPattern>::size();
            if size != n {
                Err(FromReaderError::Data(WnfReadError::WrongSize { expected: n, actual: size }))
            } else {
                match value_from_buffer::<T>(bytes.as_slice()) {
                    Ok(v) => Ok((v, meta)),
                    Err(e) => Err(FromReaderError::Data(e)),
                }
            }
        },
    }
}

/// Reads a `T` through a reader, which is called once with a buffer of the size of `T`
pub fn value_from_reader<T: CheckedBitPattern, Meta, E, F>(reader: F) -> (r: Result<
    (T, Meta),
    FromReaderError<E>,
>) where F: Fn(usize) -> Result<ReadOutput<Meta>, E>
    requires
        forall|c: usize| #[trigger] reader.requires((c,)),
    ensures
        exists|res: Result<ReadOutput<Meta>, E>|
            #[trigger] reader.ensures((bits_size::<T>() as usize,), res) && r == value_output::<
                T,
                Meta,
                E,
            >(res),
{
    let n = <T::Bits as AnyBitPattern>::size();
    let res = reader(n);
    let ghost seen = res;
    let r = value_from_output::<T, Meta, E>(res);
    assert(reader.ensures((bits_size::<T>() as usize,), seen));
    r
}

/// Reads a boxed `T` through a reader, which is called once with a buffer of the size of `T`
pub fn boxed_from_reader<T: CheckedBitPattern, Meta, E, F>(reader: F) -> (r: Result<
    (Box<T>, Meta),
    FromReaderError<E>,
>) where F: Fn(usize) -> Result<ReadOutput<Meta>, E>
    requires
        forall|c: usize| #[trigger] reader.requires((c,)),
    ensures
        exists|res: Result<ReadOutput<Meta>, E>|
            #[trigger] reader.ensures((bits_size::<T>() as usize,), res) && match r {
                Ok((b, m)) => value_output::<T, Meta, E>(res) == Ok::<(T, Meta), FromReaderError<E>>(
                    (*b, m),
                ),
                Err(e) => value_output::<T, Meta, E>(res) == Err::<(T, Meta), FromReaderError<E>>(e),
            },
{
    match value_from_reader::<T, Meta, E, F>(reader) {
        Ok((v, m)) => Ok((Box::new(v), m)),
        Err(e) => Err(e),
    }
}

/// One step of reading a slice through a reader: grow the buffer to a new capacity, or finish with a result
pub enum SliceReadStep<T, Meta, E> {
    /// The data did not fit: read again with a buffer of this capacity in bytes
    Grow(usize),
    /// Reading is finished
    Done(Result<(Vec<T>, Meta), FromReaderError<E>>),
}

/// Whether `step` is the step that follows what a reader reported for a buffer of `capacity` bytes
pub open spec fn slice_step_matches<T: CheckedBitPattern, Meta, E>(
    capacity: usize,
    res: Result<ReadOutput<Meta>, E>,
    step: SliceReadStep<T, Meta, E>,
) -> bool {
    match res {
        Err(e) => step == SliceReadStep::<T, Meta, E>::Done(Err(FromReaderError::Reader(e))),
        Ok(o) => {
            let n = bits_size::<T>();
            if o.size == 0 {
                step matches SliceReadStep::Done(Ok((v, m))) && v@ == Seq::<T>::empty() && m == o.meta
            } else if n == 0 {
                step == SliceReadStep::<T, Meta, E>::Done(
                    Err(FromReaderError::Data(WnfReadError::WrongSize { expected: 0, actual: o.size })),
                )
            } else if (o.size as nat) % n != 0 {
                step == SliceReadStep::<T, Meta, E>::Done(
                    Err(
                        FromReaderError::Data(
                            WnfReadError::WrongSizeMultiple { expected_modulus: n as usize, actual: o.size },
                        ),
                    ),
                )
            } else if o.size > capacity {
                step == SliceReadStep::<T, Meta, E>::Grow(o.size)
            } else {
                match slice_read::<T>(o.bytes@) {
                    Ok(s) => step matches SliceReadStep::Done(Ok((v, m))) && v@ == s && m == o.meta,
                    Err(e) => step == SliceReadStep::<T, Meta, E>::Done(Err(FromReaderError::Data(e))),
                }
            }
        },
    }
}

/// Decides how reading a slice goes on after a reader reported `res` for a buffer of `capacity` bytes
pub fn slice_read_step<T: CheckedBitPattern, Meta, E>(
    capacity: usize,
    res: Result<ReadOutput<Meta>, E>,
) -> (step: SliceReadStep<T, Meta, E>)
    ensures
        slice_step_matches(capacity, res, step),
{
    match res {
        Err(e) => SliceReadStep::Done(Err(FromReaderError::Reader(e))),
        Ok(o) => {
            let ReadOutput { bytes, size, meta } = o;
            let n = <T::Bits as AnyBitPattern>::size();
            if size == 0 {
                let v: Vec<T> = Vec::new();
                assert(v@ =~= Seq::<T>::empty());
                SliceReadStep::Done(Ok((v, meta)))
            } else if n == 0 {
                SliceReadStep::Done(Err(FromReaderError::Data(WnfReadError::WrongSize { expected: 0, actual: size })))
            } else if size % n != 0 {
                SliceReadStep::Done(
                    Err(FromReaderError::Data(WnfReadError::WrongSizeMultiple { expected_modulus: n, actual: size })),
                )
            } else if size > capacity {
                SliceReadStep::Grow(size)
            } else {
                match slice_from_buffer::<T>(bytes.as_slice()) {
                    Ok(v) => SliceReadStep::Done(Ok((v, meta))),
                    Err(e) => SliceReadStep::Done(Err(FromReaderError::Data(e))),
                }
            }
        },
    }
}

/// Whether the `n`-th call of a reader reading a slice of `T` gets a buffer of `capacity` bytes
///
/// The first call gets an empty buffer; each later call gets a buffer of the size that the call before reported,
/// which was too large for its buffer.
pub open spec fn slice_capacity_asked<T: CheckedBitPattern, Meta, E, F>(reader: F, capacity: usize, n: nat) -> bool where
    F: Fn(usize) -> Result<ReadOutput<Meta>, E>,

    decreases n,
{
    if n == 0 {
        capacity == 0
    } else {
        exists|previous: usize, res: Result<ReadOutput<Meta>, E>|
            #[trigger] reader.ensures((previous,), res) && slice_capacity_asked::<T, Meta, E, F>(
                reader,
                previous,
                (n - 1) as nat,
            ) && slice_step_matches::<T, Meta, E>(previous, res, SliceReadStep::Grow(capacity))
    }
}

/// Reads a slice of `T` through a reader
///
/// The reader is first called with an empty buffer. Whenever it reports more data than fit into the buffer, it is
/// called again with a buffer of the reported size, until the data fit.
pub fn slice_from_reader<T: CheckedBitPattern, Meta, E, F>(reader: F) -> (r: Result<
    (Vec<T>, Meta),
    FromReaderError<E>,
>) where F: Fn(usize) -> Result<ReadOutput<Meta>, E>
    requires
        forall|c: usize| #[trigger] reader.requires((c,)),
    ensures
        exists|n: nat, c: usize, res: Result<ReadOutput<Meta>, E>|
            #![trigger reader.ensures((c,), res), slice_capacity_asked::<T, Meta, E, F>(reader, c, n)]
            reader.ensures((c,), res) && slice_capacity_asked::<T, Meta, E, F>(reader, c, n)
                && slice_step_matches::<T, Meta, E>(c, res, SliceReadStep::Done(r)),
{
    let mut capacity: usize = 0;
    let ghost mut calls: nat = 0;
    loop
        invariant
            forall|c: usize| #[trigger] reader.requires((c,)),
            slice_capacity_asked::<T, Meta, E, F>(reader, capacity, calls),
        decreases usize::MAX - capacity,
    {
        let res = reader(capacity);
        let ghost seen = res;
        let step = slice_read_step::<T, Meta, E>(capacity, res);
        match step {
            SliceReadStep::Grow(c) => {
                proof {
                    assert(reader.ensures((capacity,), seen));
                    assert(slice_capacity_asked::<T, Meta, E, F>(reader, c, calls + 1));
                    calls = calls + 1;
                }
                capacity = c;
            },
            SliceReadStep::Done(r) => {
                assert(reader.ensures((capacity,), seen));
                assert(slice_step_matches::<T, Meta, E>(capacity, seen, SliceReadStep::Done(r)));
                assert(slice_capacity_asked::<T, Meta, E, F>(reader, capacity, calls));
                return r;
            },
        }
    }
}

/// The result of reading opaque data from what a reader reported
pub open spec fn opaque_output<Meta, E>(res: Result<ReadOutput<Meta>, E>) -> Result<
    (usize, Meta),
    FromReaderError<E>,
> {
    match res {
        Err(e) => Err(FromReaderError::Reader(e)),
        Ok(o) => Ok((o.size, o.meta)),
    }
}

/// Reads opaque data through a reader, which is called once with an empty buffer to learn the size of the data
pub fn opaque_from_reader<Meta, E, F>(reader: F) -> (r: Result<(OpaqueData, Meta), FromReaderError<E>>) where
    F: Fn(usize) -> Result<ReadOutput<Meta>, E>,

    requires
        forall|c: usize| #[trigger] reader.requires((c,)),
    ensures
        exists|res: Result<ReadOutput<Meta>, E>|
            #[trigger] reader.ensures((0usize,), res) && match r {
                Ok((d, m)) => opaque_output(res) == Ok::<(usize, Meta), FromReaderError<E>>((d@, m)),
                Err(e) => opaque_output(res) == Err::<(usize, Meta), FromReaderError<E>>(e),
            },
{
    let res = reader(0);
    let ghost seen = res;
    let r = match res {
        Err(e) => Err(FromReaderError::Reader(e)),
        Ok(o) => Ok((OpaqueData::new(o.size), o.meta)),
    };
    assert(reader.ensures((0usize,), seen));
    r
}

/// Whether encoding any `T` gives bytes of the size of `T` that decode back to it
pub open spec fn encoding_round_trips<T: AnyBitPattern + NoUninit>() -> bool {
    forall|v: T| #[trigger] T::encode(v).len() == T::byte_size() && T::decode(T::encode(v)) == v
}

/// The encodings of the integer types round-trip
pub proof fn lemma_integer_encodings_round_trip()
    ensures
        encoding_round_trips::<u8>(),
        encoding_round_trips::<u16>(),
        encoding_round_trips::<u32>(),
        encoding_round_trips::<u64>(),
        encoding_round_trips::<u128>(),
        encoding_round_trips::<i8>(),
        encoding_round_trips::<i16>(),
        encoding_round_trips::<i32>(),
        encoding_round_trips::<i64>(),
        encoding_round_trips::<i128>(),
{
    assert forall|v: u16| #[trigger] <u16 as NoUninit>::encode(v).len() == <u16 as AnyBitPattern>::byte_size()
        && <u16 as AnyBitPattern>::decode(<u16 as NoUninit>::encode(v)) == v by {
        lemma_integer_round_trip(v, 0, 0);
    }
    assert forall|v: u32| #[trigger] <u32 as NoUninit>::encode(v).len() == <u32 as AnyBitPattern>::byte_size()
        && <u32 as AnyBitPattern>::decode(<u32 as NoUninit>::encode(v)) == v by {
        lemma_integer_round_trip(0, v, 0);
    }
    assert forall|v: u64| #[trigger] <u64 as NoUninit>::encode(v).len() == <u64 as AnyBitPattern>::byte_size()
        && <u64 as AnyBitPattern>::decode(<u64 as NoUninit>::encode(v)) == v by {
        lemma_integer_round_trip(0, 0, v);
    }
    assert forall|v: u128| #[trigger] <u128 as NoUninit>::encode(v).len() == <u128 as AnyBitPattern>::byte_size()
        && <u128 as AnyBitPattern>::decode(<u128 as NoUninit>::encode(v)) == v by {
        let low = v as u64;
        let high = (v >> 64u128) as u64;
        lemma_integer_round_trip(0, 0, low);
        lemma_integer_round_trip(0, 0, high);
        let e = <u128 as NoUninit>::encode(v);
        assert(e.subrange(0, 8) =~= <u64 as NoUninit>::encode(low));
        assert(e.subrange(8, 16) =~= <u64 as NoUninit>::encode(high));
        assert((low as u128) | ((high as u128) << 64u128) == v) by (bit_vector)
            requires
                low == v as u64,
                high == (v >> 64u128) as u64,
        ;
    }
    assert forall|v: i8| #[trigger] <i8 as NoUninit>::encode(v).len() == <i8 as AnyBitPattern>::byte_size()
        && <i8 as AnyBitPattern>::decode(<i8 as NoUninit>::encode(v)) == v by {
        assert((v as u8) as i8 == v) by (bit_vector);
    }
    assert forall|v: i16| #[trigger] <i16 as NoUninit>::encode(v).len() == <i16 as AnyBitPattern>::byte_size()
        && <i16 as AnyBitPattern>::decode(<i16 as NoUninit>::encode(v)) == v by {
        lemma_integer_round_trip(v as u16, 0, 0);
        assert((v as u16) as i16 == v) by (bit_vector);
    }
    assert forall|v: i32| #[trigger] <i32 as NoUninit>::encode(v).len() == <i32 as AnyBitPattern>::byte_size()
        && <i32 as AnyBitPattern>::decode(<i32 as NoUninit>::encode(v)) == v by {
        lemma_integer_round_trip(0, v as u32, 0);
        assert((v as u32) as i32 == v) by (bit_vector);
    }
    assert forall|v: i64| #[trigger] <i64 as NoUninit>::encode(v).len() == <i64 as AnyBitPattern>::byte_size()
        && <i64 as AnyBitPattern>::decode(<i64 as NoUninit>::encode(v)) == v by {
        lemma_integer_round_trip(0, 0, v as u64);
        assert((v as u64) as i64 == v) by (bit_vector);
    }
    assert forall|v: i128| #[trigger] <i128 as NoUninit>::encode(v).len() == <i128 as AnyBitPattern>::byte_size()
        && <i128 as AnyBitPattern>::decode(<i128 as NoUninit>::encode(v)) == v by {
        let u = v as u128;
        let low = u as u64;
        let high = (u >> 64u128) as u64;
        lemma_integer_round_trip(0, 0, low);
        lemma_integer_round_trip(0, 0, high);
        let e = <u128 as NoUninit>::encode(u);
        assert(e.subrange(0, 8) =~= <u64 as NoUninit>::encode(low));
        assert(e.subrange(8, 16) =~= <u64 as NoUninit>::encode(high));
        assert((low as u128) | ((high as u128) << 64u128) == u) by (bit_vector)
            requires
                low == u as u64,
                high == (u >> 64u128) as u64,
        ;
        assert((u as i128) == v) by (bit_vector)
            requires
                u == v as u128,
        ;
    }
}

/// The encoding of a sequence of values consists of the encodings of the values, chunk by chunk
proof fn lemma_encode_all_chunks<T: AnyBitPattern + NoUninit>(values: Seq<T>)
    requires
        encoding_round_trips::<T>(),
    ensures
        encode_all(values).len() == values.len() * T::byte_size(),
        forall|i: int|
            0 <= i < values.len() ==> #[trigger] chunk(encode_all(values), T::byte_size(), i) == T::encode(
                values[i],
            ),
    decreases values.len(),
{
    if values.len() > 0 {
        let init = values.drop_last();
        let n = T::byte_size();
        let k = init.len();
        let e = encode_all(values);
        lemma_encode_all_chunks(init);
        assert(T::encode(values.last()).len() == n);
        assert(values.len() * n == k * n + n) by (nonlinear_arith)
            requires
                values.len() == k + 1,
        ;
        assert forall|i: int| 0 <= i < values.len() implies #[trigger] chunk(e, n, i) == T::encode(values[i]) by {
            if i < k {
                vstd::arithmetic::mul::lemma_mul_inequality(i + 1, k as int, n as int);
                assert((i + 1) * n == i * n + n) by (nonlinear_arith);
                vstd::arithmetic::mul::lemma_mul_nonnegative(i, n as int);
                assert(chunk(e, n, i) =~= chunk(encode_all(init), n, i));
                assert(values[i] == init[i]);
            } else {
                assert(i * n == k * n);
                assert(chunk(e, n, i) =~= T::encode(values.last()));
            }
        }
    } else {
        assert(values.len() * T::byte_size() == 0) by (nonlinear_arith)
            requires
                values.len() == 0,
        ;
    }
}

/// Reading a single value back from its encoding gives the value
pub proof fn lemma_value_read_of_encoding<T: AnyBitPattern + NoUninit>(v: T)
    requires
        encoding_round_trips::<T>(),
    ensures
        value_read::<T>(T::encode(v)) == Ok::<T, WnfReadError>(v),
{
    assert(T::encode(v).len() == T::byte_size());
}

/// Reading a slice back from the encoding of a sequence of values gives the values
pub proof fn lemma_slice_read_of_encoding<T: AnyBitPattern + NoUninit>(values: Seq<T>)
    requires
        encoding_round_trips::<T>(),
        T::byte_size() > 0,
    ensures
        slice_read::<T>(encode_all(values)) == Ok::<Seq<T>, WnfReadError>(values),
{
    lemma_encode_all_chunks(values);
    let n = T::byte_size();
    let k = values.len();
    let e = encode_all(values);
    vstd::arithmetic::div_mod::lemma_mod_multiples_basic(k as int, n as int);
    vstd::arithmetic::div_mod::lemma_div_multiples_vanish(k as int, n as int);
    assert(k * n == n * k) by (nonlinear_arith);
    assert(e.len() % n == 0);
    assert(e.len() / n == k);
    assert(!has_invalid_chunk::<T>(e));
    assert forall|i: int| 0 <= i < k implies T::interpret(bits_of::<T>(#[trigger] chunk(e, n, i))) == values[i] by {
        assert(chunk(e, n, i) == T::encode(values[i]));
        assert(T::decode(T::encode(values[i])) == values[i]);
        assert(bits_of::<T>(chunk(e, n, i)) == T::decode(chunk(e, n, i)));
    }
    assert(Seq::new(e.len() / n, |i: int| T::interpret(bits_of::<T>(chunk(e, n, i)))) =~= values);
}

/// Any state data can be read as a slice of bytes, which gives the data themselves
pub proof fn lemma_byte_slice_reads_anything(bytes: Seq<u8>)
    ensures
        slice_read::<u8>(bytes) == Ok::<Seq<u8>, WnfReadError>(bytes),
{
    assert(bytes.len() % 1 == 0);
    assert(bytes.len() / 1 == bytes.len());
    assert forall|i: int| 0 <= i < bytes.len() implies <u8 as CheckedBitPattern>::interpret(
        bits_of::<u8>(#[trigger] chunk(bytes, 1, i)),
    ) == bytes[i] by {
        assert(chunk(bytes, 1, i)[0] == bytes[i]);
    }
    assert(Seq::new(bytes.len() / 1, |i: int| <u8 as CheckedBitPattern>::interpret(bits_of::<u8>(chunk(bytes, 1, i))))
        =~= bytes);
}

} // verus!
