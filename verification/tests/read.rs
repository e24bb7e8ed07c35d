use std::cell::Cell;

use wnf::read::{
    boxed_from_buffer, boxed_from_reader, opaque_from_buffer, opaque_from_reader, slice_from_buffer,
    slice_from_reader, value_from_buffer, value_from_reader, FromReaderError, ReadOutput, WnfReadError,
};
use wnf::{AnyBitPattern, CheckedBitPattern};

#[derive(Clone, Copy, Debug, PartialEq)]
struct ZeroSized;

impl AnyBitPattern for ZeroSized {
    fn size() -> usize {
        0
    }

    fn from_bytes(_: &[u8]) -> Self {
        ZeroSized
    }
}

#[derive(Clone, Copy, Debug, PartialEq)]
struct AlwaysInvalid<T>(T);

impl<T: AnyBitPattern> CheckedBitPattern for AlwaysInvalid<T> {
    type Bits = T;

    fn is_valid_bit_pattern(_: &T) -> bool {
        false
    }

    fn from_valid_bits(bits: T) -> Self {
        AlwaysInvalid(bits)
    }
}

/// The bytes of the `u16` values `0x1234` and `0x5678` in little-endian byte order
const U16_SLICE_BYTES: [u8; 4] = [0x34, 0x12, 0x78, 0x56];

/// Produces a reader that reads from the provided data and returns the provided metadata
fn reader<'a, Meta: Clone + 'a>(
    data: &'a [u8],
    meta: Meta,
) -> impl Fn(usize) -> Result<ReadOutput<Meta>, ()> + 'a {
    multireader(vec![(data, meta)])
}

/// Produces a reader that, on its first invocation, reads from the first element of `outputs`, then on its second
/// invocation from the second element and so on; when `outputs` is exhausted, its last element is repeated
///
/// On each invocation with a buffer of some capacity, the reader writes as many bytes of its data as fit and reports
/// the size of all of its data.
fn multireader<'a, Meta: Clone + 'a>(
    outputs: Vec<(&'a [u8], Meta)>,
) -> impl Fn(usize) -> Result<ReadOutput<Meta>, ()> + 'a {
    let calls = Cell::new(0usize);
    move |capacity| {
        let idx = calls.get().min(outputs.len() - 1);
        calls.set(calls.get() + 1);
        let (data, meta) = outputs[idx].clone();
        Ok(ReadOutput { bytes: data[..data.len().min(capacity)].to_vec(), size: data.len(), meta })
    }
}

fn data_error<T>(result: Result<T, FromReaderError<()>>) -> WnfReadError {
    match result {
        Err(FromReaderError::Data(err)) => err,
        other => panic!("expected a data error, got {:?}", other.map(|_| ())),
    }
}

#[test]
fn opaque_data_from_buffer() {
    let result = opaque_from_buffer(&[]);

    assert!(result.is_ok());
}

#[test]
fn opaque_data_from_reader() {
    let result = opaque_from_reader(reader(&[0xFF; 2], "Meta"));

    assert!(matches!(result, Ok((_, "Meta"))));
}

#[test]
fn zero_sized_from_buffer_success() {
    let result: Result<ZeroSized, _> = value_from_buffer(&[]);

    assert!(result.is_ok());
}

#[test]
fn zero_sized_from_buffer_wrong_size() {
    let result: Result<ZeroSized, _> = value_from_buffer(&[0xFF, 0x34]);

    assert!(result.is_err());
    let err = result.unwrap_err();
    assert_eq!(err, WnfReadError::WrongSize { expected: 0, actual: 2 });
    assert_eq!(err.to_string(), "failed to read WNF state data: data has wrong size (expected 0, got 2)");
}

#[test]
fn zero_sized_from_buffer_invalid_bit_pattern() {
    let result: Result<AlwaysInvalid<ZeroSized>, _> = value_from_buffer(&[]);

    assert!(result.is_err());
    let err = result.unwrap_err();
    assert_eq!(err, WnfReadError::InvalidBitPattern);
    assert_eq!(err.to_string(), "failed to read WNF state data: data has invalid bit pattern");
}

#[test]
fn zero_sized_from_reader_success() {
    let result: Result<(ZeroSized, &str), _> = value_from_reader(reader(&[], "Meta"));

    assert!(matches!(result, Ok((_, "Meta"))));
}

#[test]
fn zero_sized_from_reader_wrong_size() {
    let result: Result<(ZeroSized, &str), _> = value_from_reader(reader(&[0xFF; 2], "Meta"));

    assert!(result.is_err());
    let err = data_error(result);
    assert_eq!(err, WnfReadError::WrongSize { expected: 0, actual: 2 });
    assert_eq!(err.to_string(), "failed to read WNF state data: data has wrong size (expected 0, got 2)");
}

#[test]
fn zero_sized_from_reader_invalid_bit_pattern() {
    let result: Result<(AlwaysInvalid<ZeroSized>, &str), _> = value_from_reader(reader(&[], "Meta"));

    assert!(result.is_err());
    let err = data_error(result);
    assert_eq!(err, WnfReadError::InvalidBitPattern);
    assert_eq!(err.to_string(), "failed to read WNF state data: data has invalid bit pattern");
}

#[test]
fn zero_sized_boxed_from_buffer_success() {
    let result: Result<Box<ZeroSized>, _> = boxed_from_buffer(&[]);

    assert!(result.is_ok());
}

#[test]
fn zero_sized_boxed_from_reader_success() {
    let result: Result<(Box<ZeroSized>, &str), _> = boxed_from_reader(reader(&[], "Meta"));

    assert!(matches!(result, Ok((_, "Meta"))));
}

#[test]
fn zero_sized_slice_from_buffer_success() {
    let result: Result<Vec<ZeroSized>, _> = slice_from_buffer(&[]);

    assert!(matches!(result, Ok(read_data) if read_data.is_empty()));
}

#[test]
fn zero_sized_slice_from_buffer_wrong_size() {
    let result: Result<Vec<ZeroSized>, _> = slice_from_buffer(&U16_SLICE_BYTES[..2]);

    assert!(result.is_err());
    let err = result.unwrap_err();
    assert_eq!(err, WnfReadError::WrongSize { expected: 0, actual: 2 });
    assert_eq!(err.to_string(), "failed to read WNF state data: data has wrong size (expected 0, got 2)");
}

#[test]
fn zero_sized_slice_from_reader_success() {
    let result: Result<(Vec<ZeroSized>, &str), _> = slice_from_reader(reader(&[], "Meta"));

    assert!(matches!(result, Ok((read_data, "Meta")) if read_data.is_empty()));
}

#[test]
fn zero_sized_slice_from_reader_wrong_size() {
    let result: Result<(Vec<ZeroSized>, &str), _> = slice_from_reader(reader(&[0xFF; 2], "Meta"));

    assert!(result.is_err());
    let err = data_error(result);
    assert_eq!(err, WnfReadError::WrongSize { expected: 0, actual: 2 });
    assert_eq!(err.to_string(), "failed to read WNF state data: data has wrong size (expected 0, got 2)");
}

#[test]
fn nonzero_sized_from_buffer_success() {
    let result: Result<u16, _> = value_from_buffer(&U16_SLICE_BYTES[..2]);

    assert!(matches!(result, Ok(read_data) if read_data == 0x1234));
}

#[test]
fn nonzero_sized_from_buffer_wrong_size() {
    let result: Result<u32, _> = value_from_buffer(&U16_SLICE_BYTES[..2]);

    assert!(result.is_err());
    let err = result.unwrap_err();
    assert_eq!(err, WnfReadError::WrongSize { expected: 4, actual: 2 });
    assert_eq!(err.to_string(), "failed to read WNF state data: data has wrong size (expected 4, got 2)");
}

#[test]
fn nonzero_sized_from_buffer_invalid_bit_pattern() {
    let result: Result<AlwaysInvalid<u16>, _> = value_from_buffer(&U16_SLICE_BYTES[..2]);

    assert!(result.is_err());
    let err = result.unwrap_err();
    assert_eq!(err, WnfReadError::InvalidBitPattern);
    assert_eq!(err.to_string(), "failed to read WNF state data: data has invalid bit pattern");
}

#[test]
fn nonzero_sized_from_reader_success() {
    let data: u16 = 0x1234;

    let result: Result<(u16, &str), _> = value_from_reader(reader(&data.to_le_bytes(), "Meta"));

    assert!(matches!(result, Ok((read_data, "Meta")) if read_data == data));
}

#[test]
fn nonzero_sized_from_reader_wrong_size() {
    let result: Result<(u32, &str), _> = value_from_reader(reader(&[0xFF; 2], "Meta"));

    assert!(result.is_err());
    let err = data_error(result);
    assert_eq!(err, WnfReadError::WrongSize { expected: 4, actual: 2 });
    assert_eq!(err.to_string(), "failed to read WNF state data: data has wrong size (expected 4, got 2)");
}

#[test]
fn nonzero_sized_from_reader_invalid_bit_pattern() {
    let result: Result<(AlwaysInvalid<u16>, &str), _> = value_from_reader(reader(&[0xFF; 2], "Meta"));

    assert!(result.is_err());
    let err = data_error(result);
    assert_eq!(err, WnfReadError::InvalidBitPattern);
    assert_eq!(err.to_string(), "failed to read WNF state data: data has invalid bit pattern");
}

#[test]
fn nonzero_sized_boxed_from_buffer_success() {
    let result: Result<Box<u16>, _> = boxed_from_buffer(&U16_SLICE_BYTES[..2]);

    assert!(matches!(result, Ok(read_data) if *read_data == 0x1234));
}

#[test]
fn nonzero_sized_boxed_from_reader_success() {
    let data: u16 = 0x1234;

    let result: Result<(Box<u16>, &str), _> = boxed_from_reader(reader(&data.to_le_bytes(), "Meta"));

    assert!(matches!(result, Ok((read_data, "Meta")) if *read_data == data));
}

#[test]
fn nonzero_sized_slice_from_buffer_success_empty() {
    let result: Result<Vec<u16>, _> = slice_from_buffer(&[]);

    assert!(matches!(result, Ok(read_data) if read_data.is_empty()));
}

#[test]
fn nonzero_sized_slice_from_buffer_success_nonempty() {
    let result: Result<Vec<u16>, _> = slice_from_buffer(&U16_SLICE_BYTES);

    assert!(matches!(result, Ok(read_data) if read_data == [0x1234, 0x5678]));
}

#[test]
fn nonzero_sized_slice_from_buffer_wrong_size_multiple() {
    let result: Result<Vec<u64>, _> = slice_from_buffer(&U16_SLICE_BYTES);

    assert!(result.is_err());
    let err = result.unwrap_err();
    assert_eq!(err, WnfReadError::WrongSizeMultiple { expected_modulus: 8, actual: 4 });
    assert_eq!(
        err.to_string(),
        "failed to read WNF state data: data has wrong size (expected a multiple of 8, got 4)"
    );
}

#[test]
fn nonzero_sized_slice_from_buffer_invalid_bit_pattern() {
    let result: Result<Vec<AlwaysInvalid<u16>>, _> = slice_from_buffer(&U16_SLICE_BYTES);

    assert!(result.is_err());
    let err = result.unwrap_err();
    assert_eq!(err, WnfReadError::InvalidBitPattern);
    assert_eq!(err.to_string(), "failed to read WNF state data: data has invalid bit pattern");
}

#[test]
fn nonzero_sized_slice_from_reader_success() {
    let data: [u16; 2] = [0x1234, 0x5678];
    let raw_data: Vec<u8> = data.iter().flat_map(|&value| value.to_le_bytes().into_iter()).collect();

    let result: Result<(Vec<u16>, &str), _> = slice_from_reader(reader(&raw_data, "Meta"));

    assert!(matches!(result, Ok((read_data, "Meta")) if *read_data == data));
}

#[test]
fn nonzero_sized_slice_from_reader_growing() {
    // The reader first produces one element, then five, so reading has to grow the buffer twice
    let data: [u16; 5] = [0x1122, 0x3344, 0x5566, 0x7788, 0x99AA];
    let raw_data_1 = data[0].to_le_bytes();
    let raw_data_2: Vec<u8> = data.iter().flat_map(|&value| value.to_le_bytes().into_iter()).collect();

    let result: Result<(Vec<u16>, &str), _> =
        slice_from_reader(multireader(vec![(&raw_data_1, "Meta 1"), (&raw_data_2, "Meta 2")]));

    assert!(matches!(result, Ok((read_data, "Meta 2")) if *read_data == data));
}

#[test]
fn nonzero_sized_slice_from_reader_wrong_size_multiple() {
    let result: Result<(Vec<u64>, &str), _> = slice_from_reader(reader(&[0xFF; 4], "Meta"));

    assert!(result.is_err());
    let err = data_error(result);
    assert_eq!(err, WnfReadError::WrongSizeMultiple { expected_modulus: 8, actual: 4 });
    assert_eq!(
        err.to_string(),
        "failed to read WNF state data: data has wrong size (expected a multiple of 8, got 4)"
    );
}

#[test]
fn nonzero_sized_slice_from_reader_invalid_bit_pattern() {
    let result: Result<(Vec<AlwaysInvalid<u16>>, &str), _> = slice_from_reader(reader(&[0xFF; 4], "Meta"));

    assert!(result.is_err());
    let err = data_error(result);
    assert_eq!(err, WnfReadError::InvalidBitPattern);
    assert_eq!(err.to_string(), "failed to read WNF state data: data has invalid bit pattern");
}

#[test]
fn reader_error_is_passed_on() {
    let failing = |_: usize| -> Result<ReadOutput<&str>, &str> { Err("reader failed") };

    let value: Result<(u16, &str), _> = value_from_reader(failing);
    assert!(matches!(value, Err(FromReaderError::Reader("reader failed"))));

    let slice: Result<(Vec<u16>, &str), _> = slice_from_reader(failing);
    assert!(matches!(slice, Err(FromReaderError::Reader("reader failed"))));

    let opaque = opaque_from_reader(failing);
    assert!(matches!(opaque, Err(FromReaderError::Reader("reader failed"))));
}

#[test]
fn opaque_data_from_reader_keeps_size() {
    let result = opaque_from_reader(reader(&[0xFF; 6], "Meta"));

    assert!(matches!(result, Ok((data, "Meta")) if data.size() == 6));
    assert_eq!(opaque_from_buffer(&[1, 2, 3]).unwrap().size(), 3);
}

#[test]
fn slice_from_reader_asks_with_growing_buffers() {
    let capacities = Cell::new(Vec::new());
    let data: Vec<u8> = vec![1, 0, 2, 0, 3, 0];
    let recording = |capacity: usize| -> Result<ReadOutput<()>, ()> {
        let mut seen = capacities.take();
        seen.push(capacity);
        capacities.set(seen);
        Ok(ReadOutput { bytes: data[..data.len().min(capacity)].to_vec(), size: data.len(), meta: () })
    };

    let result: Result<(Vec<u16>, ()), _> = slice_from_reader(recording);

    assert_eq!(result.ok().map(|(values, _)| values), Some(vec![1, 2, 3]));
    assert_eq!(capacities.take(), vec![0, 6]);
}

#[test]
fn bool_and_char_bit_patterns() {
    assert_eq!(value_from_buffer::<bool>(&[1]), Ok(true));
    assert_eq!(value_from_buffer::<bool>(&[0]), Ok(false));
    assert_eq!(value_from_buffer::<bool>(&[2]), Err(WnfReadError::InvalidBitPattern));
    assert_eq!(value_from_buffer::<char>(&[0x41, 0, 0, 0]), Ok('A'));
    assert_eq!(value_from_buffer::<char>(&[0x00, 0xD8, 0, 0]), Err(WnfReadError::InvalidBitPattern));
    assert_eq!(slice_from_buffer::<bool>(&[1, 0, 1]), Ok(vec![true, false, true]));
    assert_eq!(slice_from_buffer::<bool>(&[1, 3]), Err(WnfReadError::InvalidBitPattern));
}

#[test]
fn any_data_can_be_read_as_bytes() {
    assert_eq!(slice_from_buffer::<u8>(&[1, 2, 3]), Ok(vec![1, 2, 3]));
    assert_eq!(slice_from_buffer::<u8>(&[]), Ok(vec![]));
    let result: Result<(Vec<u8>, &str), _> = slice_from_reader(reader(&[9, 8, 7, 6, 5], "Meta"));
    assert!(matches!(result, Ok((data, "Meta")) if data == vec![9, 8, 7, 6, 5]));
}
