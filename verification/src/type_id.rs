//! Type ids of states

use vstd::prelude::*;

use crate::text::digit_char;

verus! {

/// A Globally Unique Identifier (GUID)
///
/// This is used to (optionally) specify type ids for states. Its fields follow the Windows `GUID` layout: a 32-bit
/// value, two 16-bit values and eight bytes.
#[derive(Clone, Copy, Debug, Default, PartialEq, Eq, Hash)]
pub struct GUID {
    data1: u32,
    data2: u16,
    data3: u16,
    data4: [u8; 8],
}

/// The 64-bit big-endian value of eight bytes
pub open spec fn be_value(b: Seq<u8>) -> u128 {
    ((b[0] as u128) << 56u128) | ((b[1] as u128) << 48u128) | ((b[2] as u128) << 40u128) | ((
    b[3] as u128) << 32u128) | ((b[4] as u128) << 24u128) | ((b[5] as u128) << 16u128) | ((
    b[6] as u128) << 8u128) | (b[7] as u128)
}

/// The 128-bit value of a GUID with the given fields
pub open spec fn guid_value(data1: u32, data2: u16, data3: u16, data4: Seq<u8>) -> u128 {
    ((data1 as u128) << 96u128) | ((data2 as u128) << 80u128) | ((data3 as u128) << 64u128)
        | be_value(data4)
}

impl View for GUID {
    type V = u128;

    /// The 128-bit value of the GUID
    closed spec fn view(&self) -> u128 {
        guid_value(self.data1, self.data2, self.data3, self.data4@)
    }
}

/// The 128-bit value of a GUID puts its fields one after another, most significant first: the first field weighs
/// `2^96`, the second `2^80`, the third `2^64`, and byte `k` of the fourth `2^(8 * (7 - k))`
pub proof fn lemma_guid_value_layout(data1: u32, data2: u16, data3: u16, data4: Seq<u8>)
    requires
        data4.len() == 8,
    ensures
        guid_value(data1, data2, data3, data4) as int == data1 * 0x1_0000_0000_0000_0000_0000_0000 + data2
            * 0x1_0000_0000_0000_0000_0000 + data3 * 0x1_0000_0000_0000_0000 + data4[0] * 0x100_0000_0000_0000
            + data4[1] * 0x1_0000_0000_0000 + data4[2] * 0x100_0000_0000 + data4[3] * 0x1_0000_0000 + data4[4]
            * 0x100_0000 + data4[5] * 0x1_0000 + data4[6] * 0x100 + data4[7],
{
    let (b0, b1, b2, b3, b4, b5, b6, b7) = (
        data4[0],
        data4[1],
        data4[2],
        data4[3],
        data4[4],
        data4[5],
        data4[6],
        data4[7],
    );
    assert(((b0 as u128) << 56u128) | ((b1 as u128) << 48u128) | ((b2 as u128) << 40u128) | ((b3 as u128)
        << 32u128) | ((b4 as u128) << 24u128) | ((b5 as u128) << 16u128) | ((b6 as u128) << 8u128) | (b7 as u128)
        == (b0 as u128) * 0x100_0000_0000_0000 + (b1 as u128) * 0x1_0000_0000_0000 + (b2 as u128)
        * 0x100_0000_0000 + (b3 as u128) * 0x1_0000_0000 + (b4 as u128) * 0x100_0000 + (b5 as u128) * 0x1_0000
        + (b6 as u128) * 0x100 + (b7 as u128)) by (bit_vector);
    let low = be_value(data4);
    assert(low < 0x1_0000_0000_0000_0000) by {
        assert(low == (b0 as u128) * 0x100_0000_0000_0000 + (b1 as u128) * 0x1_0000_0000_0000 + (b2 as u128)
            * 0x100_0000_0000 + (b3 as u128) * 0x1_0000_0000 + (b4 as u128) * 0x100_0000 + (b5 as u128) * 0x1_0000
            + (b6 as u128) * 0x100 + (b7 as u128));
    }
    assert(((data1 as u128) << 96u128) | ((data2 as u128) << 80u128) | ((data3 as u128) << 64u128) | low
        == (data1 as u128) * 0x1_0000_0000_0000_0000_0000_0000 + (data2 as u128) * 0x1_0000_0000_0000_0000_0000
        + (data3 as u128) * 0x1_0000_0000_0000_0000 + low) by (bit_vector)
        requires
            low < 0x1_0000_0000_0000_0000,
    ;
}

/// The fields of a GUID are determined by its 128-bit value and vice versa
proof fn lemma_guid_fields(
    v: u128,
    d1: u32,
    d2: u16,
    d3: u16,
    b0: u8,
    b1: u8,
    b2: u8,
    b3: u8,
    b4: u8,
    b5: u8,
    b6: u8,
    b7: u8,
)
    ensures
        v == ((d1 as u128) << 96u128) | ((d2 as u128) << 80u128) | ((d3 as u128) << 64u128) | (((
        b0 as u128) << 56u128) | ((b1 as u128) << 48u128) | ((b2 as u128) << 40u128) | ((
        b3 as u128) << 32u128) | ((b4 as u128) << 24u128) | ((b5 as u128) << 16u128) | ((
        b6 as u128) << 8u128) | (b7 as u128)) <==> {
            &&& d1 == (v >> 96u128) as u32
            &&& d2 == ((v >> 80u128) & 0xffff) as u16
            &&& d3 == ((v >> 64u128) & 0xffff) as u16
            &&& b0 == ((v >> 56u128) & 0xff) as u8
            &&& b1 == ((v >> 48u128) & 0xff) as u8
            &&& b2 == ((v >> 40u128) & 0xff) as u8
            &&& b3 == ((v >> 32u128) & 0xff) as u8
            &&& b4 == ((v >> 24u128) & 0xff) as u8
            &&& b5 == ((v >> 16u128) & 0xff) as u8
            &&& b6 == ((v >> 8u128) & 0xff) as u8
            &&& b7 == (v & 0xff) as u8
        },
{
    assert(v == ((d1 as u128) << 96u128) | ((d2 as u128) << 80u128) | ((d3 as u128) << 64u128) | (((
    b0 as u128) << 56u128) | ((b1 as u128) << 48u128) | ((b2 as u128) << 40u128) | ((
    b3 as u128) << 32u128) | ((b4 as u128) << 24u128) | ((b5 as u128) << 16u128) | ((
    b6 as u128) << 8u128) | (b7 as u128)) <==> {
        &&& d1 == (v >> 96u128) as u32
        &&& d2 == ((v >> 80u128) & 0xffff) as u16
        &&& d3 == ((v >> 64u128) & 0xffff) as u16
        &&& b0 == ((v >> 56u128) & 0xff) as u8
        &&& b1 == ((v >> 48u128) & 0xff) as u8
        &&& b2 == ((v >> 40u128) & 0xff) as u8
        &&& b3 == ((v >> 32u128) & 0xff) as u8
        &&& b4 == ((v >> 24u128) & 0xff) as u8
        &&& b5 == ((v >> 16u128) & 0xff) as u8
        &&& b6 == ((v >> 8u128) & 0xff) as u8
        &&& b7 == (v & 0xff) as u8
    }) by (bit_vector);
}

impl GUID {
    /// Creates a GUID represented by the all-zero byte pattern
    pub fn zeroed() -> (r: Self)
        ensures
            r@ == 0,
    {
        Self::from_u128(0)
    }

    /// Creates a GUID with the given values
    pub fn from_values(data1: u32, data2: u16, data3: u16, data4: [u8; 8]) -> (r: Self)
        ensures
            r@ == guid_value(data1, data2, data3, data4@),
    {
        Self { data1, data2, data3, data4 }
    }

    /// Creates a GUID from a [`u128`] value
    pub fn from_u128(uuid: u128) -> (r: Self)
        ensures
            r@ == uuid,
    {
        let data4: [u8; 8] = [
            ((uuid >> 56) & 0xff) as u8,
            ((uuid >> 48) & 0xff) as u8,
            ((uuid >> 40) & 0xff) as u8,
            ((uuid >> 32) & 0xff) as u8,
            ((uuid >> 24) & 0xff) as u8,
            ((uuid >> 16) & 0xff) as u8,
            ((uuid >> 8) & 0xff) as u8,
            (uuid & 0xff) as u8,
        ];
        let r = Self {
            data1: (uuid >> 96) as u32,
            data2: ((uuid >> 80) & 0xffff) as u16,
            data3: ((uuid >> 64) & 0xffff) as u16,
            data4,
        };
        assert(data4[0] == ((uuid >> 56u128) & 0xff) as u8);
        assert(r.data4@[7] == (uuid & 0xff) as u8);
        proof {
            lemma_guid_fields(
                uuid,
                r.data1,
                r.data2,
                r.data3,
                data4[0],
                data4[1],
                data4[2],
                data4[3],
                data4[4],
                data4[5],
                data4[6],
                data4[7],
            );
        }
        r
    }

    /// Converts a GUID to a [`u128`] value
    pub fn to_u128(&self) -> (r: u128)
        ensures
            r == self@,
    {
        let d = self.data4;
        let low = ((d[0] as u128) << 56) | ((d[1] as u128) << 48) | ((d[2] as u128) << 40) | ((
        d[3] as u128) << 32) | ((d[4] as u128) << 24) | ((d[5] as u128) << 16) | ((d[6] as u128)
            << 8) | (d[7] as u128);
        ((self.data1 as u128) << 96) | ((self.data2 as u128) << 80) | ((self.data3 as u128) << 64)
            | low
    }

    /// Returns the first field (32 bits) of this GUID
    pub fn data1(&self) -> (r: u32)
        ensures
            r == (self@ >> 96u128) as u32,
    {
        proof {
            let d = self.data4@;
            lemma_guid_fields(
                self@,
                self.data1,
                self.data2,
                self.data3,
                d[0],
                d[1],
                d[2],
                d[3],
                d[4],
                d[5],
                d[6],
                d[7],
            );
        }
        self.data1
    }

    /// Returns the second field (16 bits) of this GUID
    pub fn data2(&self) -> (r: u16)
        ensures
            r == ((self@ >> 80u128) & 0xffff) as u16,
    {
        proof {
            let d = self.data4@;
            lemma_guid_fields(
                self@,
                self.data1,
                self.data2,
                self.data3,
                d[0],
                d[1],
                d[2],
                d[3],
                d[4],
                d[5],
                d[6],
                d[7],
            );
        }
        self.data2
    }

    /// Returns the third field (16 bits) of this GUID
    pub fn data3(&self) -> (r: u16)
        ensures
            r == ((self@ >> 64u128) & 0xffff) as u16,
    {
        proof {
            let d = self.data4@;
            lemma_guid_fields(
                self@,
                self.data1,
                self.data2,
                self.data3,
                d[0],
                d[1],
                d[2],
                d[3],
                d[4],
                d[5],
                d[6],
                d[7],
            );
        }
        self.data3
    }

    /// Returns the last eight bytes of this GUID
    pub fn data4(&self) -> (r: [u8; 8])
        ensures
            be_value(r@) == (self@ & 0xffff_ffff_ffff_ffff),
    {
        proof {
            let d = self.data4@;
            let v = self@;
            lemma_guid_fields(
                v,
                self.data1,
                self.data2,
                self.data3,
                d[0],
                d[1],
                d[2],
                d[3],
                d[4],
                d[5],
                d[6],
                d[7],
            );
            let (b0, b1, b2, b3, b4, b5, b6, b7) = (d[0], d[1], d[2], d[3], d[4], d[5], d[6], d[7]);
            assert(((b0 as u128) << 56u128) | ((b1 as u128) << 48u128) | ((b2 as u128) << 40u128) | ((
            b3 as u128) << 32u128) | ((b4 as u128) << 24u128) | ((b5 as u128) << 16u128) | ((
            b6 as u128) << 8u128) | (b7 as u128) == (v & 0xffff_ffff_ffff_ffff)) by (bit_vector)
                requires
                    b0 == ((v >> 56u128) & 0xff) as u8,
                    b1 == ((v >> 48u128) & 0xff) as u8,
                    b2 == ((v >> 40u128) & 0xff) as u8,
                    b3 == ((v >> 32u128) & 0xff) as u8,
                    b4 == ((v >> 24u128) & 0xff) as u8,
                    b5 == ((v >> 16u128) & 0xff) as u8,
                    b6 == ((v >> 8u128) & 0xff) as u8,
                    b7 == (v & 0xff) as u8,
            ;
        }
        self.data4
    }
}

/// The GUID whose fields are cut from the given 128-bit value
closed spec fn guid_from_value(value: u128) -> GUID {
    GUID {
        data1: (value >> 96u128) as u32,
        data2: ((value >> 80u128) & 0xffff) as u16,
        data3: ((value >> 64u128) & 0xffff) as u16,
        data4: [
            ((value >> 56u128) & 0xff) as u8,
            ((value >> 48u128) & 0xff) as u8,
            ((value >> 40u128) & 0xff) as u8,
            ((value >> 32u128) & 0xff) as u8,
            ((value >> 24u128) & 0xff) as u8,
            ((value >> 16u128) & 0xff) as u8,
            ((value >> 8u128) & 0xff) as u8,
            (value & 0xff) as u8,
        ],
    }
}

impl vstd::std_specs::convert::FromSpecImpl<u128> for GUID {
    open spec fn obeys_from_spec() -> bool {
        true
    }

    closed spec fn from_spec(value: u128) -> Self {
        guid_from_value(value)
    }
}

impl From<u128> for GUID {
    fn from(value: u128) -> (r: Self)
        ensures
            r@ == value,
    {
        let r = Self::from_u128(value);
        proof {
            let s = guid_from_value(value);
            let d = r.data4@;
            lemma_guid_fields(
                value,
                r.data1,
                r.data2,
                r.data3,
                d[0],
                d[1],
                d[2],
                d[3],
                d[4],
                d[5],
                d[6],
                d[7],
            );
            assert(r.data4 =~= s.data4);
        }
        r
    }
}

impl vstd::std_specs::convert::FromSpecImpl<GUID> for u128 {
    open spec fn obeys_from_spec() -> bool {
        true
    }

    open spec fn from_spec(guid: GUID) -> Self {
        guid@
    }
}

/// Converting a 128-bit value into a GUID gives the GUID with that value
pub proof fn lemma_guid_from_u128(value: u128)
    ensures
        <GUID as vstd::std_specs::convert::FromSpec<u128>>::from_spec(value)@ == value,
{
    let g = guid_from_value(value);
    let d = g.data4@;
    lemma_guid_fields(value, g.data1, g.data2, g.data3, d[0], d[1], d[2], d[3], d[4], d[5], d[6], d[7]);
}

impl From<GUID> for u128 {
    fn from(guid: GUID) -> (r: Self) {
        guid.to_u128()
    }
}

/// A GUID is the same as its 128-bit value: equal values mean equal GUIDs, and converting a value to a GUID and back
/// gives the value
pub proof fn lemma_guid_value_identifies(a: GUID, b: GUID)
    ensures
        a@ == b@ <==> a == b,
{
    let (da, db) = (a.data4@, b.data4@);
    lemma_guid_fields(a@, a.data1, a.data2, a.data3, da[0], da[1], da[2], da[3], da[4], da[5], da[6], da[7]);
    lemma_guid_fields(b@, b.data1, b.data2, b.data3, db[0], db[1], db[2], db[3], db[4], db[5], db[6], db[7]);
    if a@ == b@ {
        lemma_guid_fields(a@, b.data1, b.data2, b.data3, db[0], db[1], db[2], db[3], db[4], db[5], db[6], db[7]);
        assert(a.data4 =~= b.data4);
    }
}

/// A type id of a state: either no GUID (for an untyped state) or a GUID
#[derive(Clone, Copy, Debug, Default, PartialEq, Eq, Hash)]
pub struct TypeId(Option<GUID>);

impl View for TypeId {
    type V = Option<u128>;

    /// The value of the GUID, if any
    closed spec fn view(&self) -> Option<u128> {
        match self.0 {
            Some(guid) => Some(guid@),
            None => None,
        }
    }
}

impl TypeId {
    /// Creates a [`TypeId`] containing no GUID for use in an untyped state
    pub fn none() -> (r: Self)
        ensures
            r@ == None::<u128>,
    {
        Self(None)
    }

    /// Creates a [`TypeId`] containing the given [`GUID`]
    pub fn from_guid(guid: GUID) -> (r: Self)
        ensures
            r@ == Some(guid@),
    {
        Self(Some(guid))
    }

    /// Returns the GUID of this type id, if any
    pub fn guid(&self) -> (r: Option<GUID>)
        ensures
            r matches Some(g) ==> self@ == Some(g@),
            r is None ==> self@ == None::<u128>,
    {
        self.0
    }
}

impl vstd::std_specs::convert::FromSpecImpl<GUID> for TypeId {
    open spec fn obeys_from_spec() -> bool {
        true
    }

    closed spec fn from_spec(guid: GUID) -> Self {
        TypeId(Some(guid))
    }
}

impl From<GUID> for TypeId {
    fn from(guid: GUID) -> (r: Self)
        ensures
            r@ == Some(guid@),
    {
        Self(Some(guid))
    }
}

/// Converting a GUID into a type id gives the type id holding that GUID
pub proof fn lemma_type_id_from_guid(guid: GUID)
    ensures
        <TypeId as vstd::std_specs::convert::FromSpec<GUID>>::from_spec(guid)@ == Some(guid@),
{
}

/// Whether `c` is a hexadecimal digit, in upper or lower case
pub open spec fn is_hex_digit(c: char) -> bool {
    (48 <= (c as u32) && (c as u32) <= 57) || (65 <= (c as u32) && (c as u32) <= 70) || (97 <= (c as u32) && (c as u32)
        <= 102)
}

/// The value of a hexadecimal digit
pub open spec fn hex_digit_value(c: char) -> nat {
    if (c as u32) <= 57 {
        ((c as u32) - 48) as nat
    } else if (c as u32) <= 70 {
        ((c as u32) - 55) as nat
    } else {
        ((c as u32) - 87) as nat
    }
}

/// Reading a hexadecimal digit gives back the digit that was rendered: every digit below 16, rendered in upper or
/// lower case, is a hexadecimal digit with that value, and these are all the hexadecimal digits
pub proof fn lemma_hex_digits_read_back(d: nat, upper: bool, c: char)
    ensures
        d < 16 ==> is_hex_digit(digit_char(d, upper)) && hex_digit_value(digit_char(d, upper)) == d,
        is_hex_digit(c) ==> hex_digit_value(c) < 16 && (c == digit_char(hex_digit_value(c), true) || c
            == digit_char(hex_digit_value(c), false)),
        is_hex_digit(c) <==> ('0' <= c <= '9' || 'A' <= c <= 'F' || 'a' <= c <= 'f'),
{
    if is_hex_digit(c) {
        let v = c as u32;
        if v <= 57 {
            assert(((48 + (v - 48)) as char) == c);
        } else if v <= 70 {
            assert(((55 + (v - 55)) as char) == c);
        } else {
            assert(((87 + (v - 87)) as char) == c);
        }
    }
}

/// The number written by hexadecimal digits, most significant first
pub open spec fn hex_value(digits: Seq<char>) -> nat
    decreases digits.len(),
{
    if digits.len() == 0 {
        0
    } else {
        hex_value(digits.drop_last()) * 16 + hex_digit_value(digits.last())
    }
}

/// Whether `s` is the text form of a GUID: `XXXXXXXX-XXXX-XXXX-XXXX-XXXXXXXXXXXX` with hexadecimal digits `X`
pub open spec fn is_guid_text(s: Seq<char>) -> bool {
    &&& s.len() == 36
    &&& forall|i: int|
        0 <= i < 36 ==> if i == 8 || i == 13 || i == 18 || i == 23 {
            #[trigger] s[i] == '-'
        } else {
            is_hex_digit(s[i])
        }
}

/// The value of the two hexadecimal digits of a GUID text that start at `i`
pub open spec fn text_byte(s: Seq<char>, i: int) -> u8 {
    hex_value(s.subrange(i, i + 2)) as u8
}

/// The bytes of the fourth field of a GUID in text form
pub open spec fn text_data4(s: Seq<char>) -> Seq<u8> {
    seq![
        text_byte(s, 19),
        text_byte(s, 21),
        text_byte(s, 24),
        text_byte(s, 26),
        text_byte(s, 28),
        text_byte(s, 30),
        text_byte(s, 32),
        text_byte(s, 34),
    ]
}

/// The value of the GUID written in the given text
pub open spec fn guid_text_value(s: Seq<char>) -> u128 {
    guid_value(
        hex_value(s.subrange(0, 8)) as u32,
        hex_value(s.subrange(9, 13)) as u16,
        hex_value(s.subrange(14, 18)) as u16,
        text_data4(s),
    )
}

/// Reads the fields of a GUID from its text form
///
/// Calls `From<&str>` of `windows::core::GUID`, which asserts the text form and reads each field from its hexadecimal
/// digits, most significant first: the first eight digits give the first field, the next two groups of four the
/// second and third, and the remaining sixteen digits, two by two, the eight bytes of the fourth field. The contract
/// claims these fields and requires the text form that the assertions check.
#[verifier::external_body]
fn fields_from_text(s: &str) -> (r: (u32, u16, u16, [u8; 8]))
    requires
        is_guid_text(s@),
    ensures
        r.0 == hex_value(s@.subrange(0, 8)),
        r.1 == hex_value(s@.subrange(9, 13)),
        r.2 == hex_value(s@.subrange(14, 18)),
        r.3@ == text_data4(s@),
{
    let guid = windows::core::GUID::from(s);
    (guid.data1, guid.data2, guid.data3, guid.data4)
}

/// Returns whether `c` is a hexadecimal digit
fn hex_digit(c: char) -> (r: bool)
    ensures
        r == is_hex_digit(c),
{
    let v = c as u32;
    (48 <= v && v <= 57) || (65 <= v && v <= 70) || (97 <= v && v <= 102)
}

impl GUID {
    /// Returns whether `s` is the text form of a GUID, `XXXXXXXX-XXXX-XXXX-XXXX-XXXXXXXXXXXX` with hexadecimal
    /// digits `X`
    pub fn is_text(s: &str) -> (r: bool)
        ensures
            r == is_guid_text(s@),
    {
        if s.unicode_len() != 36 {
            return false;
        }
        let mut i: usize = 0;
        while i < 36
            invariant
                s@.len() == 36,
                i <= 36,
                forall|j: int|
                    0 <= j < i ==> if j == 8 || j == 13 || j == 18 || j == 23 {
                        #[trigger] s@[j] == '-'
                    } else {
                        is_hex_digit(s@[j])
                    },
            decreases 36 - i,
        {
            let c = s.get_char(i);
            let ok = if i == 8 || i == 13 || i == 18 || i == 23 {
                c == '-'
            } else {
                hex_digit(c)
            };
            if !ok {
                assert(!is_guid_text(s@)) by {
                    assert(s@[i as int] == c);
                }
                return false;
            }
            i += 1;
        }
        true
    }

    /// Creates the GUID written in the given text form
    pub fn from_text(s: &str) -> (r: Self)
        requires
            is_guid_text(s@),
        ensures
            r@ == guid_text_value(s@),
    {
        let (data1, data2, data3, data4) = fields_from_text(s);
        GUID { data1, data2, data3, data4 }
    }

    /// Creates the GUID written in the given text, or returns `None` if it is not the text form of a GUID
    pub fn parse(s: &str) -> (r: Option<Self>)
        ensures
            is_guid_text(s@) ==> (r matches Some(g) && g@ == guid_text_value(s@)),
            !is_guid_text(s@) ==> r is None,
    {
        if Self::is_text(s) {
            Some(Self::from_text(s))
        } else {
            None
        }
    }
}

} // verus!
