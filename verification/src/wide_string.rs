//! Null-terminated UTF-16 strings, as passed to the Windows API

use vstd::prelude::*;

verus! {

/// The UTF-16 code units of a character
pub open spec fn char_utf16(c: char) -> Seq<u16> {
    let v = c as u32;
    if v < 0x10000 {
        seq![v as u16]
    } else {
        seq![(0xD800 + (v - 0x10000) / 0x400) as u16, (0xDC00 + (v - 0x10000) % 0x400) as u16]
    }
}

/// The UTF-16 code units of a sequence of characters
pub open spec fn utf16(s: Seq<char>) -> Seq<u16>
    decreases s.len(),
{
    if s.len() == 0 {
        Seq::empty()
    } else {
        utf16(s.drop_last()) + char_utf16(s.last())
    }
}

/// A null-terminated string of UTF-16 code units
#[derive(Clone, Debug, PartialEq, Eq)]
pub struct CWideString(Vec<u16>);

impl View for CWideString {
    type V = Seq<u16>;

    /// The code units, including the terminating null
    closed spec fn view(&self) -> Seq<u16> {
        self.0@
    }
}

impl CWideString {
    /// Encodes a string as UTF-16 followed by a null code unit
    pub fn new(s: &str) -> (r: Self)
        ensures
            r@ == utf16(s@).push(0u16),
    {
        let len = s.unicode_len();
        let mut units: Vec<u16> = Vec::new();
        let mut i: usize = 0;
        while i < len
            invariant
                len == s@.len(),
                i <= len,
                units@ == utf16(s@.take(i as int)),
            decreases len - i,
        {
            let c = s.get_char(i);
            let v = c as u32;
            if v < 0x10000 {
                units.push(v as u16);
            } else {
                let w = v - 0x10000;
                units.push((0xD800 + w / 0x400) as u16);
                units.push((0xDC00 + w % 0x400) as u16);
            }
            assert(s@.take(i + 1).drop_last() =~= s@.take(i as int));
            assert(s@.take(i + 1).last() == c);
            assert(units@ =~= utf16(s@.take(i + 1)));
            i += 1;
        }
        assert(s@.take(len as int) =~= s@);
        units.push(0);
        CWideString(units)
    }

    /// Returns the code units, including the terminating null
    pub fn as_slice(&self) -> (r: &[u16])
        ensures
            r@ == self@,
    {
        self.0.as_slice()
    }
}

/// The code units of a character decode back to it: a character below `0x10000` is one unit holding its code (which
/// is no surrogate), any other is a high surrogate `0xD800..0xDC00` followed by a low surrogate `0xDC00..0xE000`, whose
/// low ten bits give the code less `0x10000`
pub proof fn lemma_char_utf16_decodes(c: char)
    ensures
        (c as u32) < 0x10000 ==> char_utf16(c).len() == 1 && char_utf16(c)[0] as u32 == (c as u32) && !(0xD800
            <= (c as u32) && (c as u32) < 0xE000),
        (c as u32) >= 0x10000 ==> {
            let u = char_utf16(c);
            &&& u.len() == 2
            &&& 0xD800 <= u[0] && u[0] < 0xDC00
            &&& 0xDC00 <= u[1] && u[1] < 0xE000
            &&& 0x10000 + (u[0] - 0xD800) * 0x400 + (u[1] - 0xDC00) == (c as u32)
        },
{
    let v = c as u32;
    vstd::utf8::char_u32_cast(c, v);
    vstd::utf8::char_is_scalar(c);
    if v >= 0x10000 {
        let w = v - 0x10000;
        assert(0 <= w / 0x400 < 0x400 && 0 <= w % 0x400 < 0x400 && (w / 0x400) * 0x400 + w % 0x400 == w);
    }
}

/// A string without null characters encodes to code units without null units, so the terminating null of a
/// [`CWideString`] is its first null unit
pub proof fn lemma_utf16_has_no_null(s: Seq<char>)
    requires
        forall|i: int| 0 <= i < s.len() ==> #[trigger] s[i] != '\0',
    ensures
        forall|j: int| 0 <= j < utf16(s).len() ==> #[trigger] utf16(s)[j] != 0,
    decreases s.len(),
{
    if s.len() > 0 {
        let init = s.drop_last();
        let c = s.last();
        assert forall|i: int| 0 <= i < init.len() implies #[trigger] init[i] != '\0' by {
            assert(init[i] == s[i]);
        }
        lemma_utf16_has_no_null(init);
        assert(c != '\0') by {
            assert(s[s.len() - 1] == c);
        }
        let v = c as u32;
        vstd::utf8::char_u32_cast(c, v);
        vstd::utf8::char_is_scalar(c);
        assert(v != 0) by {
            if v == 0 {
                assert((0u32 as char) == '\0');
            }
        }
        assert forall|j: int| 0 <= j < char_utf16(c).len() implies #[trigger] char_utf16(c)[j] != 0 by {
            if v < 0x10000 {
                assert(char_utf16(c)[j] == v as u16);
            } else {
                assert(v <= 0x10FFFF);
                assert(0xD800 + (v - 0x10000) / 0x400 < 0x10000);
                assert(0xDC00 + (v - 0x10000) % 0x400 < 0x10000);
            }
        }
        assert forall|j: int| 0 <= j < utf16(s).len() implies #[trigger] utf16(s)[j] != 0 by {
            if j < utf16(init).len() {
                assert(utf16(s)[j] == utf16(init)[j]);
            } else {
                assert(utf16(s)[j] == char_utf16(c)[j - utf16(init).len()]);
            }
        }
    }
}

} // verus!
