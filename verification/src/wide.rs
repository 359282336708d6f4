//! UTF-16 text, as the Windows API takes it and hands it back.
use vstd::prelude::*;

use crate::text::{chars_of, code_point};

verus! {

/// A UTF-16 unit that is the first half of a surrogate pair.
pub open spec fn is_high(unit: u16) -> bool {
    0xD800 <= unit < 0xDC00
}

/// A UTF-16 unit that is the second half of a surrogate pair.
pub open spec fn is_low(unit: u16) -> bool {
    0xDC00 <= unit < 0xE000
}

/// The UTF-16 units of one character.
pub open spec fn char_units(c: char) -> Seq<u16> {
    let n = c as int;
    if n < 0x10000 {
        seq![n as u16]
    } else {
        seq![
            (0xD800 + (n - 0x10000) / 0x400) as u16,
            (0xDC00 + (n - 0x10000) % 0x400) as u16,
        ]
    }
}

/// The UTF-16 units of a text.
pub open spec fn units_of(s: Seq<char>) -> Seq<u16>
    decreases s.len(),
{
    if s.len() == 0 {
        seq![]
    } else {
        char_units(s[0]) + units_of(s.drop_first())
    }
}

/// The character of a surrogate pair.
pub open spec fn pair_char(high: u16, low: u16) -> char {
    (0x10000 + (high - 0xD800) * 0x400 + (low - 0xDC00)) as char
}

/// The text that UTF-16 units write. A surrogate without its partner reads as
/// the replacement character, U+FFFD.
pub open spec fn decoded(units: Seq<u16>) -> Seq<char>
    decreases units.len(),
{
    if units.len() == 0 {
        seq![]
    } else if !is_high(units[0]) && !is_low(units[0]) {
        seq![units[0] as char] + decoded(units.drop_first())
    } else if is_high(units[0]) && units.len() > 1 && is_low(units[1]) {
        seq![pair_char(units[0], units[1])] + decoded(units.skip(2))
    } else {
        seq!['\u{FFFD}'] + decoded(units.drop_first())
    }
}

/// Units as bytes, the low byte of each first.
pub open spec fn unit_bytes(units: Seq<u16>) -> Seq<u8> {
    Seq::new(
        2 * units.len(),
        |i: int|
            if i % 2 == 0 {
                (units[i / 2] % 256) as u8
            } else {
                (units[i / 2] / 256) as u8
            },
    )
}

/// Bytes as units, the low byte of each first. An odd byte at the end is
/// dropped.
pub open spec fn byte_units(bytes: Seq<u8>) -> Seq<u16> {
    Seq::new(
        bytes.len() / 2,
        |i: int| (bytes[2 * i] as int + 256 * bytes[2 * i + 1] as int) as u16,
    )
}

/// `String::from_utf16_lossy` of the standard library: it reads UTF-16 and puts
/// U+FFFD for every surrogate that has no partner.
pub assume_specification[ String::from_utf16_lossy ](v: &[u16]) -> (s: String)
    ensures
        s@ == decoded(v@),
;

/// A string as UTF-16, with the zero unit behind it that ends it.
pub fn wide_str(value: &str) -> (wide: Vec<u16>)
    ensures
        wide@ == units_of(value@).push(0),
{
    let chars: Vec<char> = chars_of(value);
    let mut wide: Vec<u16> = Vec::new();
    let mut i: usize = 0;
    assert(value@.skip(0) == value@);
    assert(wide@ + units_of(value@) == units_of(value@));
    while i < chars.len()
        invariant
            chars@ == value@,
            i <= chars.len(),
            wide@ + units_of(value@.skip(i as int)) == units_of(value@),
        decreases chars.len() - i,
    {
        let ghost before = wide@;
        let ghost rest = value@.skip(i as int);
        let n: u32 = code_point(chars[i]);
        if n < 0x10000 {
            wide.push(n as u16);
        } else {
            wide.push((0xD800 + (n - 0x10000) / 0x400) as u16);
            wide.push((0xDC00 + (n - 0x10000) % 0x400) as u16);
        }
        assert(rest.drop_first() == value@.skip(i + 1));
        assert(rest[0] == chars@[i as int]);
        assert(wide@ == before + char_units(rest[0]));
        assert(before + (char_units(rest[0]) + units_of(value@.skip(i + 1))) == wide@ + units_of(
            value@.skip(i + 1),
        ));
        i += 1;
    }
    wide.push(0);
    wide
}

/// The bytes of UTF-16 units, the low byte of each first.
pub fn to_le_bytes(units: &[u16]) -> (bytes: Vec<u8>)
    requires
        2 * units.len() <= usize::MAX,
    ensures
        bytes@ == unit_bytes(units@),
{
    let mut bytes: Vec<u8> = Vec::new();
    let mut i: usize = 0;
    while i < units.len()
        invariant
            i <= units.len(),
            2 * units.len() <= usize::MAX,
            bytes@ == unit_bytes(units@.take(i as int)),
        decreases units.len() - i,
    {
        let unit: u16 = units[i];
        bytes.push((unit % 256) as u8);
        bytes.push((unit / 256) as u8);
        i += 1;
    }
    assert(units@.take(i as int) == units@);
    bytes
}

/// The UTF-16 units in a run of bytes, the low byte of each first.
pub fn from_le_bytes(bytes: &[u8]) -> (units: Vec<u16>)
    ensures
        units@ == byte_units(bytes@),
{
    let count: usize = bytes.len() / 2;
    let mut units: Vec<u16> = Vec::new();
    let mut i: usize = 0;
    while i < count
        invariant
            count == bytes.len() / 2,
            i <= count,
            units@.len() == i,
            forall|j: int| 0 <= j < i ==> units@[j] == byte_units(bytes@)[j],
        decreases count - i,
    {
        let low: u16 = bytes[2 * i] as u16;
        let high: u16 = bytes[2 * i + 1] as u16;
        units.push(low + 256 * high);
        i += 1;
    }
    units
}

/// A character is a Unicode scalar value.
proof fn lemma_char_range(c: char)
    ensures
        0 <= c as int <= 0x10FFFF,
        !(0xD800 <= c as int <= 0xDFFF),
{
}

/// Reading back what `wide_str` wrote, without its final zero, gives the text
/// itself.
pub proof fn wide_text_reads_back(s: Seq<char>)
    ensures
        decoded(units_of(s)) == s,
    decreases s.len(),
{
    if s.len() > 0 {
        let rest = s.drop_first();
        let units = units_of(s);
        wide_text_reads_back(rest);
        let n = s[0] as int;
        lemma_char_range(s[0]);
        if n < 0x10000 {
            assert(units.drop_first() == units_of(rest));
            assert(units[0] == n);
            assert(units[0] as char == s[0]);
        } else {
            assert(units.skip(2) == units_of(rest));
            assert(units[0] == 0xD800 + (n - 0x10000) / 0x400);
            assert(units[1] == 0xDC00 + (n - 0x10000) % 0x400);
            assert(pair_char(units[0], units[1]) == s[0]);
        }
        assert(decoded(units) == seq![s[0]] + rest);
        assert(seq![s[0]] + rest == s);
    }
}

/// Text without a zero character has no zero unit, so that the zero behind it in
/// what `wide_str` writes is the only one.
pub proof fn only_the_end_is_zero(s: Seq<char>)
    requires
        forall|i: int| 0 <= i < s.len() ==> s[i] != '\0',
    ensures
        forall|i: int| 0 <= i < units_of(s).len() ==> #[trigger] units_of(s)[i] != 0,
    decreases s.len(),
{
    if s.len() > 0 {
        let rest = s.drop_first();
        let head = char_units(s[0]);
        let units = units_of(s);
        only_the_end_is_zero(rest);
        lemma_char_range(s[0]);
        assert(s[0] != '\0');
        assert forall|i: int| 0 <= i < units.len() implies #[trigger] units[i] != 0 by {
            if i < head.len() {
                assert(units[i] == head[i]);
            } else {
                assert(units[i] == units_of(rest)[i - head.len()]);
            }
        }
    }
}

/// Units that were written as bytes read back as they were.
pub proof fn unit_bytes_read_back(units: Seq<u16>)
    ensures
        byte_units(unit_bytes(units)) == units,
{
    let bytes = unit_bytes(units);
    assert forall|i: int| 0 <= i < units.len() implies byte_units(bytes)[i] == units[i] by {
        assert((2 * i) / 2 == i && (2 * i + 1) / 2 == i);
        assert(bytes[2 * i] == units[i] % 256);
        assert(bytes[2 * i + 1] == units[i] / 256);
    }
}

/// A zero behind UTF-16 text reads as one more character, the zero character,
/// whatever stands before it.
pub proof fn lemma_decoded_with_zero(units: Seq<u16>)
    ensures
        decoded(units.push(0)) == decoded(units).push('\0'),
    decreases units.len(),
{
    let longer = units.push(0);
    if units.len() == 0 {
        reveal_with_fuel(decoded, 2);
        assert(longer.drop_first() == Seq::<u16>::empty());
        assert(decoded(longer) == seq!['\0']);
    } else if is_high(units[0]) && units.len() > 1 && is_low(units[1]) {
        lemma_decoded_with_zero(units.skip(2));
        assert(longer.skip(2) == units.skip(2).push(0));
        let head = seq![pair_char(units[0], units[1])];
        assert(head + decoded(units.skip(2)).push('\0') == (head + decoded(units.skip(2))).push('\0'));
    } else {
        lemma_decoded_with_zero(units.drop_first());
        assert(longer.drop_first() == units.drop_first().push(0));
        let head = if !is_high(units[0]) && !is_low(units[0]) {
            seq![units[0] as char]
        } else {
            seq!['\u{FFFD}']
        };
        let rest = decoded(units.drop_first());
        assert(decoded(units) == head + rest);
        assert(decoded(longer) == head + rest.push('\0'));
        assert(head + rest.push('\0') == (head + rest).push('\0'));
    }
}

/// The last character of decoded text is the zero character only where the last
/// unit is zero.
pub proof fn lemma_decoded_last(units: Seq<u16>)
    requires
        units.len() > 0,
        units.last() != 0,
    ensures
        decoded(units).len() > 0,
        decoded(units).last() != '\0',
    decreases units.len(),
{
    if is_high(units[0]) && units.len() > 1 && is_low(units[1]) {
        let rest = units.skip(2);
        assert(pair_char(units[0], units[1]) != '\0');
        if rest.len() > 0 {
            assert(rest.last() == units.last());
            lemma_decoded_last(rest);
            assert(decoded(units).last() == decoded(rest).last());
        } else {
            assert(decoded(rest) == Seq::<char>::empty());
            assert(decoded(units).last() == pair_char(units[0], units[1]));
        }
    } else {
        let rest = units.drop_first();
        if rest.len() > 0 {
            assert(rest.last() == units.last());
            lemma_decoded_last(rest);
            assert(decoded(units).last() == decoded(rest).last());
        } else {
            assert(units.last() == units[0]);
            assert(decoded(rest) == Seq::<char>::empty());
            if !is_high(units[0]) && !is_low(units[0]) {
                assert(decoded(units).last() == units[0] as char);
            } else {
                assert(decoded(units).last() == '\u{FFFD}');
            }
        }
    }
}

/// A unit is its two bytes, the low one first.
pub proof fn low_bytes_come_first(units: Seq<u16>, i: int)
    requires
        0 <= i < units.len(),
    ensures
        unit_bytes(units).len() == 2 * units.len(),
        unit_bytes(units)[2 * i] + 256 * unit_bytes(units)[2 * i + 1] == units[i],
{
    assert((2 * i) / 2 == i && (2 * i + 1) / 2 == i);
    assert((2 * i) % 2 == 0 && (2 * i + 1) % 2 == 1);
}

} // verus!
