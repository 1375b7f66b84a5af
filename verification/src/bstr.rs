//! Length-prefixed UTF-16 strings as the automation runtime lays them out.
//!
//! A buffer starts with a four-byte little-endian count of the bytes that
//! follow, and then holds the UTF-16 code units, low byte first. The handle the
//! runtime passes around points at the first code unit; the count sits in the
//! four bytes before it.

use vstd::pervasive::unreached;
use vstd::prelude::*;

verus! {

/// Bytes taken by the length prefix.
pub const PREFIX_LEN: usize = 4usize;

/// The most code units a string can hold, so that its byte count fits the
/// prefix.
pub const MAX_UNITS: usize = 0x7fff_ffffusize;

/// The byte count that the first four bytes of `buffer` spell.
pub open spec fn prefix_of(buffer: Seq<u8>) -> int
    recommends
        buffer.len() >= 4,
{
    buffer[0] as int + 256 * (buffer[1] as int) + 65536 * (buffer[2] as int) + 16777216 * (
    buffer[3] as int)
}

/// A buffer is well formed when it holds a prefix, the prefix is even, and
/// exactly that many bytes follow it.
pub open spec fn well_formed(buffer: Seq<u8>) -> bool {
    &&& buffer.len() >= 4
    &&& prefix_of(buffer) % 2 == 0
    &&& buffer.len() == 4 + prefix_of(buffer)
}

/// Whether a string can be read at `handle` in `memory`: the handle is not
/// null and has the four bytes of a prefix before it, the prefix is even,
/// and that many bytes follow the handle within the memory.
pub open spec fn handle_readable(memory: Seq<u8>, handle: int) -> bool {
    &&& 4 <= handle <= memory.len()
    &&& prefix_of(memory.subrange(handle - 4, handle)) % 2 == 0
    &&& handle + prefix_of(memory.subrange(handle - 4, handle)) <= memory.len()
}

/// The buffer of the string at `handle` in `memory`: from the prefix before
/// the handle to the last byte that the prefix counts.
pub open spec fn string_at(memory: Seq<u8>, handle: int) -> Seq<u8> {
    memory.subrange(handle - 4, handle + prefix_of(memory.subrange(handle - 4, handle)))
}

/// The code unit at position `i` of the string that `buffer` holds.
pub open spec fn unit_at(buffer: Seq<u8>, i: int) -> u16 {
    (buffer[4 + 2 * i] as int + 256 * (buffer[4 + 2 * i + 1] as int)) as u16
}

/// The code units that a well-formed buffer holds.
pub open spec fn decode_units(buffer: Seq<u8>) -> Seq<u16> {
    Seq::new(((buffer.len() - 4) / 2) as nat, |i: int| unit_at(buffer, i))
}

/// Byte `i` of the buffer that holds `units`.
pub open spec fn encoded_byte(units: Seq<u16>, i: int) -> u8 {
    let n = 2 * units.len();
    if i == 0 {
        (n % 256) as u8
    } else if i == 1 {
        (n / 256 % 256) as u8
    } else if i == 2 {
        (n / 65536 % 256) as u8
    } else if i == 3 {
        (n / 16777216 % 256) as u8
    } else if (i - 4) % 2 == 0 {
        (units[(i - 4) / 2] % 256) as u8
    } else {
        (units[(i - 4) / 2] / 256) as u8
    }
}

/// The buffer that holds `units`: the prefix, then each unit, low byte first.
pub open spec fn encode_units(units: Seq<u16>) -> Seq<u8> {
    Seq::new((4 + 2 * units.len()) as nat, |i: int| encoded_byte(units, i))
}

/// Encoding gives a well-formed buffer whose prefix is the byte count and
/// which decodes to the same code units.
pub proof fn lemma_encode_decode(units: Seq<u16>)
    requires
        units.len() <= MAX_UNITS,
    ensures
        well_formed(encode_units(units)),
        prefix_of(encode_units(units)) == 2 * units.len(),
        decode_units(encode_units(units)) == units,
{
    let buffer = encode_units(units);
    let n = 2 * units.len();
    assert(buffer[0] == (n % 256) as u8);
    assert(buffer[1] == (n / 256 % 256) as u8);
    assert(buffer[2] == (n / 65536 % 256) as u8);
    assert(buffer[3] == (n / 16777216 % 256) as u8);
    assert(prefix_of(buffer) == n);
    assert forall|i: int| 0 <= i < units.len() implies unit_at(buffer, i) == units[i] by {
        assert(buffer[4 + 2 * i] == encoded_byte(units, 4 + 2 * i));
        assert(buffer[4 + 2 * i + 1] == encoded_byte(units, 4 + 2 * i + 1));
        assert((4 + 2 * i - 4) / 2 == i);
        assert((4 + 2 * i + 1 - 4) / 2 == i);
    }
    assert(decode_units(buffer) =~= units);
}

/// The two bytes of a code unit, low byte first, spell that unit and no other.
proof fn lemma_unit_bytes(low: u8, high: u8)
    ensures
        (low as int + 256 * (high as int)) % 256 == low,
        (low as int + 256 * (high as int)) / 256 == high,
        0 <= low as int + 256 * (high as int) <= 0xffff,
{
}

/// The four bytes of a prefix spell one byte count and no other.
proof fn lemma_prefix_bytes(b0: u8, b1: u8, b2: u8, b3: u8)
    ensures
        ({
            let n = b0 as int + 256 * (b1 as int) + 65536 * (b2 as int) + 16777216 * (b3 as int);
            &&& n % 256 == b0
            &&& n / 256 % 256 == b1
            &&& n / 65536 % 256 == b2
            &&& n / 16777216 % 256 == b3
        }),
{
}

/// A well-formed buffer is the encoding of the units it decodes to: no two
/// strings share a buffer and no buffer holds more than its units.
pub proof fn lemma_decode_encode(buffer: Seq<u8>)
    requires
        well_formed(buffer),
    ensures
        encode_units(decode_units(buffer)) == buffer,
{
    let units = decode_units(buffer);
    let back = encode_units(units);
    assert(2 * units.len() == buffer.len() - 4);
    assert(2 * units.len() == prefix_of(buffer));
    lemma_prefix_bytes(buffer[0], buffer[1], buffer[2], buffer[3]);
    assert forall|i: int| 0 <= i < buffer.len() implies back[i] == buffer[i] by {
        assert(back[i] == encoded_byte(units, i));
        if i >= 4 {
            let k = (i - 4) / 2;
            assert(0 <= k < units.len());
            assert(units[k] == unit_at(buffer, k));
            lemma_unit_bytes(buffer[4 + 2 * k], buffer[4 + 2 * k + 1]);
            if (i - 4) % 2 == 0 {
                assert(i == 4 + 2 * k);
            } else {
                assert(i == 4 + 2 * k + 1);
            }
        }
    }
    assert(back =~= buffer);
}

/// The UTF-16 code units of one character: the character itself below
/// `0x10000`, and above it a high and a low surrogate that carry the upper
/// and the lower ten bits of what is above.
pub open spec fn units_of_char(c: char) -> Seq<u16> {
    let code = c as int;
    if code < 0x10000 {
        seq![code as u16]
    } else {
        seq![(0xD800 + (code - 0x10000) / 0x400) as u16, (0xDC00 + (code - 0x10000) % 0x400) as u16]
    }
}

/// The UTF-16 code units of a text: those of its characters, in order.
pub open spec fn utf16_of(text: Seq<char>) -> Seq<u16>
    decreases text.len(),
{
    if text.len() == 0 {
        Seq::empty()
    } else {
        utf16_of(text.drop_last()) + units_of_char(text.last())
    }
}

/// A text takes at least one code unit for each character and at most two.
pub proof fn lemma_utf16_len(text: Seq<char>)
    ensures
        text.len() <= utf16_of(text).len() <= 2 * text.len(),
    decreases text.len(),
{
    if text.len() > 0 {
        lemma_utf16_len(text.drop_last());
    }
}

/// Encodes a text as UTF-16.
pub fn encode_utf16(text: &str) -> (units: Vec<u16>)
    ensures
        units@ == utf16_of(text@),
{
    let n: usize = text.unicode_len();
    let mut units: Vec<u16> = Vec::new();
    let mut i: usize = 0;
    while i < n
        invariant
            n == text@.len(),
            i <= n,
            units@ == utf16_of(text@.take(i as int)),
        decreases n - i,
    {
        let c: char = text.get_char(i);
        let code: u32 = c as u32;
        proof {
            assert(text@.take(i + 1).drop_last() =~= text@.take(i as int));
            assert(text@.take(i + 1).last() == c);
        }
        if code < 0x10000 {
            units.push(code as u16);
            proof {
                assert(units@ =~= utf16_of(text@.take(i as int)) + seq![code as u16]);
            }
        } else {
            let above: u32 = code - 0x10000;
            let high: u16 = (0xD800 + above / 0x400) as u16;
            let low: u16 = (0xDC00 + above % 0x400) as u16;
            units.push(high);
            units.push(low);
            proof {
                assert(units@ =~= utf16_of(text@.take(i as int)) + seq![high, low]);
            }
        }
        i = i + 1;
    }
    proof {
        assert(text@.take(n as int) =~= text@);
    }
    units
}

/// `char::from_u32` gives the character with a code point, and `None` for a
/// number that is no code point of a character: a surrogate or a number above
/// `0x10FFFF`.
pub assume_specification[ char::from_u32 ](i: u32) -> (r: Option<char>)
    ensures
        r is Some <==> is_scalar_value(i),
        r is Some ==> r->Some_0 as u32 == i,
;

/// Whether a number is the code point of a character.
pub open spec fn is_scalar_value(i: u32) -> bool {
    i <= 0xD7FF || (0xE000 <= i && i <= 0x10FFFF)
}

/// Whether a code unit is the first half of a surrogate pair.
pub open spec fn is_high_surrogate(unit: u16) -> bool {
    0xD800 <= unit && unit <= 0xDBFF
}

/// Whether a code unit is the second half of a surrogate pair.
pub open spec fn is_low_surrogate(unit: u16) -> bool {
    0xDC00 <= unit && unit <= 0xDFFF
}

/// The code point that a surrogate pair stands for.
pub open spec fn pair_code(high: u16, low: u16) -> int {
    0x10000 + (high - 0xD800) * 0x400 + (low - 0xDC00)
}

/// The character that stands in for a surrogate without its other half.
pub const REPLACEMENT_CHARACTER: char = '\u{FFFD}';

/// The text that code units spell, read from the front: a surrogate pair is
/// one character, a surrogate without its other half is the replacement
/// character, and every other unit is the character of its number.
pub open spec fn chars_of(units: Seq<u16>) -> Seq<char>
    decreases units.len(),
{
    if units.len() == 0 {
        Seq::empty()
    } else if is_high_surrogate(units[0]) && units.len() >= 2 && is_low_surrogate(units[1]) {
        seq![pair_code(units[0], units[1]) as char] + chars_of(units.skip(2))
    } else if is_high_surrogate(units[0]) || is_low_surrogate(units[0]) {
        seq![REPLACEMENT_CHARACTER] + chars_of(units.skip(1))
    } else {
        seq![units[0] as char] + chars_of(units.skip(1))
    }
}

/// The code point of a character is a scalar value, and the character is the
/// one character with that code point.
proof fn lemma_char_range(c: char)
    ensures
        is_scalar_value(c as u32),
        c as int == c as u32,
        (c as u32) as char == c,
        (c as int) as char == c,
{
}

/// The character with a code point is the only one with it.
proof fn lemma_char_of_code(c: char, code: u32)
    requires
        c as u32 == code,
    ensures
        c == code as char,
        c == (code as int) as char,
{
    lemma_char_range(c);
}

/// The code units of a text that starts with `c` are the units of `c`, then
/// those of the rest.
pub proof fn lemma_utf16_front(c: char, rest: Seq<char>)
    ensures
        utf16_of(seq![c] + rest) == units_of_char(c) + utf16_of(rest),
    decreases rest.len(),
{
    let text = seq![c] + rest;
    if rest.len() == 0 {
        assert(text.drop_last() =~= Seq::<char>::empty());
        assert(utf16_of(text.drop_last()) =~= Seq::<u16>::empty());
        assert(utf16_of(text) =~= units_of_char(c));
        assert(utf16_of(rest) =~= Seq::<u16>::empty());
        assert(units_of_char(c) + utf16_of(rest) =~= units_of_char(c));
    } else {
        lemma_utf16_front(c, rest.drop_last());
        assert(text.drop_last() =~= seq![c] + rest.drop_last());
        assert(text.last() == rest.last());
        assert(utf16_of(text) =~= units_of_char(c) + (utf16_of(rest.drop_last()) + units_of_char(
            rest.last(),
        )));
    }
}

/// Reading the code units of a text gives the text again: no character is
/// lost or replaced.
pub proof fn lemma_text_round_trip(text: Seq<char>)
    ensures
        chars_of(utf16_of(text)) == text,
    decreases text.len(),
{
    if text.len() == 0 {
        assert(chars_of(utf16_of(text)) =~= text);
    } else {
        let c = text[0];
        let rest = text.skip(1);
        assert(text =~= seq![c] + rest);
        lemma_utf16_front(c, rest);
        lemma_text_round_trip(rest);
        let units = utf16_of(text);
        let code = c as int;
        lemma_char_range(c);
        if code < 0x10000 {
            assert(units_of_char(c).len() == 1);
            assert(units[0] == units_of_char(c)[0]);
            assert(units.skip(1) =~= utf16_of(rest));
            assert(units[0] as char == c);
            assert(chars_of(units) =~= seq![c] + rest);
        } else {
            assert(units_of_char(c).len() == 2);
            assert(units[0] == units_of_char(c)[0]);
            assert(units[1] == units_of_char(c)[1]);
            assert(units.skip(2) =~= utf16_of(rest));
            assert(pair_code(units[0], units[1]) == code);
            assert(chars_of(units) =~= seq![c] + rest);
        }
    }
}

/// Reads code units as text. A surrogate without its other half becomes the
/// replacement character.
pub fn decode_utf16_lossy(units: &[u16]) -> (text: Vec<char>)
    ensures
        text@ == chars_of(units@),
{
    let n: usize = units.len();
    let mut text: Vec<char> = Vec::new();
    let mut i: usize = 0;
    proof {
        assert(units@.skip(0) =~= units@);
        assert(text@ + chars_of(units@) =~= chars_of(units@));
    }
    while i < n
        invariant
            n == units@.len(),
            i <= n,
            text@ + chars_of(units@.skip(i as int)) == chars_of(units@),
        decreases n - i,
    {
        let ghost rest = units@.skip(i as int);
        let ghost before = text@;
        let unit: u16 = units[i];
        proof {
            assert(rest[0] == unit);
        }
        if 0xD800 <= unit && unit <= 0xDBFF && i + 1 < n && 0xDC00 <= units[i + 1] && units[i + 1]
            <= 0xDFFF {
            let low: u16 = units[i + 1];
            let code: u32 = 0x10000 + (unit as u32 - 0xD800) * 0x400 + (low as u32 - 0xDC00);
            proof {
                assert(rest[1] == low);
                assert(rest.skip(2) =~= units@.skip(i + 2));
            }
            match char::from_u32(code) {
                Some(c) => {
                    text.push(c);
                    proof {
                        lemma_char_of_code(c, code);
                        assert(code == pair_code(unit, low));
                        assert(c == pair_code(unit, low) as char);
                        assert(text@ + chars_of(units@.skip(i + 2)) =~= before + chars_of(rest));
                    }
                },
                None => unreached(),
            }
            i = i + 2;
        } else if 0xD800 <= unit && unit <= 0xDFFF {
            text.push(REPLACEMENT_CHARACTER);
            proof {
                assert(rest.skip(1) =~= units@.skip(i + 1));
                assert(text@ + chars_of(units@.skip(i + 1)) =~= before + chars_of(rest));
            }
            i = i + 1;
        } else {
            match char::from_u32(unit as u32) {
                Some(c) => {
                    text.push(c);
                    proof {
                        lemma_char_of_code(c, unit as u32);
                        assert(c == unit as char);
                        assert(rest.skip(1) =~= units@.skip(i + 1));
                        assert(text@ + chars_of(units@.skip(i + 1)) =~= before + chars_of(rest));
                    }
                },
                None => unreached(),
            }
            i = i + 1;
        }
    }
    proof {
        assert(units@.skip(n as int) =~= Seq::<u16>::empty());
        assert(text@ =~= text@ + chars_of(units@.skip(n as int)));
    }
    text
}

/// An owned string in the runtime's layout.
#[derive(Debug)]
pub struct BStr {
    buffer: Vec<u8>,
}

impl BStr {
    #[verifier::type_invariant]
    spec fn inv(self) -> bool {
        well_formed(self.buffer@)
    }

    /// The buffer, prefix included.
    pub closed spec fn bytes(self) -> Seq<u8> {
        self.buffer@
    }

    /// Builds the string that holds `units`.
    pub fn new(units: &[u16]) -> (s: BStr)
        requires
            units@.len() <= MAX_UNITS,
        ensures
            s@ == units@,
            s.bytes() == encode_units(units@),
    {
        let n: usize = units.len();
        let byte_len: u32 = (2 * n) as u32;
        let mut buffer: Vec<u8> = Vec::new();
        buffer.push((byte_len % 256) as u8);
        buffer.push((byte_len / 256 % 256) as u8);
        buffer.push((byte_len / 65536 % 256) as u8);
        buffer.push((byte_len / 16777216 % 256) as u8);
        let mut i: usize = 0;
        while i < n
            invariant
                n == units@.len(),
                n <= MAX_UNITS,
                i <= n,
                buffer@.len() == 4 + 2 * i,
                forall|j: int| 0 <= j < buffer@.len() ==> buffer@[j] == encoded_byte(units@, j),
            decreases n - i,
        {
            let unit: u16 = units[i];
            buffer.push((unit % 256) as u8);
            buffer.push((unit / 256) as u8);
            proof {
                assert((4 + 2 * i - 4) / 2 == i);
                assert((4 + 2 * i + 1 - 4) / 2 == i);
            }
            i = i + 1;
        }
        proof {
            assert(buffer@ =~= encode_units(units@));
            lemma_encode_decode(units@);
        }
        BStr { buffer }
    }

    /// Builds the string that holds `text`, encoded as UTF-16.
    pub fn from_text(text: &str) -> (s: BStr)
        requires
            utf16_of(text@).len() <= MAX_UNITS,
        ensures
            s@ == utf16_of(text@),
            s.bytes() == encode_units(utf16_of(text@)),
    {
        let units: Vec<u16> = encode_utf16(text);
        BStr::new(units.as_slice())
    }

    /// Takes over a buffer in the runtime's layout. A buffer without a whole
    /// prefix, with an odd byte count, or with a count that is not the number
    /// of bytes behind the prefix is refused.
    pub fn from_buffer(buffer: Vec<u8>) -> (r: Option<BStr>)
        ensures
            r is Some <==> well_formed(buffer@),
            r is Some ==> r->Some_0.bytes() == buffer@,
    {
        if buffer.len() < PREFIX_LEN {
            return None;
        }
        let prefix: u32 = read_prefix(&buffer);
        if prefix % 2 != 0 {
            return None;
        }
        if (buffer.len() - PREFIX_LEN) as u64 != prefix as u64 {
            return None;
        }
        Some(BStr { buffer })
    }

    /// Copies the string that `handle` points at out of `memory`. The handle
    /// is the position of the first code unit; the prefix is read from the
    /// four bytes before it. A null handle, a handle without four bytes
    /// before it, an odd byte count and a string that runs past the end of
    /// the memory are refused.
    pub fn from_handle(memory: &[u8], handle: usize) -> (r: Option<BStr>)
        ensures
            r is Some <==> handle_readable(memory@, handle as int),
            r is Some ==> r->Some_0.bytes() == string_at(memory@, handle as int),
    {
        if handle < PREFIX_LEN || handle > memory.len() {
            return None;
        }
        let start: usize = handle - PREFIX_LEN;
        let b0: u32 = memory[start] as u32;
        let b1: u32 = memory[start + 1] as u32;
        let b2: u32 = memory[start + 2] as u32;
        let b3: u32 = memory[start + 3] as u32;
        let prefix: u32 = b0 + 256 * b1 + 65536 * b2 + 16777216 * b3;
        if prefix % 2 != 0 {
            return None;
        }
        let room: u64 = (memory.len() - handle) as u64;
        if room < (prefix as u64) {
            return None;
        }
        let end: usize = handle + prefix as usize;
        let mut buffer: Vec<u8> = Vec::new();
        let mut i: usize = start;
        while i < end
            invariant
                start <= i <= end <= memory@.len(),
                buffer@ == memory@.subrange(start as int, i as int),
            decreases end - i,
        {
            buffer.push(memory[i]);
            proof {
                assert(buffer@ =~= memory@.subrange(start as int, i + 1));
            }
            i = i + 1;
        }
        proof {
            assert(buffer@ =~= string_at(memory@, handle as int));
        }
        Some(BStr { buffer })
    }

    /// The buffer, prefix included.
    pub fn as_bytes(&self) -> (bytes: &[u8])
        ensures
            bytes@ == self.bytes(),
            well_formed(bytes@),
    {
        proof {
            use_type_invariant(self);
        }
        self.buffer.as_slice()
    }

    /// The byte count written in the four bytes before the first code unit.
    pub fn length_prefix(&self) -> (n: u32)
        ensures
            n == prefix_of(self.bytes()),
            n == 2 * self@.len(),
    {
        proof {
            use_type_invariant(self);
        }
        read_prefix(&self.buffer)
    }

    /// The number of bytes that the code units take.
    pub fn len_bytes(&self) -> (n: usize)
        ensures
            n == 2 * self@.len(),
    {
        proof {
            use_type_invariant(self);
        }
        self.buffer.len() - PREFIX_LEN
    }

    /// The number of code units.
    pub fn len(&self) -> (n: usize)
        ensures
            n == self@.len(),
    {
        proof {
            use_type_invariant(self);
        }
        (self.buffer.len() - PREFIX_LEN) / 2
    }

    /// Whether the string holds no code unit.
    pub fn is_empty(&self) -> (r: bool)
        ensures
            r == (self@.len() == 0),
    {
        self.len() == 0
    }

    /// The text that the string spells. A surrogate without its other half
    /// becomes the replacement character.
    pub fn to_chars_lossy(&self) -> (text: Vec<char>)
        ensures
            text@ == chars_of(self@),
    {
        let units: Vec<u16> = self.to_wide();
        decode_utf16_lossy(units.as_slice())
    }

    /// The code units, decoded from the buffer.
    pub fn to_wide(&self) -> (units: Vec<u16>)
        ensures
            units@ == self@,
    {
        proof {
            use_type_invariant(self);
        }
        let total: usize = self.buffer.len();
        let n: usize = (total - PREFIX_LEN) / 2;
        let mut units: Vec<u16> = Vec::new();
        let mut i: usize = 0;
        while i < n
            invariant
                well_formed(self.buffer@),
                total == self.buffer@.len(),
                n == (total - 4) / 2,
                i <= n,
                units@.len() == i,
                forall|j: int| 0 <= j < i ==> units@[j] == unit_at(self.buffer@, j),
            decreases n - i,
        {
            assert(2 * i + 2 <= total - 4);
            let low: u16 = self.buffer[4 + 2 * i] as u16;
            let high: u16 = self.buffer[4 + 2 * i + 1] as u16;
            units.push(low + 256 * high);
            i = i + 1;
        }
        proof {
            assert(units@ =~= decode_units(self.buffer@));
        }
        units
    }
}

impl View for BStr {
    type V = Seq<u16>;

    /// The code units the string holds.
    closed spec fn view(&self) -> Seq<u16> {
        decode_units(self.buffer@)
    }
}

/// The code units of a string are what its buffer decodes to.
pub proof fn lemma_view_of_bytes(s: BStr)
    ensures
        s@ == decode_units(s.bytes()),
{
}

/// What can be handed to the runtime as a string argument.
pub trait IntoBStrArg: Sized {
    /// The code units of the string that the argument becomes.
    spec fn units(self) -> Seq<u16>;

    /// The argument as a string in the runtime's layout.
    fn into_bstr_arg(self) -> (s: BStr)
        requires
            self.units().len() <= MAX_UNITS,
        ensures
            s@ == self.units(),
            s.bytes() == encode_units(self.units()),
    ;
}

impl<'a> IntoBStrArg for &'a str {
    open spec fn units(self) -> Seq<u16> {
        utf16_of(self@)
    }

    fn into_bstr_arg(self) -> (s: BStr) {
        BStr::from_text(self)
    }
}

impl<'a> IntoBStrArg for &'a [u16] {
    open spec fn units(self) -> Seq<u16> {
        self@
    }

    fn into_bstr_arg(self) -> (s: BStr) {
        BStr::new(self)
    }
}

/// Reads the little-endian byte count at the start of a buffer.
fn read_prefix(buffer: &Vec<u8>) -> (n: u32)
    requires
        buffer@.len() >= 4,
    ensures
        n == prefix_of(buffer@),
{
    let b0: u32 = buffer[0] as u32;
    let b1: u32 = buffer[1] as u32;
    let b2: u32 = buffer[2] as u32;
    let b3: u32 = buffer[3] as u32;
    b0 + 256 * b1 + 65536 * b2 + 16777216 * b3
}

} // verus!
