//! Text encodings used to talk to the Windows APIs: UTF-16 for wide strings
//! and the decoding of the byte buffers that the APIs fill in.

use vstd::prelude::*;
use vstd::utf8::{decode_utf8, valid_utf8};

verus! {

/// The UTF-16 code units of one character: one unit below U+10000,
/// otherwise a high surrogate followed by a low surrogate.
pub open spec fn utf16_units(c: char) -> Seq<u16> {
    let v: u32 = c as u32;
    if v < 0x10000 {
        seq![v as u16]
    } else {
        let w: int = v - 0x10000;
        seq![(0xD800 + w / 0x400) as u16, (0xDC00 + w % 0x400) as u16]
    }
}

/// The UTF-16 encoding of a character sequence.
pub open spec fn utf16_encode(s: Seq<char>) -> Seq<u16>
    decreases s.len(),
{
    if s.len() == 0 {
        Seq::empty()
    } else {
        utf16_encode(s.drop_last()) + utf16_units(s.last())
    }
}

/// A NUL-terminated wide string, as the Windows `PWSTR` APIs take it.
pub open spec fn pwstr(s: Seq<char>) -> Seq<u16> {
    utf16_encode(s).push(0)
}

/// Whether a code unit is a surrogate, half of a pair.
pub open spec fn is_surrogate(u: u16) -> bool {
    0xD800 <= u && u <= 0xDFFF
}

/// Whether a code unit is a high (leading) surrogate.
pub open spec fn is_high_surrogate(u: u16) -> bool {
    0xD800 <= u && u <= 0xDBFF
}

/// Whether a code unit is a low (trailing) surrogate.
pub open spec fn is_low_surrogate(u: u16) -> bool {
    0xDC00 <= u && u <= 0xDFFF
}

/// The code point that a surrogate pair stands for.
pub open spec fn surrogate_pair_code(hi: u16, lo: u16) -> u32 {
    ((hi - 0xD800) * 0x400 + (lo - 0xDC00) + 0x10000) as u32
}

/// Lossy UTF-16 decoding: a unit that is no surrogate is its own character,
/// a high surrogate followed by a low one is the character of the pair, and
/// any other surrogate is replaced by U+FFFD (the unit after an unpaired
/// high surrogate is decoded afresh).
pub open spec fn utf16_decode(u: Seq<u16>) -> Seq<char>
    decreases u.len(),
{
    if u.len() == 0 {
        Seq::empty()
    } else if !is_surrogate(u[0]) {
        seq![(u[0] as u32) as char] + utf16_decode(u.drop_first())
    } else if is_high_surrogate(u[0]) && u.len() >= 2 && is_low_surrogate(u[1]) {
        seq![surrogate_pair_code(u[0], u[1]) as char] + utf16_decode(u.subrange(2, u.len() as int))
    } else {
        seq!['\u{FFFD}'] + utf16_decode(u.drop_first())
    }
}

/// The encoding of a non-empty sequence starts with the units of its first character.
proof fn lemma_encode_first(s: Seq<char>)
    requires
        s.len() > 0,
    ensures
        utf16_encode(s) == utf16_units(s[0]) + utf16_encode(s.drop_first()),
    decreases s.len(),
{
    if s.len() == 1 {
        assert(s.drop_last() =~= Seq::<char>::empty());
        assert(s.drop_first() =~= Seq::<char>::empty());
        assert(utf16_encode(s) =~= utf16_units(s[0]));
        assert(utf16_units(s[0]) + utf16_encode(s.drop_first()) =~= utf16_units(s[0]));
    } else {
        lemma_encode_first(s.drop_last());
        assert(s.drop_last().drop_first() =~= s.drop_first().drop_last());
        assert(s.drop_first().last() == s.last());
        assert(utf16_encode(s) =~= utf16_units(s[0]) + utf16_encode(s.drop_first()));
    }
}

/// Decoding the units of a character followed by more units gives the
/// character followed by the decoding of the rest.
proof fn lemma_decode_units(c: char, rest: Seq<u16>)
    ensures
        utf16_decode(utf16_units(c) + rest) == seq![c] + utf16_decode(rest),
{
    vstd::utf8::char_is_scalar(c);
    let v: u32 = c as u32;
    vstd::utf8::char_u32_cast(c, v);
    let u = utf16_units(c) + rest;
    if v < 0x10000 {
        assert(u[0] == v as u16);
        assert((v as u16) as u32 == v);
        assert(!is_surrogate(u[0]));
        assert(u.drop_first() =~= rest);
    } else {
        let w: int = v - 0x10000;
        assert(0 <= w <= 0xFFFFF);
        assert(0 <= w / 0x400 <= 0x3FF);
        assert(0 <= w % 0x400 <= 0x3FF);
        assert(u[0] == (0xD800 + w / 0x400) as u16);
        assert(u[1] == (0xDC00 + w % 0x400) as u16);
        assert(is_high_surrogate(u[0]) && is_low_surrogate(u[1]));
        assert((w / 0x400) * 0x400 + w % 0x400 == w);
        assert(surrogate_pair_code(u[0], u[1]) == v);
        assert(u.subrange(2, u.len() as int) =~= rest);
    }
}

/// Decoding the UTF-16 encoding of a string gives the string back.
pub proof fn lemma_decode_encode(s: Seq<char>)
    ensures
        utf16_decode(utf16_encode(s)) == s,
    decreases s.len(),
{
    if s.len() == 0 {
        assert(utf16_encode(s) =~= Seq::<u16>::empty());
    } else {
        lemma_encode_first(s);
        lemma_decode_units(s[0], utf16_encode(s.drop_first()));
        lemma_decode_encode(s.drop_first());
        assert(seq![s[0]] + s.drop_first() =~= s);
    }
}

/// A string of characters below U+10000 encodes to one unit per character,
/// each unit the character's code.
pub proof fn lemma_bmp_encoding(s: Seq<char>)
    requires
        forall|i: int| 0 <= i < s.len() ==> (s[i] as u32) < 0x10000,
    ensures
        utf16_encode(s).len() == s.len(),
        forall|i: int| 0 <= i < s.len() ==> utf16_encode(s)[i] as u32 == s[i] as u32,
    decreases s.len(),
{
    if s.len() > 0 {
        lemma_bmp_encoding(s.drop_last());
        assert forall|i: int| 0 <= i < s.len() implies utf16_encode(s)[i] as u32 == s[i] as u32 by {
            if i < s.len() - 1 {
                assert(s.drop_last()[i] == s[i]);
            }
        }
    }
}

/// A character from U+10000 on encodes to a high surrogate followed by a low
/// one, which together give back its code.
pub proof fn lemma_supplementary_encoding(c: char)
    requires
        (c as u32) >= 0x10000,
    ensures
        utf16_units(c).len() == 2,
        0xD800 <= utf16_units(c)[0] <= 0xDBFF,
        0xDC00 <= utf16_units(c)[1] <= 0xDFFF,
        (utf16_units(c)[0] - 0xD800) * 0x400 + (utf16_units(c)[1] - 0xDC00) + 0x10000 == c as u32,
{
    vstd::utf8::char_is_scalar(c);
    let w: int = (c as u32) - 0x10000;
    assert((w / 0x400) * 0x400 + w % 0x400 == w);
}

/// The units of a little-endian buffer are its byte pairs, low byte first.
pub proof fn lemma_le_units_bytes(bytes: Seq<u8>, n: int, i: int)
    requires
        2 * n <= bytes.len(),
        0 <= i < n,
    ensures
        le_units(bytes, n).len() == n,
        le_units(bytes, n)[i] % 256 == bytes[2 * i],
        le_units(bytes, n)[i] / 256 == bytes[2 * i + 1],
{
    let lo: int = bytes[2 * i] as int;
    let hi: int = bytes[2 * i + 1] as int;
    assert(lo + 256 * hi <= 0xFFFF);
    assert((lo + 256 * hi) % 256 == lo && (lo + 256 * hi) / 256 == hi) by (nonlinear_arith)
        requires
            0 <= lo < 256,
            0 <= hi < 256,
    ;
}

/// Appends the UTF-16 code units of `c` to `units`.
fn push_utf16(units: &mut Vec<u16>, c: char)
    ensures
        final(units)@ == old(units)@ + utf16_units(c),
{
    proof {
        vstd::utf8::char_is_scalar(c);
    }
    let v: u32 = c as u32;
    if v < 0x10000 {
        units.push(v as u16);
    } else {
        let w: u32 = v - 0x10000;
        units.push((0xD800 + w / 0x400) as u16);
        units.push((0xDC00 + w % 0x400) as u16);
    }
}

/// Encodes `val` as a NUL-terminated UTF-16 string.
pub fn to_pwstr(val: &str) -> (res: Vec<u16>)
    ensures
        res@ == pwstr(val@),
        res@.len() == utf16_encode(val@).len() + 1,
        res@.last() == 0,
        res@.drop_last() == utf16_encode(val@),
{
    let mut units: Vec<u16> = Vec::new();
    for c in it: val.chars()
        invariant
            it.seq() == val@,
            units@ == utf16_encode(val@.take(it.index())),
    {
        proof {
            assert(val@.take(it.index() + 1).drop_last() == val@.take(it.index()));
        }
        push_utf16(&mut units, c);
    }
    proof {
        assert(val@.take(val@.len() as int) == val@);
    }
    units.push(0);
    units
}


/// Encodes `txt` as a NUL-terminated UTF-16 string (the event-log probe's name
/// for [`to_pwstr`]).
pub fn to_utf16(txt: &str) -> (res: Vec<u16>)
    ensures
        res@ == pwstr(txt@),
        res@.len() == utf16_encode(txt@).len() + 1,
        res@.last() == 0,
        res@.drop_last() == utf16_encode(txt@),
{
    to_pwstr(txt)
}

/// What `String::from_utf8_lossy` makes of a byte sequence.
pub uninterp spec fn lossy_utf8(bytes: Seq<u8>) -> Seq<char>;

/// Calls `String::from_utf8_lossy`: the bytes decoded as UTF-8, each invalid
/// sequence replaced by U+FFFD. Claimed: the result is a function of the
/// bytes, and valid UTF-8 decodes to exactly the characters it encodes.
/// Which characters an invalid input gives is left unsaid.
#[verifier::external_body]
fn utf8_lossy(bytes: &[u8]) -> (res: String)
    ensures
        res@ == lossy_utf8(bytes@),
        valid_utf8(bytes@) ==> res@ == decode_utf8(bytes@),
{
    String::from_utf8_lossy(bytes).into_owned()
}

/// Calls `String::from_utf16_lossy`: the code units decoded as UTF-16, each
/// unpaired surrogate replaced by U+FFFD. Claimed: the result is
/// [`utf16_decode`] of the units.
#[verifier::external_body]
fn utf16_lossy(units: &[u16]) -> (res: String)
    ensures
        res@ == utf16_decode(units@),
{
    String::from_utf16_lossy(units)
}

/// How many bytes of a buffer hold text: `used`, less a trailing NUL if there is one.
pub open spec fn text_len(buffer: Seq<u8>, used: int) -> int {
    if used > 0 && buffer[used - 1] == 0 {
        used - 1
    } else {
        used
    }
}

/// The first `n` little-endian 16-bit units of a byte buffer.
pub open spec fn le_units(bytes: Seq<u8>, n: int) -> Seq<u16> {
    Seq::new(n as nat, |i: int| (bytes[2 * i] + 256 * bytes[2 * i + 1]) as u16)
}

/// Reads the first `n` little-endian 16-bit units of `bytes`.
fn units_of_bytes(bytes: &[u8], n: usize) -> (res: Vec<u16>)
    requires
        2 * n <= bytes@.len(),
    ensures
        res@ == le_units(bytes@, n as int),
{
    let mut units: Vec<u16> = Vec::new();
    let len: usize = bytes.len();
    let mut i: usize = 0;
    while i < n
        invariant
            i <= n,
            len == bytes@.len(),
            2 * n <= len,
            units@ == le_units(bytes@, i as int),
        decreases n - i,
    {
        let lo: u16 = bytes[2 * i] as u16;
        let hi: u16 = bytes[2 * i + 1] as u16;
        units.push(lo + 256 * hi);
        i = i + 1;
        proof {
            assert(units@ =~= le_units(bytes@, i as int));
        }
    }
    units
}

/// Decodes the UTF-16 text that a Windows API wrote into a byte buffer, of
/// which it reports `bufferused` bytes as used (an odd last byte is ignored).
pub fn buffer_to_utf16_string(buffer: &mut Vec<u8>, bufferused: usize) -> (res: String)
    requires
        bufferused <= old(buffer)@.len(),
    ensures
        final(buffer)@ == old(buffer)@,
        res@ == utf16_decode(le_units(old(buffer)@, bufferused as int / 2)),
        forall|s: Seq<char>|
            #[trigger] utf16_encode(s) == le_units(old(buffer)@, bufferused as int / 2) ==> res@ == s,
{
    let units = units_of_bytes(buffer.as_slice(), bufferused / 2);
    let res = utf16_lossy(units.as_slice());
    proof {
        assert forall|s: Seq<char>|
            #[trigger] utf16_encode(s) == le_units(old(buffer)@, bufferused as int / 2) implies res@ == s by {
            lemma_decode_encode(s);
        }
    }
    res
}

/// Decodes the UTF-8 text of the first `bufferused` bytes of a buffer,
/// leaving out a trailing NUL.
pub fn buffer_to_utf8_string_slice(buffer: &[u8], bufferused: usize) -> (res: String)
    requires
        bufferused <= buffer@.len(),
    ensures
        res@ == lossy_utf8(buffer@.take(text_len(buffer@, bufferused as int))),
        valid_utf8(buffer@.take(text_len(buffer@, bufferused as int))) ==> res@ == decode_utf8(
            buffer@.take(text_len(buffer@, bufferused as int)),
        ),
        bufferused > 0 && buffer@[bufferused - 1] == 0 ==> res@ == lossy_utf8(buffer@.take(bufferused - 1)),
        !(bufferused > 0 && buffer@[bufferused - 1] == 0) ==> res@ == lossy_utf8(buffer@.take(bufferused as int)),
{
    let used: usize = if bufferused > 0 && buffer[bufferused - 1] == 0 {
        bufferused - 1
    } else {
        bufferused
    };
    let text = &buffer[0..used];
    proof {
        assert(text@ == buffer@.take(used as int));
    }
    utf8_lossy(text)
}

/// Decodes the UTF-8 text of the first `bufferused` bytes of a buffer,
/// leaving out a trailing NUL; the buffer is left as it was.
pub fn buffer_to_utf8_string(buffer: &mut Vec<u8>, bufferused: usize) -> (res: String)
    requires
        bufferused <= old(buffer)@.len(),
    ensures
        final(buffer)@ == old(buffer)@,
        res@ == lossy_utf8(old(buffer)@.take(text_len(old(buffer)@, bufferused as int))),
        valid_utf8(old(buffer)@.take(text_len(old(buffer)@, bufferused as int))) ==> res@ == decode_utf8(
            old(buffer)@.take(text_len(old(buffer)@, bufferused as int)),
        ),
        bufferused > 0 && old(buffer)@[bufferused - 1] == 0 ==> res@ == lossy_utf8(
            old(buffer)@.take(bufferused - 1),
        ),
        !(bufferused > 0 && old(buffer)@[bufferused - 1] == 0) ==> res@ == lossy_utf8(
            old(buffer)@.take(bufferused as int),
        ),
{
    buffer_to_utf8_string_slice(buffer.as_slice(), bufferused)
}


/// The text of a rendered event-log record or bookmark: the UTF-16 that the
/// API wrote, less its last character (the terminating NUL). `None` where
/// that last character cannot be dropped by its byte index: the text is
/// empty, or ends in a character of more than one byte.
pub open spec fn rendered_text(bytes: Seq<u8>, used: int) -> Option<Seq<char>> {
    let t: Seq<char> = utf16_decode(le_units(bytes, used / 2));
    if t.len() > 0 && (t.last() as u32) < 0x80 {
        Some(t.drop_last())
    } else {
        None
    }
}

/// Decodes the text that `EvtRender` wrote into `buffer`, of which it reports
/// `bufferused` bytes as used, and drops its terminating character.
pub fn decode_rendered_text(buffer: &[u8], bufferused: u32) -> (res: Option<String>)
    requires
        bufferused <= buffer@.len(),
    ensures
        match res {
            Some(s) => rendered_text(buffer@, bufferused as int) == Some(s@),
            None => rendered_text(buffer@, bufferused as int) is None,
        },
        forall|s: Seq<char>|
            #[trigger] utf16_encode(s) == le_units(buffer@, bufferused as int / 2) && s.len() > 0 && (s.last() as u32)
                < 0x80 ==> (res matches Some(r) && r@ == s.drop_last()),
{
    proof {
        assert forall|s: Seq<char>| #[trigger] utf16_encode(s) == le_units(buffer@, bufferused as int / 2) implies utf16_decode(
            le_units(buffer@, bufferused as int / 2),
        ) == s by {
            lemma_decode_encode(s);
        }
    }
    let units = units_of_bytes(buffer, (bufferused / 2) as usize);
    let text = utf16_lossy(units.as_slice());
    let n: usize = text.as_str().unicode_len();
    if n == 0 {
        return None;
    }
    let last: char = text.as_str().get_char(n - 1);
    if (last as u32) < 0x80 {
        let kept: &str = text.as_str().substring_char(0, n - 1);
        Some(String::from_str(kept))
    } else {
        None
    }
}

} // verus!
