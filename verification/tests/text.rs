use win_log::text::{
    buffer_to_utf16_string, buffer_to_utf8_string, buffer_to_utf8_string_slice, decode_rendered_text, to_pwstr,
    to_utf16,
};

fn le_bytes(units: &[u16]) -> Vec<u8> {
    let mut out = Vec::new();
    for u in units {
        out.push((*u & 0xff) as u8);
        out.push((*u >> 8) as u8);
    }
    out
}

#[test]
fn pwstr_ascii() {
    assert_eq!(to_pwstr("Security"), vec![83, 101, 99, 117, 114, 105, 116, 121, 0]);
    assert_eq!(to_pwstr(""), vec![0]);
}

#[test]
fn pwstr_matches_std_encoding() {
    for s in ["*", "Microsoft-Windows-Sysmon/Operational", "é€", "a😀b", "\u{FFFF}\u{10000}\u{10FFFF}"] {
        let mut expected: Vec<u16> = s.encode_utf16().collect();
        expected.push(0);
        assert_eq!(to_pwstr(s), expected);
        assert_eq!(to_utf16(s), expected);
    }
    assert_eq!(to_pwstr("😀"), vec![0xD83D, 0xDE00, 0]);
}

#[test]
fn utf16_buffer_round_trip() {
    let s = "Windows Powershell é😀";
    let units = to_pwstr(s);
    let mut bytes = le_bytes(&units);
    let used = bytes.len() - 2;
    assert_eq!(buffer_to_utf16_string(&mut bytes, used), s);
    // An odd count of used bytes leaves the half unit out.
    let mut bytes = le_bytes(&[0x41, 0x42]);
    assert_eq!(buffer_to_utf16_string(&mut bytes, 3), "A");
}

#[test]
fn utf16_buffer_lossy() {
    let mut bytes = le_bytes(&[0x41, 0xD800, 0x42]);
    assert_eq!(buffer_to_utf16_string(&mut bytes, 6), "A\u{FFFD}B");
}

#[test]
fn utf8_buffer_drops_trailing_nul() {
    let mut buf = b"C:\\dns\\dns.log\0\0\0".to_vec();
    assert_eq!(buffer_to_utf8_string(&mut buf, 15), "C:\\dns\\dns.log");
    assert_eq!(buf.len(), 17);
    assert_eq!(buffer_to_utf8_string_slice(&buf, 14), "C:\\dns\\dns.log");
    assert_eq!(buffer_to_utf8_string_slice(&buf, 16), "C:\\dns\\dns.log\0");
    assert_eq!(buffer_to_utf8_string_slice(&buf, 0), "");
    assert_eq!(buffer_to_utf8_string_slice(&[0xff, 0x41], 2), "\u{FFFD}A");
}

#[test]
fn rendered_text_drops_terminator() {
    let units = to_pwstr("<Event>é</Event>");
    let bytes = le_bytes(&units);
    assert_eq!(decode_rendered_text(&bytes, bytes.len() as u32), Some(String::from("<Event>é</Event>")));
    let mut big = bytes.clone();
    big.extend_from_slice(&[7u8; 64]);
    assert_eq!(decode_rendered_text(&big, bytes.len() as u32), Some(String::from("<Event>é</Event>")));
}

#[test]
fn rendered_text_refuses_what_cannot_be_cut() {
    assert_eq!(decode_rendered_text(&[], 0), None);
    let bytes = le_bytes(&to_utf16("aé")[..2]);
    assert_eq!(decode_rendered_text(&bytes, 4), None);
}

#[test]
fn utf16_unpaired_surrogates_are_replaced() {
    // An unpaired high surrogate is replaced and the unit after it is read afresh.
    let mut bytes = le_bytes(&[0xD800, 0x41, 0xDC00, 0xD83D, 0xDE00]);
    assert_eq!(buffer_to_utf16_string(&mut bytes, 10), "\u{FFFD}A\u{FFFD}😀");
    let mut bytes = le_bytes(&[0x41, 0xDBFF]);
    assert_eq!(buffer_to_utf16_string(&mut bytes, 4), "A\u{FFFD}");
}

#[test]
fn utf8_buffer_valid_text() {
    assert_eq!(buffer_to_utf8_string_slice(b"abc\0", 4), "abc");
    assert_eq!(buffer_to_utf8_string_slice(b"abc", 3), "abc");
    assert_eq!(buffer_to_utf8_string_slice(b"ab\0\0", 4), "ab\u{0}");
    assert_eq!(buffer_to_utf8_string_slice(b"abc", 0), "");
    assert_eq!(buffer_to_utf8_string_slice("é€😀".as_bytes(), 9), "é€😀");
}
