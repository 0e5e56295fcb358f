use alluno_vdd_sys::text::{buf_to_string, copy_str_to_buf, name_field, wide_c_str_to_string, wide_name, wide_name_is};

fn wide(s: &str, len: usize) -> Vec<u16> {
    let mut v: Vec<u16> = s.encode_utf16().collect();
    v.resize(len, 0);
    v
}

#[test]
fn copy_str_keeps_rest_of_buffer() {
    let mut buf = vec![9u8; 6];
    copy_str_to_buf("abc", &mut buf);
    assert_eq!(buf, vec![b'a', b'b', b'c', 9, 9, 9]);
    let mut small = vec![0u8; 2];
    copy_str_to_buf("abc", &mut small);
    assert_eq!(small, b"ab".to_vec());
}

#[test]
fn name_field_pads_and_cuts() {
    assert_eq!(name_field("Disp1", 8), b"Disp1\0\0\0".to_vec());
    assert_eq!(name_field("", 3), vec![0, 0, 0]);
    assert_eq!(name_field("abcdef", 4), b"abcd".to_vec());
}

#[test]
fn buf_to_string_stops_at_nul() {
    assert_eq!(buf_to_string(b"Disp1\0junk"), "Disp1");
    assert_eq!(buf_to_string(b"\0abc"), "");
    assert_eq!(buf_to_string(b"no-nul"), "no-nul");
    assert_eq!(buf_to_string(&[]), "");
}

#[test]
fn name_field_roundtrip() {
    for name in ["Test", "Disp2", "HDR4K", "ëàç", "exactly14chars"] {
        assert_eq!(buf_to_string(&name_field(name, 14)), name);
    }
}

#[test]
fn wide_names() {
    let units = wide("\\\\.\\DISPLAY9", 32);
    assert_eq!(wide_name(&units), "\\\\.\\DISPLAY9");
    assert!(wide_name_is(&units, "\\\\.\\DISPLAY9"));
    assert!(!wide_name_is(&units, "\\\\.\\DISPLAY1"));
    // Only trailing NULs are removed: an inner NUL stays part of the name.
    let inner: Vec<u16> = vec![b'A' as u16, 0, b'B' as u16, 0, 0];
    assert_eq!(wide_name(&inner), "A\0B");
    assert_eq!(wide_c_str_to_string(&inner), "A");
    // An unpaired surrogate is replaced.
    let bad: Vec<u16> = vec![b'X' as u16, 0xD800, 0];
    assert_eq!(wide_name(&bad), "X\u{fffd}");
}

#[test]
fn wide_names_with_surrogate_pairs() {
    // U+1F600 is the pair D83D DE00; a lone low surrogate is replaced.
    let units: Vec<u16> = vec![b'A' as u16, 0xD83D, 0xDE00, 0xDE00, 0xD83D, b'B' as u16, 0, 0];
    assert_eq!(wide_name(&units), "A\u{1F600}\u{FFFD}\u{FFFD}B");
    assert_eq!(wide_c_str_to_string(&units), "A\u{1F600}\u{FFFD}\u{FFFD}B");
}
