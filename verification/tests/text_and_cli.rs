use bit7z_archiver::cli::{extract_indices, hex_dump_line, hex_dump_lines};
use bit7z_archiver::instance::{key_for_hash, path_key};
use bit7z_archiver::text::{
    ascii_string, chars_less, chars_of, decimal, hex_fixed, push_decimal, push_hex, text_contains,
};
use bit7z_archiver::application::preview::{classify_preview, PreviewData};

#[test]
fn hex_and_decimal_text() {
    assert_eq!(hex_fixed(0xab, 4), "00ab");
    assert_eq!(hex_fixed(0x1234, 2), "34");
    assert_eq!(hex_fixed(7, 0), "");
    assert_eq!(decimal(0), "0");
    assert_eq!(decimal(1234567890), "1234567890");
    assert_eq!(decimal(u64::MAX), "18446744073709551615");
    let mut s = "x=".to_string();
    push_decimal(&mut s, 42);
    push_hex(&mut s, 255, 2);
    assert_eq!(s, "x=42ff");
}

#[test]
fn utf8_and_ascii() {
    assert_eq!(classify_preview(b"caf\xc3\xa9".to_vec(), 64), PreviewData::Text("café".to_string()));
    assert_eq!(classify_preview(vec![0xff, 0xfe], 64), PreviewData::Hex(vec![0xff, 0xfe]));
    assert_eq!(ascii_string(b"abc".to_vec()), "abc");
    assert_eq!(chars_of("añb"), vec!['a', 'ñ', 'b']);
}

#[test]
fn containment_and_order() {
    assert!(text_contains("archive.tar.gz", "tar"));
    assert!(text_contains("abc", ""));
    assert!(!text_contains("ab", "abc"));
    assert!(!text_contains("abc", "ac"));
    assert!(chars_less(&['a', 'b'], &['a', 'c']));
    assert!(chars_less(&['a'], &['a', 'a']));
    assert!(!chars_less(&['b'], &['a', 'z']));
    assert!(!chars_less(&['a'], &['a']));
}

#[test]
fn extract_indices_counts_up() {
    assert_eq!(extract_indices(4), vec![0, 1, 2, 3]);
    assert!(extract_indices(0).is_empty());
}

#[test]
fn hex_dump_of_a_short_chunk() {
    let line = hex_dump_line(b"Hi\x00 ~");
    let expected = format!("{:08x}  {:<48}  {}", 0, "48 69 00 20 7e ", "Hi. ~");
    assert_eq!(line, expected);
}

#[test]
fn hex_dump_splits_into_lines_of_sixteen() {
    let data: Vec<u8> = (0u8..40).collect();
    let lines = hex_dump_lines(&data);
    assert_eq!(lines.len(), 3);
    let hex: String = data[16..32].iter().map(|b| format!("{:02x} ", b)).collect();
    assert_eq!(lines[1], format!("{:08x}  {:<48}  {}", 0, hex, "................"));
    assert!(lines[2].ends_with("  !\"#$%&'"));
    assert!(hex_dump_lines(&[]).is_empty());
}

#[test]
fn instance_keys() {
    assert_eq!(key_for_hash(0x1f), "bit7z_000000000000001f");
    let k = path_key("C:/archives/a.7z");
    assert!(k.starts_with("bit7z_"));
    assert_eq!(k.len(), 22);
    assert_eq!(k, path_key("C:/archives/a.7z"));
    assert_ne!(k, path_key("C:/archives/b.7z"));
}

#[test]
fn paths_equal_as_paths_share_a_key() {
    assert_eq!(path_key("archives//a.7z"), path_key("archives/a.7z"));
    assert_eq!(path_key("archives/./a.7z"), path_key("archives/a.7z"));
    assert_eq!(path_key("/data/dir/"), path_key("/data/dir"));
}
