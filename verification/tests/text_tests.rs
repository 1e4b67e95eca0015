use migrator::framing::{join_frames, parse_u64, push_frame, split_frames};
use migrator::text::{
    chars_eq, chars_of, chars_within, concat2, push_decimal, str_eq, string_of,
};

fn within(mount: &str, path: &str) -> bool {
    chars_within(&chars_of(mount), &chars_of(path))
}

#[test]
fn chars_of_gives_the_characters_in_order() {
    assert_eq!(chars_of("a/ü"), vec!['a', '/', 'ü']);
    assert_eq!(chars_of(""), Vec::<char>::new());
}

#[test]
fn string_of_is_the_inverse_of_chars_of() {
    assert_eq!(string_of(&chars_of("/boot/config.txt")), "/boot/config.txt");
    assert_eq!(string_of(&Vec::new()), "");
}

#[test]
fn str_eq_compares_characters() {
    assert!(str_eq("grub", "grub"));
    assert!(!str_eq("grub", "grub2"));
    assert!(!str_eq("grub", "grab"));
    assert!(str_eq("", ""));
    assert!(chars_eq(&vec!['a'], &vec!['a']));
    assert!(!chars_eq(&vec!['a'], &vec!['b']));
}

#[test]
fn path_within_needs_a_whole_component() {
    assert!(within("/boot", "/boot"));
    assert!(within("/boot", "/boot/config.txt"));
    assert!(!within("/boot", "/bootx/config.txt"));
    assert!(!within("/boot", "/boo"));
    assert!(within("/", "/etc/grub.d"));
    assert!(within("C:", "C:\\Users\\x"));
    assert!(within("C:\\", "C:\\Users\\x"));
    assert!(!within("", "/boot"));
    assert!(!within("/boot/efi", "/boot"));
}

#[test]
fn push_decimal_writes_numerals_without_leading_zeros() {
    let mut s = String::from("n=");
    push_decimal(&mut s, 0);
    assert_eq!(s, "n=0");
    let mut s = String::new();
    push_decimal(&mut s, 10);
    assert_eq!(s, "10");
    let mut s = String::new();
    push_decimal(&mut s, 18446744073709551615);
    assert_eq!(s, "18446744073709551615");
    let mut s = String::new();
    push_decimal(&mut s, 907);
    assert_eq!(s, "907");
}

#[test]
fn concat2_joins_two_strings() {
    assert_eq!(concat2("cannot find required command ", "dd"), "cannot find required command dd");
}

#[test]
fn frame_holds_length_colon_piece_and_line_feed() {
    let mut out = String::new();
    push_frame(&mut out, "/dev/sda");
    assert_eq!(out, "8:/dev/sda\n");
    push_frame(&mut out, "");
    assert_eq!(out, "8:/dev/sda\n0:\n");
    let mut out = String::new();
    push_frame(&mut out, "ü\n:");
    assert_eq!(out, "3:ü\n:\n");
}

#[test]
fn frames_round_trip_any_content() {
    let pieces = vec![
        String::from("plain"),
        String::new(),
        String::from("with\nline feed"),
        String::from("12:looks like a frame\n"),
        String::from("ünïcödé"),
    ];
    let text = join_frames(&pieces);
    assert_eq!(split_frames(&text), Some(pieces));
    assert_eq!(join_frames(&Vec::new()), "");
    assert_eq!(split_frames(""), Some(Vec::new()));
}

#[test]
fn split_frames_rejects_what_is_no_frame() {
    assert_eq!(split_frames("5:abc\n"), None);
    assert_eq!(split_frames("3:abc"), None);
    assert_eq!(split_frames("3:abcd\n"), None);
    assert_eq!(split_frames("abc\n"), None);
    assert_eq!(split_frames(":abc\n"), None);
    assert_eq!(split_frames("x3:abc\n"), None);
    assert_eq!(split_frames("3:abc\nrest"), None);
    assert_eq!(split_frames("99999999999999999999999:a\n"), None);
    assert_eq!(split_frames("003:abc\n"), Some(vec![String::from("abc")]));
}

#[test]
fn parse_u64_accepts_numerals_that_fit() {
    let digits = chars_of("x18446744073709551615y");
    assert_eq!(parse_u64(&digits, 1, 21), Some(18446744073709551615));
    assert_eq!(parse_u64(&digits, 1, 2), Some(1));
    assert_eq!(parse_u64(&digits, 1, 1), None);
    assert_eq!(parse_u64(&digits, 0, 3), None);
    let big = chars_of("18446744073709551616");
    assert_eq!(parse_u64(&big, 0, 20), None);
    let zeros = chars_of("0007");
    assert_eq!(parse_u64(&zeros, 0, 4), Some(7));
}
