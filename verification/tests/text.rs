use rust_sys_installer::utils::os_discover::fetch_os;
use rust_sys_installer::utils::text::{chars_of, contains, octal_encode, single_quote};

#[test]
fn single_quote_wraps_plain_text_in_quotes() {
    assert_eq!(single_quote("cargo --version"), "'cargo --version'");
    assert_eq!(single_quote(""), "''");
}

#[test]
fn single_quote_escapes_each_single_quote() {
    assert_eq!(single_quote("a'b"), "'a'\\''b'");
    assert_eq!(single_quote("'"), "''\\'''");
    assert_eq!(single_quote("it's 'x'"), "'it'\\''s '\\''x'\\'''");
}

#[test]
fn single_quote_leaves_other_shell_syntax_as_it_is() {
    assert_eq!(single_quote("$HOME \"x\" `id` \\ ; | &"), "'$HOME \"x\" `id` \\ ; | &'");
    assert_eq!(single_quote("line\nbreak é"), "'line\nbreak é'");
}

#[test]
fn octal_encode_writes_three_digits_per_byte() {
    assert_eq!(octal_encode(b""), "");
    assert_eq!(octal_encode(b"A"), "\\101");
    assert_eq!(octal_encode(b"A\n"), "\\101\\012");
    assert_eq!(octal_encode(&[0, 7, 8, 63, 64, 255]), "\\000\\007\\010\\077\\100\\377");
    assert_eq!(octal_encode("é".as_bytes()), "\\303\\251");
}

#[test]
fn octal_text_reads_back_as_the_bytes() {
    let bytes: Vec<u8> = (0..=255).collect();
    let text = octal_encode(&bytes);
    assert_eq!(text.len(), 4 * 256);
    let chars: Vec<char> = text.chars().collect();
    let mut back = Vec::new();
    for group in chars.chunks(4) {
        assert_eq!(group[0], '\\');
        let digits: String = group[1..].iter().collect();
        back.push(u8::from_str_radix(&digits, 8).unwrap());
    }
    assert_eq!(back, bytes);
}

#[test]
fn chars_of_lists_the_characters() {
    assert_eq!(chars_of("aé用"), vec!['a', 'é', '用']);
    assert!(chars_of("").is_empty());
}

#[test]
fn contains_finds_a_word_anywhere() {
    assert!(contains("Ubuntu 22.04", "Ubuntu"));
    assert!(contains("22.04 (Ubuntu)", "Ubuntu"));
    assert!(contains("xUbuntu", "Ubuntu"));
    assert!(contains("Ubuntu", "Ubuntu"));
    assert!(contains("anything", ""));
    assert!(contains("", ""));
}

#[test]
fn contains_misses_what_is_not_there() {
    assert!(!contains("ubuntu 22.04", "Ubuntu"));
    assert!(!contains("Ubunt", "Ubuntu"));
    assert!(!contains("", "Ubuntu"));
    assert!(!contains("Ubu ntu", "Ubuntu"));
    assert!(!contains("UbuntUbunt", "Ubuntu"));
}

#[test]
fn fetch_os_names_ubuntu_from_the_version_text() {
    assert_eq!(fetch_os("Ubuntu 22.04", "Linux").unwrap(), "Ubuntu");
    assert_eq!(fetch_os("22.04 LTS (Ubuntu)", "Pop!_OS").unwrap(), "Ubuntu");
}

#[test]
fn fetch_os_falls_back_to_the_type_of_the_system() {
    assert_eq!(fetch_os("40", "Fedora").unwrap(), "Fedora");
    assert_eq!(fetch_os("22.04", "Ubuntu").unwrap(), "Ubuntu");
    assert_eq!(fetch_os("Unknown", "").unwrap(), "");
}
