use smelter::numbers::{parse_u32, push_decimal};
use smelter::names::is_own_component;
use smelter::paths::{extension, file_stem, filename_of, parent_folder_of};
use smelter::text::{
    chars_of, contains_char, contains_text, is_whitespace, same_text, starts_with, text_of_range,
    trim,
};

#[test]
fn decimal_writes_numbers_as_format_does() {
    for n in [0u32, 1, 9, 10, 11, 99, 100, 101, 4096, 1_000_000, u32::MAX - 1, u32::MAX] {
        let mut s = String::from("x");
        push_decimal(&mut s, n);
        assert_eq!(s, format!("x{}", n));
    }
}

#[test]
fn parse_reads_numbers_as_std_does() {
    let samples = [
        "", "+", "-", "0", "+0", "-0", "7", "007", "128", "+128", "-128", " 128", "128 ", "12a",
        "1_000", "4294967295", "4294967296", "+4294967295", "99999999999999999999", "１２", "1.5",
        "++1", "+-1", "0x10",
    ];
    for s in samples {
        assert_eq!(parse_u32(s), s.parse::<u32>().ok(), "parsing {:?}", s);
    }
    assert_eq!(parse_u32("128"), Some(128));
    assert_eq!(parse_u32("4294967296"), None);
}

#[test]
fn trim_removes_what_std_trim_removes() {
    let samples = [
        "", " ", "a", " a", "a ", "  a b  ", "\t\n a\r\n", "\u{a0}x\u{3000}", "\u{2003}", " . ",
        "é ", "\u{200b}zero width stays\u{200b}",
    ];
    for s in samples {
        assert_eq!(trim(s), s.trim(), "trimming {:?}", s);
    }
    assert_eq!(trim("  Relaxed "), "Relaxed");
}

#[test]
fn search_finds_what_std_finds() {
    let hays = ["", "a", "mood", "My Mood!", "stylevibe", "vib", "aaab", "Permission denied (os error 13)"];
    let needles = ["", "a", "mood", "Mood", "vibe", "ab", "b", "Permission denied", "aaaa"];
    for h in hays {
        for n in needles {
            assert_eq!(contains_text(h, n), h.contains(n), "{:?} in {:?}", n, h);
            assert_eq!(starts_with(h, n), h.starts_with(n), "{:?} before {:?}", n, h);
            assert_eq!(same_text(h, n), h == n);
        }
        assert_eq!(contains_char(h, 'm'), h.contains('m'));
        assert_eq!(contains_char(h, '.'), h.contains('.'));
    }
}

#[test]
fn characters_go_round() {
    let s = "ES_Café ☕.mp3";
    let v = chars_of(s);
    assert_eq!(v.len(), s.chars().count());
    assert_eq!(text_of_range(&v, 0, v.len()), s);
    assert_eq!(text_of_range(&v, 3, 7), "Café");
    assert!(same_text("Café ☕", "Café ☕"));
    assert!(!same_text("Café", "Cafe"));
    assert!(!same_text("é", "e\u{301}"));
}

#[test]
fn filename_is_final_component() {
    assert_eq!(filename_of("/music/in/ES_Track.mp3"), "ES_Track.mp3");
    assert_eq!(filename_of("ES_Track.mp3"), "ES_Track.mp3");
    assert_eq!(filename_of("/music/in/"), "in");
    assert_eq!(filename_of("/music/in/.."), "Unknown");
    assert_eq!(filename_of("/"), "Unknown");
    assert_eq!(filename_of(""), "Unknown");
}

#[test]
fn parent_folder_is_component_before_last() {
    assert_eq!(parent_folder_of("/music/in/ES_Track.mp3"), "in");
    assert_eq!(parent_folder_of("in/ES_Track.mp3"), "in");
    assert_eq!(parent_folder_of("ES_Track.mp3"), "Unknown");
    assert_eq!(parent_folder_of("/ES_Track.mp3"), "Unknown");
    assert_eq!(parent_folder_of("/"), "Unknown");
}

#[test]
fn white_space_is_what_std_takes_for_it() {
    let mut count = 0;
    for n in 0..=0x10FFFFu32 {
        if let Some(c) = char::from_u32(n) {
            assert_eq!(is_whitespace(c), c.is_whitespace(), "U+{:04X}", n);
            if is_whitespace(c) {
                count += 1;
            }
        }
    }
    assert_eq!(count, 25);
    assert!(is_whitespace(' '));
    assert!(is_whitespace('\n'));
    assert!(!is_whitespace('_'));
}

#[test]
fn stem_and_extension_are_what_std_takes_for_them() {
    let samples = [
        "", "a", "a.b", "a.b.c", ".hidden", ".hidden.txt", "trailing.", "..", "...", "....a",
        "dir/a.mp3", "dir.d/a", "dir.d/.a", "/x/y.z/", "/x/y.z/.", "a.mp3/..", "/", ".", "é.ü",
        "ES_Track.mp3", "no ext", " .x", "a..b",
    ];
    for s in samples {
        let path = std::path::Path::new(s);
        let stem = path.file_stem().map(|p| p.to_str().unwrap().to_string());
        let ext = path.extension().map(|p| p.to_str().unwrap().to_string());
        assert_eq!(file_stem(s), stem, "stem of {:?}", s);
        assert_eq!(extension(s), ext, "extension of {:?}", s);
    }
    assert_eq!(file_stem("ES_Track.mp3"), Some("ES_Track".to_string()));
    assert_eq!(extension("ES_Track.mp3"), Some("mp3".to_string()));
    assert_eq!(extension("trailing."), Some("".to_string()));
}

#[test]
fn name_without_directory_is_its_own_component() {
    assert!(is_own_component("ES_Track.mp3"));
    assert!(is_own_component(""));
    assert!(is_own_component(".."));
    assert!(!is_own_component("in/ES_Track.mp3"));
    assert!(!is_own_component("ES_Track.mp3/"));
}
