use songparser::ids::uuid_string;
use songparser::text::i32_to_decimal;
use songparser::util::{path_buf_to_string, text_or_empty};

#[test]
fn uuid_text_is_hyphenated_lower_case() {
    let id: u128 = 0xa1a2a3a4_b1b2_c1c2_d1d2_d3d4d5d6d7d8;
    assert_eq!(uuid_string(id), "a1a2a3a4-b1b2-c1c2-d1d2-d3d4d5d6d7d8");
}

#[test]
fn uuid_text_of_nil_and_max() {
    assert_eq!(uuid_string(0), "00000000-0000-0000-0000-000000000000");
    assert_eq!(uuid_string(u128::MAX), "ffffffff-ffff-ffff-ffff-ffffffffffff");
}

#[test]
fn decimal_text_of_integers() {
    assert_eq!(i32_to_decimal(0), "0");
    assert_eq!(i32_to_decimal(7), "7");
    assert_eq!(i32_to_decimal(2023), "2023");
    assert_eq!(i32_to_decimal(-45), "-45");
    assert_eq!(i32_to_decimal(i32::MAX), "2147483647");
    assert_eq!(i32_to_decimal(i32::MIN), "-2147483648");
}

#[test]
fn decimal_text_matches_std() {
    for n in [-1000, -10, -9, -1, 1, 9, 10, 99, 100, 1999, 65536] {
        assert_eq!(i32_to_decimal(n), n.to_string());
    }
}

#[test]
fn path_to_string_keeps_the_text() {
    let path = std::path::PathBuf::from("/music/queue/track01.flac");
    assert_eq!(path_buf_to_string(&path), "/music/queue/track01.flac");
}

#[test]
fn empty_path_gives_empty_string() {
    let path = std::path::PathBuf::new();
    assert_eq!(path_buf_to_string(&path), "");
}

#[test]
fn missing_text_gives_empty_string() {
    assert_eq!(text_or_empty(None), "");
    assert_eq!(text_or_empty(Some("abc")), "abc");
}
