use ssemu::assemble::{format_data, format_word};
use ssemu::run::srcfile::read_word;

#[test]
fn test_format_word() {
    assert_eq!(format_word(0x0F0FF0F0), vec![0x0F, 0x0F, 0xF0, 0xF0])
}

#[test]
fn test_format_data() {
    assert_eq!(
        format_data(vec![0x0F0F_F0F0, 0x0F0F_FFF0]),
        vec![
            0x0F, 0x0F, 0xF0, 0xF0,
            0x0F, 0x0F, 0xFF, 0xF0
        ]
    )
}

#[test]
fn test_decode_word() {
    let source = vec![0x0F, 0x0F, 0xF0, 0xF0,
        0x0F, 0x0F, 0xFF, 0xF0];
    assert_eq!(read_word(&source, 0), 0x0F0F_F0F0);
    assert_eq!(read_word(&source, 1), 0x0F0F_FFF0);
}

#[test]
fn test_format_then_decode_round_trip() {
    let words: Vec<i32> = vec![0, -1, i32::MIN, i32::MAX, 0x1234_5678, -0x1234_5678];
    let bytes = format_data(words.clone());
    for (i, w) in words.iter().enumerate() {
        assert_eq!(read_word(&bytes, i), *w);
    }
}

#[test]
fn test_decode_word_past_end_is_zero() {
    let source = vec![0xFFu8];
    assert_eq!(read_word(&source, 0), -16777216);
    assert_eq!(read_word(&source, 5), 0);
}
