use ogr_feature::text::{check_text, find_nul};
use ogr_feature::Error;

#[test]
fn text_without_zero_byte_is_accepted() {
    assert_eq!(find_nul(""), None);
    assert_eq!(find_nul("Name"), None);
    assert_eq!(find_nul("POINT (45.21 21.76)"), None);
    assert_eq!(check_text("Value"), Ok(()));
}

#[test]
fn first_zero_byte_is_reported() {
    assert_eq!(find_nul("\0"), Some(0));
    assert_eq!(find_nul("ab\0cd"), Some(2));
    assert_eq!(find_nul("ab\0cd\0"), Some(2));
    assert_eq!(find_nul("abcd\0"), Some(4));
    assert_eq!(check_text("ab\0cd"), Err(Error::FfiNulError { position: 2 }));
}

#[test]
fn position_counts_bytes_not_characters() {
    // 'é' takes two bytes, '€' three, '𝄞' four.
    assert_eq!(find_nul("é\0"), Some(2));
    assert_eq!(find_nul("€\0"), Some(3));
    assert_eq!(find_nul("𝄞\0"), Some(4));
    assert_eq!(find_nul("é€𝄞"), None);
    assert_eq!(check_text("é€\0"), Err(Error::FfiNulError { position: 5 }));
}
