use file_loader::blob::{first_field_len, split_embedded};
use file_loader::chain::recover;
use file_loader::render::to_decimal;
use file_loader::stream::{fill, overwrite};

#[test]
fn recover_takes_the_first_success() {
    assert_eq!(recover(Some(vec![1]), Some(vec![2]), "raw"), vec![1]);
    assert_eq!(recover(Some(vec![1]), None, "raw"), vec![1]);
    assert_eq!(recover(None, Some(vec![2]), "raw"), vec![2]);
    assert_eq!(recover(None, None, "raw"), b"raw".to_vec());
}

#[test]
fn recover_keeps_empty_successes() {
    assert_eq!(recover(Some(vec![]), Some(vec![2]), "raw"), Vec::<u8>::new());
    assert_eq!(recover(None, Some(vec![]), "raw"), Vec::<u8>::new());
    assert_eq!(recover(None, None, ""), Vec::<u8>::new());
}

#[test]
fn recover_hands_back_utf8_bytes() {
    assert_eq!(recover(None, None, "é€"), vec![0xC3, 0xA9, 0xE2, 0x82, 0xAC]);
}

#[test]
fn first_field_len_counts_up_to_the_delimiter() {
    assert_eq!(first_field_len(""), 0);
    assert_eq!(first_field_len("abc"), 3);
    assert_eq!(first_field_len("\u{0}abc"), 0);
    assert_eq!(first_field_len("ab\u{0}c\u{0}"), 2);
    assert_eq!(first_field_len("é€\u{0}"), 2);
}

#[test]
fn split_embedded_cases() {
    assert_eq!(split_embedded("k"), None);
    assert_eq!(split_embedded(""), None);
    assert_eq!(
        split_embedded("k\u{0}c"),
        Some(("k".to_string(), "c".to_string()))
    );
    assert_eq!(
        split_embedded("k\u{0}c\u{0}d"),
        Some(("k".to_string(), "c".to_string()))
    );
    assert_eq!(
        split_embedded("\u{0}\u{0}"),
        Some((String::new(), String::new()))
    );
}

#[test]
fn to_decimal_values() {
    assert_eq!(to_decimal(0), "0");
    assert_eq!(to_decimal(3), "3");
    assert_eq!(to_decimal(9), "9");
    assert_eq!(to_decimal(10), "10");
    assert_eq!(to_decimal(1234567890), "1234567890");
    assert_eq!(to_decimal(usize::MAX), format!("{}", usize::MAX));
}

#[test]
fn fill_copies_what_fits() {
    let mut buf = [9u8; 4];
    assert_eq!(fill(&[1, 2], &mut buf), 2);
    assert_eq!(buf, [1, 2, 9, 9]);
    assert_eq!(fill(&[1, 2, 3, 4, 5, 6], &mut buf), 4);
    assert_eq!(buf, [1, 2, 3, 4]);
    assert_eq!(fill(&[], &mut buf), 0);
    assert_eq!(buf, [1, 2, 3, 4]);
}

#[test]
fn overwrite_lays_bytes_over_the_start() {
    let mut plain = vec![1u8, 2, 3];
    assert_eq!(overwrite(&mut plain, &[9]), 1);
    assert_eq!(plain, vec![9, 2, 3]);
    assert_eq!(overwrite(&mut plain, &[7, 7, 7]), 3);
    assert_eq!(plain, vec![7, 7, 7]);
    assert_eq!(overwrite(&mut plain, &[5, 5, 5, 5, 5]), 5);
    assert_eq!(plain, vec![5, 5, 5, 5, 5]);
    assert_eq!(overwrite(&mut plain, &[]), 0);
    assert_eq!(plain, vec![5, 5, 5, 5, 5]);
}
