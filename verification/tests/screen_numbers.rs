use sokoban::game::screen::utils::number_to_string_leading_ascii;
use sokoban::text::{repeat_char, u64_padded, u64_to_string};

#[test]
fn normal_numbers() {
    for i in 0..10 {
        assert_eq!(number_to_string_leading_ascii(1, i, false), i.to_string());
    }

    for i in (0..100).step_by(5) {
        assert_eq!(number_to_string_leading_ascii(2, i, false), format!("{:2}", i));
    }
    assert_eq!(number_to_string_leading_ascii(2, 9, false), " 9");
    assert_eq!(number_to_string_leading_ascii(2, 99, false), "99");

    for i in (0..1000).step_by(50) {
        assert_eq!(number_to_string_leading_ascii(3, i, false), format!("{:3}", i));
    }
    assert_eq!(number_to_string_leading_ascii(3, 9, false), "  9");
    assert_eq!(number_to_string_leading_ascii(3, 99, false), " 99");
    assert_eq!(number_to_string_leading_ascii(3, 999, false), "999");

    for i in (0..10000).step_by(500) {
        assert_eq!(number_to_string_leading_ascii(4, i, false), format!("{:4}", i));
    }
    assert_eq!(number_to_string_leading_ascii(4, 9, false), "   9");
    assert_eq!(number_to_string_leading_ascii(4, 99, false), "  99");
    assert_eq!(number_to_string_leading_ascii(4, 999, false), " 999");
    assert_eq!(number_to_string_leading_ascii(4, 9999, false), "9999");
}

#[test]
fn normal_numbers_leading_zeros() {
    for i in 0..10 {
        assert_eq!(number_to_string_leading_ascii(1, i, true), i.to_string());
    }

    for i in (0..100).step_by(5) {
        assert_eq!(number_to_string_leading_ascii(2, i, true), format!("{:02}", i));
    }
    assert_eq!(number_to_string_leading_ascii(2, 9, true), "09");
    assert_eq!(number_to_string_leading_ascii(2, 99, true), "99");

    for i in (0..1000).step_by(50) {
        assert_eq!(number_to_string_leading_ascii(3, i, true), format!("{:03}", i));
    }
    assert_eq!(number_to_string_leading_ascii(3, 9, true), "009");
    assert_eq!(number_to_string_leading_ascii(3, 99, true), "099");
    assert_eq!(number_to_string_leading_ascii(3, 999, true), "999");

    for i in (0..10000).step_by(500) {
        assert_eq!(number_to_string_leading_ascii(4, i, true), format!("{:04}", i));
    }
    assert_eq!(number_to_string_leading_ascii(4, 9, true), "0009");
    assert_eq!(number_to_string_leading_ascii(4, 99, true), "0099");
    assert_eq!(number_to_string_leading_ascii(4, 999, true), "0999");
    assert_eq!(number_to_string_leading_ascii(4, 9999, true), "9999");
}

#[test]
fn number_with_leading_ascii() {
    for i in 10..36 {
        assert_eq!(
            number_to_string_leading_ascii(1, i, false),
            ((b'A' + (i - 10) as u8) as char).to_string()
        );
    }

    for i in (100..360).step_by(10) {
        assert_eq!(
            number_to_string_leading_ascii(2, i, false),
            ((b'A' + (i / 10 - 10) as u8) as char).to_string() + "0"
        );
    }

    for i in (109..369).step_by(10) {
        assert_eq!(
            number_to_string_leading_ascii(2, i, false),
            ((b'A' + (i / 10 - 10) as u8) as char).to_string() + "9"
        );
    }

    for i in (1000..3600).step_by(100) {
        assert_eq!(
            number_to_string_leading_ascii(3, i, false),
            ((b'A' + (i / 100 - 10) as u8) as char).to_string() + "00"
        );
    }

    for i in (1099..3699).step_by(100) {
        assert_eq!(
            number_to_string_leading_ascii(3, i, false),
            ((b'A' + (i / 100 - 10) as u8) as char).to_string() + "99"
        );
    }

    for i in (10000..36000).step_by(1000) {
        assert_eq!(
            number_to_string_leading_ascii(4, i, false),
            ((b'A' + (i / 1000 - 10) as u8) as char).to_string() + "000"
        );
    }

    for i in (10999..36999).step_by(1000) {
        assert_eq!(
            number_to_string_leading_ascii(4, i, false),
            ((b'A' + (i / 1000 - 10) as u8) as char).to_string() + "999"
        );
    }
}

#[test]
fn padded_numbers_keep_wide_values() {
    assert_eq!(u64_to_string(0), "0");
    assert_eq!(u64_to_string(40790), "40790");
    assert_eq!(u64_to_string(u64::MAX), u64::MAX.to_string());

    assert_eq!(u64_padded(7, 4, true), "0007");
    assert_eq!(u64_padded(7, 4, false), "   7");
    // Numbers wider than the column count keep all their digits.
    assert_eq!(u64_padded(12345, 2, true), "12345");
    assert_eq!(u64_padded(12345, 2, false), "12345");
}

#[test]
fn repeat_char_builds_runs() {
    assert_eq!(repeat_char('.', 0), "");
    assert_eq!(repeat_char('.', 5), ".....");
    assert_eq!(repeat_char(' ', 3), "   ");
}
