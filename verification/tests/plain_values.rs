//! Numbers, texts, bytes and records.

use infovulcan::admin::profile_key;
use infovulcan::bytes::{before, next_counter, read_be8, same_bytes, to_be8};
use infovulcan::raft::types::copy_texts;
use infovulcan::text::{
    blank, concat2, decimal, decimal_signed, join, read_i32, read_i64, read_unsigned, same,
    text_before, trim,
};

#[test]
fn numbers_cross_their_eight_bytes_in_order() {
    let numbers = [0, 1, 255, 256, 1 << 32, u64::MAX - 1, u64::MAX];
    for n in numbers {
        assert_eq!(to_be8(n), n.to_be_bytes().to_vec());
        assert_eq!(read_be8(&to_be8(n)), Some(n));
        for m in numbers {
            assert_eq!(before(&to_be8(n), &to_be8(m)), n < m);
        }
    }
    assert_eq!(read_be8(&[1, 2, 3]), None);
}

#[test]
fn bytes_are_ordered_like_words() {
    assert!(before(b"", b"a"));
    assert!(before(b"a", b"aa"));
    assert!(before(b"ab", b"b"));
    assert!(!before(b"a", b"a"));
    assert!(same_bytes(b"ab", b"ab"));
    assert!(!same_bytes(b"ab", b"abc"));
}

#[test]
fn counters_step_up_to_the_last_number() {
    assert_eq!(next_counter(None), 1u64.to_be_bytes().to_vec());
    assert_eq!(
        next_counter(Some(&7u64.to_be_bytes())),
        8u64.to_be_bytes().to_vec()
    );
    assert_eq!(
        next_counter(Some(&u64::MAX.to_be_bytes())),
        u64::MAX.to_be_bytes().to_vec()
    );
    assert_eq!(next_counter(Some(b"x")), 1u64.to_be_bytes().to_vec());
}

#[test]
fn numbers_are_written_in_decimal_and_read_back() {
    for n in [0, 9, 10, 12_345, u64::MAX] {
        assert_eq!(decimal(n), n.to_string());
        assert_eq!(read_unsigned(&decimal(n), u64::MAX), Some(n));
    }
    for n in [0, -1, 42, i64::MIN, i64::MAX] {
        assert_eq!(decimal_signed(n), n.to_string());
        assert_eq!(read_i64(&decimal_signed(n)), Some(n));
    }
}

#[test]
fn numbers_are_read_as_the_standard_library_reads_them() {
    for text in [
        "", "+", "-", "+5", "-5", "--5", "+-5", "5 ", "5a", "007", "-0", "2147483647",
        "2147483648", "-2147483648", "-2147483649", "９",
    ] {
        assert_eq!(read_i32(text), text.parse::<i32>().ok(), "{text:?}");
    }
    for text in [
        "", "+", "+7", "-0", "-7", "18446744073709551615", "18446744073709551616",
        "99999999999999999999999",
    ] {
        assert_eq!(read_unsigned(text, u64::MAX), text.parse::<u64>().ok(), "{text:?}");
    }
    assert_eq!(read_unsigned("4294967296", 4_294_967_295), None);
}

#[test]
fn texts_are_trimmed_as_the_standard_library_trims_them() {
    for text in [
        "", " ", " a ", "\u{a0}a b\u{3000}", "\t\n\u{b}\u{c}\r x\u{85}", "\u{200b}a", "\u{1680}\u{2028}",
    ] {
        assert_eq!(trim(text), text.trim(), "{text:?}");
        assert_eq!(blank(text), text.trim().is_empty(), "{text:?}");
    }
    for code in 0..0x3100u32 {
        if let Some(c) = char::from_u32(code) {
            assert_eq!(blank(&c.to_string()), c.is_whitespace(), "{code:x}");
        }
    }
}

#[test]
fn texts_are_compared_and_joined() {
    assert!(same("é", "é"));
    assert!(!same("e", "é"));
    assert_eq!(text_before("a", "é"), "a" < "é");
    assert_eq!(text_before("é", "a"), "é" < "a");
    assert!(!text_before("a", "a"));
    assert_eq!(concat2("a", "b"), "ab");
    let parts = vec!["a".to_string(), "b".to_string(), "".to_string()];
    assert_eq!(join(&parts, "&"), "a&b&");
    assert_eq!(join(&vec![], "&"), "");
    assert_eq!(copy_texts(&parts), parts);
}

#[test]
fn users_have_keys_of_their_own() {
    let ids = [0, 1, 1 << 64, u128::MAX];
    for a in ids {
        for b in ids {
            assert_eq!(profile_key(a) == profile_key(b), a == b);
        }
    }
}
