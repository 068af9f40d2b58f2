use codex_sandbox::native::{NativePath, NativeString, PathComponent};
use codex_sandbox::order::{key_comes_first, sort_without_repeats};
use codex_sandbox::text::{
    decimal_string, join, padded_upper_hex_string, padded_upper_hex_string16, prefixed_hex_string,
    signed_decimal_string,
};
use codex_sandbox::utf16::{decode_utf16, encode_utf16, show_utf16};

#[test]
fn numbers_are_written_as_the_host_writes_them() {
    for value in [0, 9, 10, 65535, u64::MAX] {
        assert_eq!(decimal_string(value), value.to_string());
        assert_eq!(prefixed_hex_string(value), format!("0x{value:x}"));
    }
    for value in [0, -1, i32::MIN, i32::MAX] {
        assert_eq!(signed_decimal_string(value), value.to_string());
    }
    assert_eq!(padded_upper_hex_string(0x8032_000a), "8032000A");
    assert_eq!(padded_upper_hex_string16(0xab), "00AB");
}

#[test]
fn texts_are_joined() {
    let texts = vec!["a".to_string(), "b".to_string(), "c".to_string()];
    assert_eq!(join(&texts, ", "), "a, b, c");
    assert_eq!(join(&Vec::new(), ", "), "");
}

#[test]
fn native_strings_are_shown_lossily() {
    assert_eq!(NativeString::from_text("plain").display(), "plain");
    assert_eq!(NativeString::Bytes(vec![b'a', 0xff, b'b']).display(), "a\u{fffd}b");
    assert_eq!(NativeString::Wide(vec![0x61, 0xd800, 0x62]).display(), "a\u{fffd}b");
    assert_eq!(NativeString::from_text("plain").to_text().map(String::as_str), Some("plain"));
    assert!(NativeString::Wide(vec![0xd800]).to_text().is_none());
    assert!(NativeString::from_text("a\0").has_nul());
    assert!(NativeString::Bytes(vec![0, 0xff]).has_nul());
    assert!(NativeString::from_text("").is_empty());
}

#[test]
fn utf16_is_decoded_back_to_the_same_text() {
    for text in ["", "plain", "ä€", "😀 pair"] {
        let units = encode_utf16(text);
        assert_eq!(units, text.encode_utf16().collect::<Vec<u16>>());
        assert_eq!(decode_utf16(&units).as_deref(), Some(text));
    }
    assert_eq!(decode_utf16(&vec![0xd800]), None);
    assert_eq!(decode_utf16(&vec![0xdc00, 0xd800]), None);
    assert_eq!(decode_utf16(&vec![0xd83d, 0xde00]).as_deref(), Some("😀"));
}

fn path(text: &str) -> NativePath {
    let mut components = vec![PathComponent::RootDir];
    for name in text.split('/').filter(|name| !name.is_empty()) {
        components.push(PathComponent::Normal(NativeString::from_text(name)));
    }
    NativePath { text: NativeString::from_text(text), absolute: true, components }
}

#[test]
fn wide_names_compare_by_their_encoded_bytes() {
    let wide = |units: Vec<u16>| NativePath {
        text: NativeString::Wide(units.clone()),
        absolute: true,
        components: vec![PathComponent::RootDir, PathComponent::Normal(NativeString::Wide(units))],
    };
    let pair = || wide(vec![0xd83d, 0xde00, 0xd800]);
    let private = || wide(vec![0xe000, 0xd800]);
    let lone = || wide(vec![0xd800]);
    let sorted = sort_without_repeats(vec![pair(), private(), lone(), path("/a"), path("/\u{fffd}")]);
    assert_eq!(sorted, [path("/a"), lone(), private(), path("/\u{fffd}"), pair()]);
}

#[test]
fn units_without_partner_are_replaced() {
    let units = vec![0xD834, 0xDD1E, 0x6d, 0xDD1E, 0x69, 0xD834];
    assert_eq!(show_utf16(&units), String::from_utf16_lossy(&units));
    assert_eq!(show_utf16(&vec![0xd800, 0xd83d, 0xde00]), "\u{fffd}😀");
    assert_eq!(show_utf16(&Vec::new()), "");
}

#[test]
fn paths_are_sorted_and_repeated_ones_dropped() {
    let sorted = sort_without_repeats(vec![path("/b"), path("/a/b"), path("/a"), path("/b/"), path("/a-b")]);
    assert_eq!(sorted, [path("/a"), path("/a/b"), path("/a-b"), path("/b")]);
    assert!(path("/a/b").starts_with(&path("/a")));
    assert!(!path("/ab").starts_with(&path("/a")));
    assert!(path("/b/").same_path(&path("/b")));
    assert!(key_comes_first(&vec![1], &vec![1, 0]));
    assert!(!key_comes_first(&vec![2], &vec![1, 9]));
}
