use eldenring::dltx::{
    decode_in, decoding_outcome, encoding_outcome, encode_in, DLAllocatorRef, DLCharacterSet, DLEucJpStringKind,
    DLISO8859_1StringKind, DLRawString, DLShiftJisStringKind, DLString, DLStringEncodingError,
    DLStringKind, DLUTF16StringKind, DLUTF32StringKind, DLUTF8StringKind, TextEncoding,
};
use std::marker::PhantomData;

fn utf16_ne(s: &str) -> Vec<u8> {
    s.encode_utf16().flat_map(|u| u.to_ne_bytes()).collect()
}

fn utf32_ne(s: &str) -> Vec<u8> {
    s.chars().flat_map(|c| (c as u32).to_ne_bytes()).collect()
}

#[test]
fn default_character_set_is_utf16() {
    assert_eq!(DLCharacterSet::default(), DLCharacterSet::UTF16);
    assert_eq!(DLCharacterSet::UTF16.code(), 1);
    assert_eq!(DLCharacterSet::UTF32.code(), 5);
}

#[test]
fn encodings_of_kinds() {
    assert_eq!(DLUTF8StringKind::encoding(), Some(TextEncoding::Utf8));
    assert_eq!(DLISO8859_1StringKind::encoding(), Some(TextEncoding::Windows1252));
    assert_eq!(DLShiftJisStringKind::encoding(), Some(TextEncoding::ShiftJis));
    assert_eq!(DLEucJpStringKind::encoding(), Some(TextEncoding::EucJp));
    assert_eq!(DLUTF16StringKind::encoding(), None);
    assert_eq!(DLUTF32StringKind::encoding(), None);
}

#[test]
fn utf16_encode_and_decode() {
    let s = "Tarnished \u{1F5E1} é";
    let bytes = DLUTF16StringKind::encode(s).unwrap();
    assert_eq!(bytes, utf16_ne(s));
    assert_eq!(DLUTF16StringKind::decode(&bytes).unwrap(), s);
}

#[test]
fn utf16_decode_errors() {
    // odd length
    assert_eq!(DLUTF16StringKind::decode(&[0x41]), Err(DLStringEncodingError::DecodeError));
    // unpaired high surrogate
    let lone: Vec<u8> = 0xD800u16.to_ne_bytes().to_vec();
    assert_eq!(DLUTF16StringKind::decode(&lone), Err(DLStringEncodingError::DecodeError));
    // unpaired low surrogate followed by a letter
    let mut low: Vec<u8> = 0xDC00u16.to_ne_bytes().to_vec();
    low.extend_from_slice(&0x41u16.to_ne_bytes());
    assert_eq!(DLUTF16StringKind::decode(&low), Err(DLStringEncodingError::DecodeError));
    assert_eq!(DLUTF16StringKind::decode(&[]).unwrap(), "");
}

#[test]
fn utf32_encode_and_decode() {
    let s = "Elden \u{10FFFF}";
    let bytes = DLUTF32StringKind::encode(s).unwrap();
    assert_eq!(bytes, utf32_ne(s));
    assert_eq!(DLUTF32StringKind::decode(&bytes).unwrap(), s);
}

#[test]
fn utf32_decode_errors() {
    assert_eq!(DLUTF32StringKind::decode(&[0, 0, 0]), Err(DLStringEncodingError::DecodeError));
    let surrogate: Vec<u8> = 0xD800u32.to_ne_bytes().to_vec();
    assert_eq!(DLUTF32StringKind::decode(&surrogate), Err(DLStringEncodingError::DecodeError));
    let too_big: Vec<u8> = 0x110000u32.to_ne_bytes().to_vec();
    assert_eq!(DLUTF32StringKind::decode(&too_big), Err(DLStringEncodingError::DecodeError));
}

#[test]
fn narrow_encodings() {
    assert_eq!(DLUTF8StringKind::encode("héllo").unwrap(), "héllo".as_bytes().to_vec());
    assert_eq!(DLISO8859_1StringKind::encode("café").unwrap(), vec![b'c', b'a', b'f', 0xE9]);
    assert_eq!(DLISO8859_1StringKind::decode(&[b'c', b'a', b'f', 0xE9]).unwrap(), "café");
    assert_eq!(DLShiftJisStringKind::encode("\u{3042}").unwrap(), vec![0x82, 0xA0]);
    assert_eq!(DLShiftJisStringKind::decode(&[0x82, 0xA0]).unwrap(), "\u{3042}");
    assert_eq!(DLEucJpStringKind::encode("\u{3042}").unwrap(), vec![0xA4, 0xA2]);
    assert_eq!(DLEucJpStringKind::decode(&[0xA4, 0xA2]).unwrap(), "\u{3042}");
    assert_eq!(DLEucJpStringKind::decode(b"plain").unwrap(), "plain");
}

#[test]
fn narrow_encoding_errors() {
    // a character that windows-1252 cannot hold
    assert_eq!(DLISO8859_1StringKind::encode("\u{3042}"), Err(DLStringEncodingError::EncodeError));
    // invalid UTF-8
    assert_eq!(DLUTF8StringKind::decode(&[0xFF, 0x41]), Err(DLStringEncodingError::DecodeError));
}

#[test]
fn encode_in_and_decode_in() {
    assert_eq!(encode_in(DLCharacterSet::UTF16, "A").unwrap(), utf16_ne("A"));
    assert_eq!(decode_in(DLCharacterSet::UTF8, b"abc").unwrap(), "abc");
}

#[test]
fn dl_string_round_trip() {
    let alloc = DLAllocatorRef { address: 0x1000 };
    let s: DLString = DLString::from_str(&alloc, "Roundtable Hold").unwrap();
    assert_eq!(s.to_str().unwrap(), "Roundtable Hold");
    let e: DLString<DLUTF32StringKind> = DLString::new(&alloc);
    assert_eq!(e.to_str().unwrap(), "");
    let wide_again: DLString = DLString::copy(&alloc, &s).unwrap();
    assert_eq!(wide_again.to_str().unwrap(), "Roundtable Hold");
    // copy decodes the other string's bytes with its own kind's character set
    let narrow: DLString<DLISO8859_1StringKind> = DLString::copy(&alloc, &s).unwrap();
    let expected: String = "Roundtable Hold".chars().flat_map(|c| [c, '\0']).collect();
    assert_eq!(narrow.to_str().unwrap(), expected);
    let bad = DLString::<DLISO8859_1StringKind>::from_str(&alloc, "\u{3042}");
    assert!(matches!(bad, Err(DLStringEncodingError::EncodeError)));
}

#[test]
fn dl_string_copy_decodes_with_its_own_kind() {
    let alloc = DLAllocatorRef { address: 0 };
    // three UTF-8 bytes are no whole UTF-16 string
    let s: DLString<DLUTF8StringKind> = DLString::from_str(&alloc, "abc").unwrap();
    let copied = DLString::<DLUTF16StringKind>::copy(&alloc, &s);
    assert!(matches!(copied, Err(DLStringEncodingError::DecodeError)));
}

#[test]
fn raw_string_to_str() {
    let raw: DLRawString = DLRawString {
        backing_string: Some(utf16_ne("Margit and more")),
        length: 6,
        unk18: 0,
        char_size: 2,
        encoding: DLCharacterSet::UTF16,
        flags: 0,
        kind: PhantomData,
    };
    assert!(!raw.is_empty());
    assert_eq!(raw.to_str().unwrap(), "Margit");
    let none: DLRawString<DLUTF8StringKind> = DLRawString {
        backing_string: None,
        length: 0,
        unk18: 0,
        char_size: 1,
        encoding: DLCharacterSet::UTF8,
        flags: 0,
        kind: PhantomData,
    };
    assert!(none.is_empty());
    assert_eq!(none.to_str().unwrap(), "");
}

#[test]
fn encoding_and_decoding_outcomes() {
    assert_eq!(encoding_outcome(vec![1, 2], false), Ok(vec![1, 2]));
    assert_eq!(encoding_outcome(vec![1, 2], true), Err(DLStringEncodingError::EncodeError));
    assert_eq!(decoding_outcome("ab".to_string(), false), Ok("ab".to_string()));
    assert_eq!(decoding_outcome("ab".to_string(), true), Err(DLStringEncodingError::DecodeError));
}

#[test]
fn utf8_round_trips_non_ascii_text() {
    let alloc = DLAllocatorRef { address: 0 };
    let s: DLString<DLUTF8StringKind> = DLString::from_str(&alloc, "Ranni ルーン ☃ 𝄞").unwrap();
    assert_eq!(s.to_str().unwrap(), "Ranni ルーン ☃ 𝄞");
    assert_eq!(DLUTF8StringKind::encode("é").unwrap(), vec![0xC3, 0xA9]);
    assert_eq!(DLUTF8StringKind::decode(&[0xC3, 0xA9]).unwrap(), "é");
    // A leading U+FEFF is taken for a byte order mark and dropped.
    let bom: DLString<DLUTF8StringKind> = DLString::from_str(&alloc, "\u{FEFF}a").unwrap();
    assert_eq!(bom.to_str().unwrap(), "a");
}
