use vstd::prelude::*;
use vstd::utf8::{decode_utf8, encode_utf8, is_ascii_chars, valid_utf8};
use core::marker::PhantomData;
use crate::unicode::{
    units16_ne_bytes, utf16_units, units32_ne_bytes, scalar_values, ne_units16, ne_units32,
    utf16_decode, utf32_decode, encode_utf16_ne, encode_utf32_ne, bytes_to_units16_ne,
    bytes_to_units32_ne, decode_utf16_units, decode_utf32_units, string_from_chars,
    lemma_ne_units16_round_trip, lemma_ne_units32_round_trip, lemma_units16_ne_bytes_len,
    lemma_units32_ne_bytes_len, lemma_utf16_round_trip, lemma_utf32_round_trip,
    lemma_utf16_units_of_decode, lemma_units16_ne_bytes_of_units, lemma_units32_ne_bytes_of_units,
    lemma_scalar_values_of_decode,
};

verus! {

/// Handle to one of the game's allocators, by the address of its allocator object.
#[derive(Clone, Copy)]
pub struct DLAllocatorRef {
    pub address: usize,
}

/// Character sets that the game's strings are stored in.
#[derive(Debug, Clone, Copy, PartialEq, Eq, Structural)]
pub enum DLCharacterSet {
    UTF8,
    UTF16,
    Iso8859_1,
    ShiftJis,
    EucJp,
    UTF32,
}

impl Default for DLCharacterSet {
    fn default() -> (r: Self)
        ensures
            r == DLCharacterSet::UTF16,
    {
        DLCharacterSet::UTF16
    }
}

/// The number the game uses for each character set.
pub open spec fn charset_code(c: DLCharacterSet) -> u8 {
    match c {
        DLCharacterSet::UTF8 => 0,
        DLCharacterSet::UTF16 => 1,
        DLCharacterSet::Iso8859_1 => 2,
        DLCharacterSet::ShiftJis => 3,
        DLCharacterSet::EucJp => 4,
        DLCharacterSet::UTF32 => 5,
    }
}

impl DLCharacterSet {
    /// The number the game uses for this character set.
    pub fn code(&self) -> (r: u8)
        ensures
            r == charset_code(*self),
    {
        match self {
            DLCharacterSet::UTF8 => 0,
            DLCharacterSet::UTF16 => 1,
            DLCharacterSet::Iso8859_1 => 2,
            DLCharacterSet::ShiftJis => 3,
            DLCharacterSet::EucJp => 4,
            DLCharacterSet::UTF32 => 5,
        }
    }
}

/// Errors of converting between Rust strings and the game's encoded strings.
#[derive(Debug, PartialEq, Eq, Structural)]
pub enum DLStringEncodingError {
    InvalidEncoding { expected: DLCharacterSet, actual: u8 },
    DecodeError,
    EncodeError,
    UnsupportedEncoding(u8),
}

/// The encodings of `encoding_rs` that the game's narrow character sets are coded with.
#[derive(Debug, Clone, Copy, PartialEq, Eq, Structural)]
pub enum TextEncoding {
    Utf8,
    Windows1252,
    ShiftJis,
    EucJp,
}

/// The `encoding_rs` encoding of a character set; UTF-16 and UTF-32 are coded by hand.
pub open spec fn encoding_of(c: DLCharacterSet) -> Option<TextEncoding> {
    match c {
        DLCharacterSet::UTF8 => Some(TextEncoding::Utf8),
        DLCharacterSet::Iso8859_1 => Some(TextEncoding::Windows1252),
        DLCharacterSet::ShiftJis => Some(TextEncoding::ShiftJis),
        DLCharacterSet::EucJp => Some(TextEncoding::EucJp),
        DLCharacterSet::UTF16 | DLCharacterSet::UTF32 => None,
    }
}

/// The result of `Encoding::encode` of `encoding_rs` on `s`: the bytes and whether some
/// character could not be mapped.
pub uninterp spec fn encoding_rs_encode(encoding: TextEncoding, s: Seq<char>) -> (Seq<u8>, bool);

/// The result of `Encoding::decode` of `encoding_rs` on `bytes`: the text and whether some
/// malformed sequence was replaced.
pub uninterp spec fn encoding_rs_decode(encoding: TextEncoding, bytes: Seq<u8>) -> (Seq<char>, bool);

pub open spec fn all_ascii_bytes(bytes: Seq<u8>) -> bool {
    forall|i: int| 0 <= i < bytes.len() ==> #[trigger] bytes[i] < 0x80
}

pub open spec fn ascii_chars_of(bytes: Seq<u8>) -> Seq<char> {
    bytes.map_values(|b: u8| b as char)
}

/// `Encoding::encode` of `encoding_rs` on the encoding's static. What it gives is named by
/// `encoding_rs_encode`; the source also shows that UTF-8, and any encoding on an ASCII-only
/// string, hands back the string's own bytes without errors. Which bytes the other encodings
/// write for other characters is left unsaid.
#[verifier::external_body]
fn text_encode(encoding: TextEncoding, s: &str) -> (r: (Vec<u8>, bool))
    ensures
        (r.0@, r.1) == encoding_rs_encode(encoding, s@),
        encoding == TextEncoding::Utf8 ==> r.0@ == encode_utf8(s@) && !r.1,
        is_ascii_chars(s@) ==> r.0@ == encode_utf8(s@) && !r.1,
{
    let e = match encoding {
        TextEncoding::Utf8 => encoding_rs::UTF_8,
        TextEncoding::Windows1252 => encoding_rs::WINDOWS_1252,
        TextEncoding::ShiftJis => encoding_rs::SHIFT_JIS,
        TextEncoding::EucJp => encoding_rs::EUC_JP,
    };
    let (bytes, _, had_errors) = e.encode(s);
    (bytes.into_owned(), had_errors)
}

/// `Encoding::decode` of `encoding_rs` on the encoding's static. What it gives is named by
/// `encoding_rs_decode`; the source also shows that ASCII-only input is handed back as its
/// characters without errors, and that valid UTF-8 without a byte order mark decodes as UTF-8
/// does. Byte order mark sniffing and the other encodings' tables are left unsaid.
#[verifier::external_body]
fn text_decode(encoding: TextEncoding, bytes: &[u8]) -> (r: (String, bool))
    ensures
        (r.0@, r.1) == encoding_rs_decode(encoding, bytes@),
        all_ascii_bytes(bytes@) ==> r.0@ == ascii_chars_of(bytes@) && !r.1,
        encoding == TextEncoding::Utf8 && valid_utf8(bytes@) && !starts_with_utf8_bom(bytes@)
            ==> r.0@ == decode_utf8(bytes@) && !r.1,
{
    let e = match encoding {
        TextEncoding::Utf8 => encoding_rs::UTF_8,
        TextEncoding::Windows1252 => encoding_rs::WINDOWS_1252,
        TextEncoding::ShiftJis => encoding_rs::SHIFT_JIS,
        TextEncoding::EucJp => encoding_rs::EUC_JP,
    };
    let (text, _, had_errors) = e.decode(bytes);
    (text.into_owned(), had_errors)
}

/// What encoding `s` in character set `c` gives.
pub open spec fn encoded(c: DLCharacterSet, s: Seq<char>) -> Result<Seq<u8>, DLStringEncodingError> {
    match c {
        DLCharacterSet::UTF8 => Ok(encode_utf8(s)),
        DLCharacterSet::UTF16 => Ok(units16_ne_bytes(utf16_units(s))),
        DLCharacterSet::UTF32 => Ok(units32_ne_bytes(scalar_values(s))),
        _ => match encoding_of(c) {
            None => Err(DLStringEncodingError::UnsupportedEncoding(charset_code(c))),
            Some(e) => if encoding_rs_encode(e, s).1 {
                Err(DLStringEncodingError::EncodeError)
            } else {
                Ok(encoding_rs_encode(e, s).0)
            },
        },
    }
}

/// Whether bytes start with the UTF-8 byte order mark, which `encoding_rs` strips when it
/// decodes.
pub open spec fn starts_with_utf8_bom(bytes: Seq<u8>) -> bool {
    bytes.len() >= 3 && bytes[0] == 0xEF && bytes[1] == 0xBB && bytes[2] == 0xBF
}

/// What decoding `bytes` in character set `c` gives.
pub open spec fn decoded(c: DLCharacterSet, bytes: Seq<u8>) -> Result<Seq<char>, DLStringEncodingError> {
    match c {
        DLCharacterSet::UTF8 => if valid_utf8(bytes) && !starts_with_utf8_bom(bytes) {
            Ok(decode_utf8(bytes))
        } else if encoding_rs_decode(TextEncoding::Utf8, bytes).1 {
            Err(DLStringEncodingError::DecodeError)
        } else {
            Ok(encoding_rs_decode(TextEncoding::Utf8, bytes).0)
        },
        DLCharacterSet::UTF16 => if bytes.len() % 2 != 0 {
            Err(DLStringEncodingError::DecodeError)
        } else {
            match utf16_decode(ne_units16(bytes)) {
                Some(cs) => Ok(cs),
                None => Err(DLStringEncodingError::DecodeError),
            }
        },
        DLCharacterSet::UTF32 => if bytes.len() % 4 != 0 {
            Err(DLStringEncodingError::DecodeError)
        } else {
            match utf32_decode(ne_units32(bytes)) {
                Some(cs) => Ok(cs),
                None => Err(DLStringEncodingError::DecodeError),
            }
        },
        _ => match encoding_of(c) {
            None => Err(DLStringEncodingError::UnsupportedEncoding(charset_code(c))),
            Some(e) => if encoding_rs_decode(e, bytes).1 {
                Err(DLStringEncodingError::DecodeError)
            } else {
                Ok(encoding_rs_decode(e, bytes).0)
            },
        },
    }
}

pub open spec fn bytes_result_view(r: Result<Vec<u8>, DLStringEncodingError>) -> Result<Seq<u8>, DLStringEncodingError> {
    match r {
        Ok(v) => Ok(v@),
        Err(e) => Err(e),
    }
}

pub open spec fn string_result_view(r: Result<String, DLStringEncodingError>) -> Result<Seq<char>, DLStringEncodingError> {
    match r {
        Ok(s) => Ok(s@),
        Err(e) => Err(e),
    }
}

/// The `encoding_rs` encoding of a character set.
pub fn encoding_for(c: DLCharacterSet) -> (r: Option<TextEncoding>)
    ensures
        r == encoding_of(c),
{
    match c {
        DLCharacterSet::UTF8 => Some(TextEncoding::Utf8),
        DLCharacterSet::Iso8859_1 => Some(TextEncoding::Windows1252),
        DLCharacterSet::ShiftJis => Some(TextEncoding::ShiftJis),
        DLCharacterSet::EucJp => Some(TextEncoding::EucJp),
        // These two are handled separately
        DLCharacterSet::UTF16 | DLCharacterSet::UTF32 => None,
    }
}

/// The outcome of an `encoding_rs` encode: the bytes, or an encode error when some character
/// could not be mapped.
pub fn encoding_outcome(bytes: Vec<u8>, had_errors: bool) -> (r: Result<Vec<u8>, DLStringEncodingError>)
    ensures
        bytes_result_view(r) == (if had_errors {
            Err(DLStringEncodingError::EncodeError)
        } else {
            Ok(bytes@)
        }),
{
    if had_errors {
        Err(DLStringEncodingError::EncodeError)
    } else {
        Ok(bytes)
    }
}

/// The outcome of an `encoding_rs` decode: the text, or a decode error when some sequence was
/// malformed.
pub fn decoding_outcome(text: String, had_errors: bool) -> (r: Result<String, DLStringEncodingError>)
    ensures
        string_result_view(r) == (if had_errors {
            Err(DLStringEncodingError::DecodeError)
        } else {
            Ok(text@)
        }),
{
    if had_errors {
        Err(DLStringEncodingError::DecodeError)
    } else {
        Ok(text)
    }
}

/// Encodes `s` in character set `c`.
pub fn encode_in(c: DLCharacterSet, s: &str) -> (r: Result<Vec<u8>, DLStringEncodingError>)
    ensures
        bytes_result_view(r) == encoded(c, s@),
        encoding_of(c) is Some && is_ascii_chars(s@) ==> (r matches Ok(b) && b@ == encode_utf8(s@)),
        c == DLCharacterSet::UTF8 ==> (r matches Ok(b) && b@ == encode_utf8(s@)),
{
    match c {
        DLCharacterSet::UTF16 => Ok(encode_utf16_ne(s)),
        DLCharacterSet::UTF32 => Ok(encode_utf32_ne(s)),
        _ => {
            let encoding = match encoding_for(c) {
                Some(e) => e,
                None => {
                    return Err(DLStringEncodingError::UnsupportedEncoding(c.code()));
                },
            };
            let (bytes, had_errors) = text_encode(encoding, s);
            encoding_outcome(bytes, had_errors)
        },
    }
}

/// Decodes `bytes` from character set `c`.
pub fn decode_in(c: DLCharacterSet, bytes: &[u8]) -> (r: Result<String, DLStringEncodingError>)
    ensures
        string_result_view(r) == decoded(c, bytes@),
        encoding_of(c) is Some && all_ascii_bytes(bytes@) ==> (r matches Ok(t) && t@
            == ascii_chars_of(bytes@)),
        c == DLCharacterSet::UTF8 && valid_utf8(bytes@) && !starts_with_utf8_bom(bytes@) ==> (r matches Ok(
            t,
        ) && t@ == decode_utf8(bytes@)),
{
    match c {
        DLCharacterSet::UTF16 => {
            if bytes.len() % 2 != 0 {
                return Err(DLStringEncodingError::DecodeError);
            }
            let units = bytes_to_units16_ne(bytes);
            match decode_utf16_units(&units) {
                Some(chars) => Ok(string_from_chars(&chars)),
                None => Err(DLStringEncodingError::DecodeError),
            }
        },
        DLCharacterSet::UTF32 => {
            if bytes.len() % 4 != 0 {
                return Err(DLStringEncodingError::DecodeError);
            }
            let units = bytes_to_units32_ne(bytes);
            match decode_utf32_units(&units) {
                Some(chars) => Ok(string_from_chars(&chars)),
                None => Err(DLStringEncodingError::DecodeError),
            }
        },
        _ => {
            let encoding = match encoding_for(c) {
                Some(e) => e,
                None => {
                    return Err(DLStringEncodingError::UnsupportedEncoding(c.code()));
                },
            };
            let (text, had_errors) = text_decode(encoding, bytes);
            decoding_outcome(text, had_errors)
        },
    }
}

/// A kind of game string: the character set it is stored in.
pub trait DLStringKind: Sized {
    /// The character set of strings of this kind.
    spec fn charset() -> DLCharacterSet;

    /// The character set of strings of this kind.
    fn character_set() -> (r: DLCharacterSet)
        ensures
            r == Self::charset(),
    ;

    /// The `encoding_rs` encoding of this kind, `None` for the two that are coded by hand.
    fn encoding() -> (r: Option<TextEncoding>)
        ensures
            r == encoding_of(Self::charset()),
    {
        encoding_for(Self::character_set())
    }

    fn encode(s: &str) -> (r: Result<Vec<u8>, DLStringEncodingError>)
        ensures
            bytes_result_view(r) == encoded(Self::charset(), s@),
            encoding_of(Self::charset()) is Some && is_ascii_chars(s@) ==> (r matches Ok(b) && b@
                == encode_utf8(s@)),
            Self::charset() == DLCharacterSet::UTF8 ==> (r matches Ok(b) && b@ == encode_utf8(s@)),
    {
        encode_in(Self::character_set(), s)
    }

    fn decode(s: &[u8]) -> (r: Result<String, DLStringEncodingError>)
        ensures
            string_result_view(r) == decoded(Self::charset(), s@),
            encoding_of(Self::charset()) is Some && all_ascii_bytes(s@) ==> (r matches Ok(t) && t@
                == ascii_chars_of(s@)),
            Self::charset() == DLCharacterSet::UTF8 && valid_utf8(s@) && !starts_with_utf8_bom(s@)
                ==> (r matches Ok(t) && t@ == decode_utf8(s@)),
    {
        decode_in(Self::character_set(), s)
    }
}

pub struct DLUTF8StringKind;

impl DLStringKind for DLUTF8StringKind {
    open spec fn charset() -> DLCharacterSet {
        DLCharacterSet::UTF8
    }

    fn character_set() -> (r: DLCharacterSet) {
        DLCharacterSet::UTF8
    }
}

pub struct DLISO8859_1StringKind;

impl DLStringKind for DLISO8859_1StringKind {
    open spec fn charset() -> DLCharacterSet {
        DLCharacterSet::Iso8859_1
    }

    fn character_set() -> (r: DLCharacterSet) {
        DLCharacterSet::Iso8859_1
    }
}

pub struct DLShiftJisStringKind;

impl DLStringKind for DLShiftJisStringKind {
    open spec fn charset() -> DLCharacterSet {
        DLCharacterSet::ShiftJis
    }

    fn character_set() -> (r: DLCharacterSet) {
        DLCharacterSet::ShiftJis
    }
}

pub struct DLEucJpStringKind;

impl DLStringKind for DLEucJpStringKind {
    open spec fn charset() -> DLCharacterSet {
        DLCharacterSet::EucJp
    }

    fn character_set() -> (r: DLCharacterSet) {
        DLCharacterSet::EucJp
    }
}

pub struct DLUTF16StringKind;

impl DLStringKind for DLUTF16StringKind {
    open spec fn charset() -> DLCharacterSet {
        DLCharacterSet::UTF16
    }

    fn character_set() -> (r: DLCharacterSet) {
        DLCharacterSet::UTF16
    }
}

pub struct DLUTF32StringKind;

impl DLStringKind for DLUTF32StringKind {
    open spec fn charset() -> DLCharacterSet {
        DLCharacterSet::UTF32
    }

    fn character_set() -> (r: DLCharacterSet) {
        DLCharacterSet::UTF32
    }
}

/// Decoding what UTF-16 encoding wrote gives the text back.
pub proof fn lemma_utf16_encode_decode(s: Seq<char>)
    ensures
        encoded(DLCharacterSet::UTF16, s) matches Ok(b) && decoded(DLCharacterSet::UTF16, b)
            == Ok::<Seq<char>, DLStringEncodingError>(s),
{
    let us = utf16_units(s);
    lemma_units16_ne_bytes_len(us);
    lemma_ne_units16_round_trip(us);
    lemma_utf16_round_trip(s);
    assert((2 * us.len()) % 2 == 0);
}

/// Decoding what UTF-32 encoding wrote gives the text back.
pub proof fn lemma_utf32_encode_decode(s: Seq<char>)
    ensures
        encoded(DLCharacterSet::UTF32, s) matches Ok(b) && decoded(DLCharacterSet::UTF32, b)
            == Ok::<Seq<char>, DLStringEncodingError>(s),
{
    let us = scalar_values(s);
    lemma_units32_ne_bytes_len(us);
    lemma_ne_units32_round_trip(us);
    lemma_utf32_round_trip(s);
    assert((4 * us.len()) % 4 == 0);
}

/// UTF-8 text that does not start with U+FEFF encodes to bytes that do not start with the
/// byte order mark.
proof fn lemma_utf8_no_bom(s: Seq<char>)
    requires
        !(s.len() > 0 && s[0] == '\u{FEFF}'),
    ensures
        !starts_with_utf8_bom(encode_utf8(s)),
{
    let b = encode_utf8(s);
    if s.len() > 0 && starts_with_utf8_bom(b) {
        vstd::utf8::encode_utf8_first_scalar(s);
        assert(vstd::utf8::codepoint_width_3(0xEFu8, 0xBBu8, 0xBFu8) == 0xFEFFu32) by (bit_vector);
        assert(vstd::utf8::decode_first_scalar(b) == 0xFEFFu32);
        vstd::utf8::char_u32_cast(s[0], 0xFEFFu32);
        vstd::utf8::char_u32_cast('\u{FEFF}', 0xFEFFu32);
    }
}

/// Decoding what UTF-8 encoding wrote gives the text back, unless the text starts with
/// U+FEFF, which decoding takes for a byte order mark and drops.
pub proof fn lemma_utf8_encode_decode(s: Seq<char>)
    requires
        !(s.len() > 0 && s[0] == '\u{FEFF}'),
    ensures
        encoded(DLCharacterSet::UTF8, s) matches Ok(b) && decoded(DLCharacterSet::UTF8, b)
            == Ok::<Seq<char>, DLStringEncodingError>(s),
{
    lemma_utf8_no_bom(s);
    vstd::utf8::encode_utf8_valid_utf8(s);
    vstd::utf8::encode_utf8_decode_utf8(s);
}

/// Bytes per code unit of a character set: two for UTF-16, four for UTF-32, one otherwise.
pub open spec fn code_unit_size(c: DLCharacterSet) -> nat {
    match c {
        DLCharacterSet::UTF16 => 2,
        DLCharacterSet::UTF32 => 4,
        _ => 1,
    }
}

/// Bytes per code unit of a character set.
pub fn unit_size(c: DLCharacterSet) -> (r: usize)
    ensures
        r == code_unit_size(c),
{
    match c {
        DLCharacterSet::UTF16 => 2,
        DLCharacterSet::UTF32 => 4,
        _ => 1,
    }
}

/// A string owned by the game, stored as code units of its kind's character set.
pub struct DLString<T: DLStringKind = DLUTF16StringKind> {
    /// The string's code units, as the bytes they occupy in memory.
    base: Vec<u8>,
    encoding: DLCharacterSet,
    allocator: DLAllocatorRef,
    kind: PhantomData<T>,
}

impl<T: DLStringKind> View for DLString<T> {
    type V = Seq<u8>;

    closed spec fn view(&self) -> Seq<u8> {
        self.base@
    }
}

impl<T: DLStringKind> DLString<T> {
    /// The character set recorded in the string.
    pub closed spec fn recorded_charset(&self) -> DLCharacterSet {
        self.encoding
    }

    /// The allocator the string was made with.
    pub closed spec fn allocator_address(&self) -> usize {
        self.allocator.address
    }

    pub fn new(allocator: &DLAllocatorRef) -> (r: Self)
        ensures
            r@ == Seq::<u8>::empty(),
            r.recorded_charset() == T::charset(),
            r.allocator_address() == allocator.address,
    {
        Self {
            base: Vec::new(),
            encoding: T::character_set(),
            allocator: *allocator,
            kind: PhantomData,
        }
    }

    pub fn from_str(allocator: &DLAllocatorRef, s: &str) -> (r: Result<Self, DLStringEncodingError>)
        ensures
            match r {
                Ok(d) => encoded(T::charset(), s@) == Ok::<Seq<u8>, DLStringEncodingError>(d@)
                    && d.recorded_charset() == T::charset() && d.allocator_address()
                    == allocator.address,
                Err(e) => encoded(T::charset(), s@) == Err::<Seq<u8>, DLStringEncodingError>(e),
            },
    {
        let encoded = T::encode(s)?;
        Ok(Self {
            base: encoded,
            encoding: T::character_set(),
            allocator: *allocator,
            kind: PhantomData,
        })
    }

    pub fn to_str(&self) -> (r: Result<String, DLStringEncodingError>)
        ensures
            string_result_view(r) == decoded(T::charset(), self@),
    {
        T::decode(self.base.as_slice())
    }

    /// A copy of this string, code unit for code unit, made with `allocator`.
    pub(crate) fn copy_in(&self, allocator: &DLAllocatorRef) -> (r: Self)
        ensures
            r@ == self@,
            r.recorded_charset() == self.recorded_charset(),
            r.allocator_address() == allocator.address,
    {
        let mut units: Vec<u8> = Vec::new();
        let mut i: usize = 0;
        while i < self.base.len()
            invariant
                i <= self.base@.len(),
                units@ == self.base@.take(i as int),
            decreases self.base@.len() - i,
        {
            units.push(self.base[i]);
            i = i + 1;
            proof {
                assert(units@ =~= self.base@.take(i as int));
            }
        }
        proof {
            assert(units@ =~= self.base@);
        }
        Self { base: units, encoding: self.encoding, allocator: *allocator, kind: PhantomData }
    }

    /// Makes a string of this kind from `other`, whose bytes are decoded as this kind's
    /// character set and encoded again.
    pub fn copy<U: DLStringKind>(allocator: &DLAllocatorRef, other: &DLString<U>) -> (r: Result<
        Self,
        DLStringEncodingError,
    >)
        ensures
            match decoded(T::charset(), other@) {
                Err(_) => r == Err::<Self, DLStringEncodingError>(
                    DLStringEncodingError::DecodeError,
                ),
                Ok(t) => match r {
                    Ok(d) => encoded(T::charset(), t) == Ok::<Seq<u8>, DLStringEncodingError>(d@)
                        && d.recorded_charset() == T::charset() && d.allocator_address()
                        == allocator.address,
                    Err(e) => encoded(T::charset(), t) == Err::<Seq<u8>, DLStringEncodingError>(
                        e,
                    ),
                },
            },
    {
        let decoded = match T::decode(other.base.as_slice()) {
            Ok(d) => d,
            Err(_) => {
                return Err(DLStringEncodingError::DecodeError);
            },
        };
        DLString::from_str(allocator, decoded.as_str())
    }
}

/// A string in game memory that the game's code refers to by pointer and length.
pub struct DLRawString<T: DLStringKind = DLUTF16StringKind> {
    /// The memory the string points at, if any.
    pub backing_string: Option<Vec<u8>>,
    pub length: usize,
    pub unk18: u32,
    pub char_size: u16,
    pub encoding: DLCharacterSet,
    pub flags: u8,
    pub kind: PhantomData<T>,
}

impl<T: DLStringKind> DLRawString<T> {
    /// The bytes that `length` code units of this kind occupy at the start of the backing
    /// memory; none when there is no backing memory.
    pub open spec fn text_bytes(&self) -> Seq<u8> {
        match self.backing_string {
            Some(b) => b@.take(self.length * code_unit_size(T::charset())),
            None => Seq::empty(),
        }
    }

    /// Whether `length` code units fit in the backing memory.
    pub open spec fn in_bounds(&self) -> bool {
        match self.backing_string {
            Some(b) => self.length * code_unit_size(T::charset()) <= b@.len(),
            None => true,
        }
    }

    pub fn is_empty(&self) -> (r: bool)
        ensures
            r == (self.length == 0),
    {
        self.length == 0
    }

    pub fn to_str(&self) -> (r: Result<String, DLStringEncodingError>)
        requires
            self.in_bounds(),
        ensures
            string_result_view(r) == decoded(T::charset(), self.text_bytes()),
    {
        match &self.backing_string {
            None => {
                let empty: Vec<u8> = Vec::new();
                proof {
                    assert(empty@ =~= self.text_bytes());
                }
                T::decode(empty.as_slice())
            },
            Some(v) => {
                let size = unit_size(T::character_set());
                assert(self.length * size <= v@.len());
                let total = v.len();
                assert(self.length * size <= total);
                let n = self.length * size;
                let bytes = vstd::slice::slice_subrange(v.as_slice(), 0, n);
                proof {
                    assert(bytes@ =~= self.text_bytes());
                }
                T::decode(bytes)
            },
        }
    }
}

/// A UTF-32 raw string whose backing memory holds the encoding of `s` and whose length is
/// the number of characters of `s` reads back `s`: its text is all of those bytes, four per
/// code unit.
pub proof fn lemma_raw_utf32_reads_back(raw: DLRawString<DLUTF32StringKind>, s: Seq<char>)
    requires
        raw.backing_string matches Some(b) && encoded(DLCharacterSet::UTF32, s) == Ok::<
            Seq<u8>,
            DLStringEncodingError,
        >(b@),
        raw.length == s.len(),
    ensures
        raw.in_bounds(),
        raw.text_bytes().len() == 4 * s.len(),
        decoded(DLCharacterSet::UTF32, raw.text_bytes()) == Ok::<Seq<char>, DLStringEncodingError>(s),
{
    let b = raw.backing_string.unwrap();
    lemma_units32_ne_bytes_len(scalar_values(s));
    assert(b@.take(raw.length * 4) =~= b@);
    lemma_utf32_encode_decode(s);
}

/// A UTF-16 raw string whose backing memory holds the encoding of `s` and whose length is
/// the number of UTF-16 code units of `s` reads back `s`: its text is all of those bytes, two
/// per code unit.
pub proof fn lemma_raw_utf16_reads_back(raw: DLRawString<DLUTF16StringKind>, s: Seq<char>)
    requires
        raw.backing_string matches Some(b) && encoded(DLCharacterSet::UTF16, s) == Ok::<
            Seq<u8>,
            DLStringEncodingError,
        >(b@),
        raw.length == utf16_units(s).len(),
    ensures
        raw.in_bounds(),
        raw.text_bytes().len() == 2 * utf16_units(s).len(),
        decoded(DLCharacterSet::UTF16, raw.text_bytes()) == Ok::<Seq<char>, DLStringEncodingError>(s),
{
    let b = raw.backing_string.unwrap();
    lemma_units16_ne_bytes_len(utf16_units(s));
    assert(b@.take(raw.length * 2) =~= b@);
    lemma_utf16_encode_decode(s);
}

/// A UTF-8 raw string whose backing memory holds the encoding of `s` (not starting with
/// U+FEFF) and whose length is the number of bytes of that encoding reads back `s`: its text is
/// all of those bytes, one per code unit.
pub proof fn lemma_raw_utf8_reads_back(raw: DLRawString<DLUTF8StringKind>, s: Seq<char>)
    requires
        !(s.len() > 0 && s[0] == '\u{FEFF}'),
        raw.backing_string matches Some(b) && encoded(DLCharacterSet::UTF8, s) == Ok::<
            Seq<u8>,
            DLStringEncodingError,
        >(b@),
        raw.length == encode_utf8(s).len(),
    ensures
        raw.in_bounds(),
        raw.text_bytes().len() == encode_utf8(s).len(),
        decoded(DLCharacterSet::UTF8, raw.text_bytes()) == Ok::<Seq<char>, DLStringEncodingError>(s),
{
    let b = raw.backing_string.unwrap();
    assert(code_unit_size(DLUTF8StringKind::charset()) == 1);
    assert(raw.length * code_unit_size(DLUTF8StringKind::charset()) == raw.length);
    assert(b@.take(raw.length as int) =~= b@);
    lemma_utf8_encode_decode(s);
}

/// Encoding the text that UTF-16 decoding read gives the bytes back.
pub proof fn lemma_utf16_decode_encode(bytes: Seq<u8>)
    ensures
        decoded(DLCharacterSet::UTF16, bytes) matches Ok(t) ==> encoded(DLCharacterSet::UTF16, t)
            == Ok::<Seq<u8>, DLStringEncodingError>(bytes),
{
    if bytes.len() % 2 == 0 {
        let us = ne_units16(bytes);
        lemma_utf16_units_of_decode(us);
        lemma_units16_ne_bytes_of_units(bytes);
    }
}

/// Encoding the text that UTF-32 decoding read gives the bytes back.
pub proof fn lemma_utf32_decode_encode(bytes: Seq<u8>)
    ensures
        decoded(DLCharacterSet::UTF32, bytes) matches Ok(t) ==> encoded(DLCharacterSet::UTF32, t)
            == Ok::<Seq<u8>, DLStringEncodingError>(bytes),
{
    if bytes.len() % 4 == 0 {
        let us = ne_units32(bytes);
        lemma_scalar_values_of_decode(us);
        lemma_units32_ne_bytes_of_units(bytes);
    }
}

/// Wraps a string to make it easier to use with hash maps; mostly used by the resource system.
pub struct FD4BasicHashString<T: DLStringKind = DLUTF16StringKind> {
    pub vftable: usize,
    /// The contained string we're hashing for.
    pub inner: DLString<T>,
    /// Hashed representation of the string field.
    pub hash: u32,
    /// Indicates whether or not the hash field is populated.
    pub needs_hashing: bool,
}

impl<T: DLStringKind> FD4BasicHashString<T> {
    /// The contained string.
    pub fn as_ref(&self) -> (r: &DLString<T>)
        ensures
            r@ == self.inner@,
    {
        &self.inner
    }
}

} // verus!
