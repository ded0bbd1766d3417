use vstd::prelude::*;
use vstd::endian::{endianness, Endian};
use vstd::utf8::{is_scalar, char_is_scalar, char_u32_cast};

verus! {

// ---------------------------------------------------------------------------------------------
// Native byte order
// ---------------------------------------------------------------------------------------------

/// The two bytes of `x` in the byte order of the executing machine.
pub open spec fn u16_ne_bytes(x: u16) -> Seq<u8> {
    match endianness() {
        Endian::Little => seq![(x & 0xff) as u8, (x >> 8u16) as u8],
        Endian::Big => seq![(x >> 8u16) as u8, (x & 0xff) as u8],
    }
}

/// The value of two bytes read in the byte order of the executing machine.
pub open spec fn u16_from_ne(b0: u8, b1: u8) -> u16 {
    match endianness() {
        Endian::Little => ((b0 as u16) | ((b1 as u16) << 8u16)) as u16,
        Endian::Big => (((b0 as u16) << 8u16) | (b1 as u16)) as u16,
    }
}

/// The four bytes of `x` in the byte order of the executing machine.
pub open spec fn u32_ne_bytes(x: u32) -> Seq<u8> {
    match endianness() {
        Endian::Little => seq![
            (x & 0xff) as u8,
            ((x >> 8u32) & 0xff) as u8,
            ((x >> 16u32) & 0xff) as u8,
            (x >> 24u32) as u8,
        ],
        Endian::Big => seq![
            (x >> 24u32) as u8,
            ((x >> 16u32) & 0xff) as u8,
            ((x >> 8u32) & 0xff) as u8,
            (x & 0xff) as u8,
        ],
    }
}

/// The value of four bytes read in the byte order of the executing machine.
pub open spec fn u32_from_ne(b0: u8, b1: u8, b2: u8, b3: u8) -> u32 {
    match endianness() {
        Endian::Little => ((b0 as u32) | ((b1 as u32) << 8u32) | ((b2 as u32) << 16u32) | ((
        b3 as u32) << 24u32)) as u32,
        Endian::Big => (((b0 as u32) << 24u32) | ((b1 as u32) << 16u32) | ((b2 as u32) << 8u32)
            | (b3 as u32)) as u32,
    }
}

/// The value of eight bytes read in the byte order of the executing machine.
pub open spec fn u64_from_ne(b: Seq<u8>) -> u64 {
    match endianness() {
        Endian::Little => (b[0] as u64 | (b[1] as u64) << 8u64 | (b[2] as u64) << 16u64 | (
        b[3] as u64) << 24u64 | (b[4] as u64) << 32u64 | (b[5] as u64) << 40u64 | (b[6] as u64)
            << 48u64 | (b[7] as u64) << 56u64) as u64,
        Endian::Big => (b[7] as u64 | (b[6] as u64) << 8u64 | (b[5] as u64) << 16u64 | (
        b[4] as u64) << 24u64 | (b[3] as u64) << 32u64 | (b[2] as u64) << 40u64 | (b[1] as u64)
            << 48u64 | (b[0] as u64) << 56u64) as u64,
    }
}

/// `u64::from_ne_bytes`: the integer whose native-byte-order representation is `b`.
#[verifier::external_body]
pub(crate) fn u64_from_ne_bytes(b: [u8; 8]) -> (r: u64)
    ensures
        r == u64_from_ne(b@),
{
    u64::from_ne_bytes(b)
}

/// `u16::to_ne_bytes`: the memory representation of `x` in native byte order.
#[verifier::external_body]
fn u16_to_ne_bytes(x: u16) -> (r: [u8; 2])
    ensures
        r@ == u16_ne_bytes(x),
{
    x.to_ne_bytes()
}

/// `u16::from_ne_bytes`: the integer whose native-byte-order representation is `b`.
#[verifier::external_body]
fn u16_from_ne_bytes(b: [u8; 2]) -> (r: u16)
    ensures
        r == u16_from_ne(b@[0], b@[1]),
{
    u16::from_ne_bytes(b)
}

/// `u32::to_ne_bytes`: the memory representation of `x` in native byte order.
#[verifier::external_body]
fn u32_to_ne_bytes(x: u32) -> (r: [u8; 4])
    ensures
        r@ == u32_ne_bytes(x),
{
    x.to_ne_bytes()
}

/// `u32::from_ne_bytes`: the integer whose native-byte-order representation is `b`.
#[verifier::external_body]
pub(crate) fn u32_from_ne_bytes(b: [u8; 4]) -> (r: u32)
    ensures
        r == u32_from_ne(b@[0], b@[1], b@[2], b@[3]),
{
    u32::from_ne_bytes(b)
}

/// `char::from_u32`: the `char` with the given scalar value, `None` for surrogates and values
/// above `0x10FFFF`.
#[verifier::external_body]
pub(crate) fn char_from_u32(v: u32) -> (r: Option<char>)
    ensures
        r is Some <==> is_scalar(v),
        r matches Some(c) ==> c as u32 == v,
{
    char::from_u32(v)
}

/// The characters of `s` in order.
pub fn str_chars(s: &str) -> (r: Vec<char>)
    ensures
        r@ == s@,
{
    broadcast use vstd::string::axiom_spec_iter, vstd::string::next_postcondition;

    let mut chars = s.chars();
    let mut out: Vec<char> = Vec::new();
    proof {
        assert(vstd::std_specs::iter::IteratorSpec::remaining(&chars) == s@);
        assert(out@ + vstd::std_specs::iter::IteratorSpec::remaining(&chars) =~= s@);
    }
    loop
        invariant
            out@ + vstd::std_specs::iter::IteratorSpec::remaining(&chars) == s@,
            vstd::std_specs::iter::IteratorSpec::decrease(&chars) is Some,
        decreases vstd::std_specs::iter::IteratorSpec::decrease(&chars)->0,
    {
        let ghost before = vstd::std_specs::iter::IteratorSpec::remaining(&chars);
        match chars.next() {
            Some(c) => {
                proof {
                    assert(vstd::std_specs::iter::IteratorSpec::remaining(&chars) == before.drop_first());
                    assert(out@.push(c) + vstd::std_specs::iter::IteratorSpec::remaining(&chars) =~= out@ + before);
                }
                out.push(c);
            },
            None => {
                proof {
                    assert(before.len() == 0);
                    assert(out@ =~= s@);
                }
                return out;
            },
        }
    }
}

/// `String::from_iter` over characters: the string made of `chars` in order.
#[verifier::external_body]
pub(crate) fn string_from_chars(chars: &Vec<char>) -> (r: String)
    ensures
        r@ == chars@,
{
    chars.iter().collect()
}

pub proof fn lemma_u16_ne_round_trip(x: u16)
    ensures
        u16_ne_bytes(x).len() == 2,
        u16_from_ne(u16_ne_bytes(x)[0], u16_ne_bytes(x)[1]) == x,
{
    assert(((((x & 0xff) as u8) as u16) | ((((x >> 8u16) as u8) as u16) << 8u16)) == x)
        by (bit_vector);
    assert((((((x >> 8u16) as u8) as u16) << 8u16) | (((x & 0xff) as u8) as u16)) == x)
        by (bit_vector);
}

pub proof fn lemma_u32_ne_round_trip(x: u32)
    ensures
        u32_ne_bytes(x).len() == 4,
        u32_from_ne(
            u32_ne_bytes(x)[0],
            u32_ne_bytes(x)[1],
            u32_ne_bytes(x)[2],
            u32_ne_bytes(x)[3],
        ) == x,
{
    let b0 = (x & 0xff) as u8;
    let b1 = ((x >> 8u32) & 0xff) as u8;
    let b2 = ((x >> 16u32) & 0xff) as u8;
    let b3 = (x >> 24u32) as u8;
    assert(((b0 as u32) | ((b1 as u32) << 8u32) | ((b2 as u32) << 16u32) | ((b3 as u32)
        << 24u32)) == x) by (bit_vector)
        requires
            b0 == (x & 0xff) as u8,
            b1 == ((x >> 8u32) & 0xff) as u8,
            b2 == ((x >> 16u32) & 0xff) as u8,
            b3 == (x >> 24u32) as u8,
    ;
    assert((((b3 as u32) << 24u32) | ((b2 as u32) << 16u32) | ((b1 as u32) << 8u32) | (
    b0 as u32)) == x) by (bit_vector)
        requires
            b0 == (x & 0xff) as u8,
            b1 == ((x >> 8u32) & 0xff) as u8,
            b2 == ((x >> 16u32) & 0xff) as u8,
            b3 == (x >> 24u32) as u8,
    ;
}

// ---------------------------------------------------------------------------------------------
// UTF-16
// ---------------------------------------------------------------------------------------------

pub open spec fn is_high_surrogate(u: u16) -> bool {
    0xD800 <= u <= 0xDBFF
}

pub open spec fn is_low_surrogate(u: u16) -> bool {
    0xDC00 <= u <= 0xDFFF
}

pub open spec fn is_surrogate(u: u16) -> bool {
    0xD800 <= u <= 0xDFFF
}

/// The UTF-16 code units of one character.
pub open spec fn char_utf16(c: char) -> Seq<u16> {
    let v = c as u32;
    if v < 0x10000 {
        seq![v as u16]
    } else {
        seq![
            (0xD800 + (v - 0x10000) / 0x400) as u16,
            (0xDC00 + (v - 0x10000) % 0x400) as u16,
        ]
    }
}

/// The UTF-16 encoding of a character sequence.
pub open spec fn utf16_units(cs: Seq<char>) -> Seq<u16>
    decreases cs.len(),
{
    if cs.len() == 0 {
        seq![]
    } else {
        utf16_units(cs.drop_last()) + char_utf16(cs.last())
    }
}

/// The scalar value of a surrogate pair.
pub open spec fn surrogate_pair_value(hi: u16, lo: u16) -> u32 {
    (0x10000 + (hi - 0xD800) * 0x400 + (lo - 0xDC00)) as u32
}

/// Strict UTF-16 decoding: `None` when an unpaired surrogate occurs.
pub open spec fn utf16_decode(units: Seq<u16>) -> Option<Seq<char>>
    decreases units.len(),
{
    if units.len() == 0 {
        Some(seq![])
    } else if !is_surrogate(units[0]) {
        match utf16_decode(units.skip(1)) {
            Some(rest) => Some(seq![(units[0] as u32) as char] + rest),
            None => None,
        }
    } else if is_high_surrogate(units[0]) && units.len() >= 2 && is_low_surrogate(units[1]) {
        match utf16_decode(units.skip(2)) {
            Some(rest) => Some(seq![surrogate_pair_value(units[0], units[1]) as char] + rest),
            None => None,
        }
    } else {
        None
    }
}

/// UTF-16 decoding that replaces each unpaired surrogate with U+FFFD.
pub open spec fn utf16_decode_lossy(units: Seq<u16>) -> Seq<char>
    decreases units.len(),
{
    if units.len() == 0 {
        seq![]
    } else if !is_surrogate(units[0]) {
        seq![(units[0] as u32) as char] + utf16_decode_lossy(units.skip(1))
    } else if is_high_surrogate(units[0]) && units.len() >= 2 && is_low_surrogate(units[1]) {
        seq![surrogate_pair_value(units[0], units[1]) as char] + utf16_decode_lossy(
            units.skip(2),
        )
    } else {
        seq!['\u{FFFD}'] + utf16_decode_lossy(units.skip(1))
    }
}

/// The bytes of a sequence of 16-bit units, each in native byte order.
pub open spec fn units16_ne_bytes(units: Seq<u16>) -> Seq<u8>
    decreases units.len(),
{
    if units.len() == 0 {
        seq![]
    } else {
        units16_ne_bytes(units.drop_last()) + u16_ne_bytes(units.last())
    }
}

/// The 16-bit units read from `bytes` two at a time in native byte order (a trailing odd byte
/// is ignored).
pub open spec fn ne_units16(bytes: Seq<u8>) -> Seq<u16> {
    Seq::new(bytes.len() / 2, |i: int| u16_from_ne(bytes[2 * i], bytes[2 * i + 1]))
}

/// The bytes of a sequence of 32-bit units, each in native byte order.
pub open spec fn units32_ne_bytes(units: Seq<u32>) -> Seq<u8>
    decreases units.len(),
{
    if units.len() == 0 {
        seq![]
    } else {
        units32_ne_bytes(units.drop_last()) + u32_ne_bytes(units.last())
    }
}

/// The 32-bit units read from `bytes` four at a time in native byte order.
pub open spec fn ne_units32(bytes: Seq<u8>) -> Seq<u32> {
    Seq::new(
        bytes.len() / 4,
        |i: int| u32_from_ne(bytes[4 * i], bytes[4 * i + 1], bytes[4 * i + 2], bytes[4 * i + 3]),
    )
}

/// The scalar values of a character sequence.
pub open spec fn scalar_values(cs: Seq<char>) -> Seq<u32> {
    cs.map_values(|c: char| c as u32)
}

/// Strict UTF-32 decoding: `None` when a unit is not a Unicode scalar value.
pub open spec fn utf32_decode(units: Seq<u32>) -> Option<Seq<char>> {
    if forall|i: int| 0 <= i < units.len() ==> is_scalar(#[trigger] units[i]) {
        Some(units.map_values(|u: u32| u as char))
    } else {
        None
    }
}


// ---------------------------------------------------------------------------------------------
// Lemmas
// ---------------------------------------------------------------------------------------------

pub proof fn lemma_units16_ne_bytes_push(us: Seq<u16>, u: u16)
    ensures
        units16_ne_bytes(us.push(u)) == units16_ne_bytes(us) + u16_ne_bytes(u),
{
    assert(us.push(u).drop_last() =~= us);
}

pub proof fn lemma_units32_ne_bytes_push(us: Seq<u32>, u: u32)
    ensures
        units32_ne_bytes(us.push(u)) == units32_ne_bytes(us) + u32_ne_bytes(u),
{
    assert(us.push(u).drop_last() =~= us);
}

pub proof fn lemma_units16_ne_bytes_len(us: Seq<u16>)
    ensures
        units16_ne_bytes(us).len() == 2 * us.len(),
    decreases us.len(),
{
    if us.len() > 0 {
        lemma_units16_ne_bytes_len(us.drop_last());
        lemma_u16_ne_round_trip(us.last());
    }
}

pub proof fn lemma_units32_ne_bytes_len(us: Seq<u32>)
    ensures
        units32_ne_bytes(us).len() == 4 * us.len(),
    decreases us.len(),
{
    if us.len() > 0 {
        lemma_units32_ne_bytes_len(us.drop_last());
        lemma_u32_ne_round_trip(us.last());
    }
}

/// Reading back the native-order bytes of 16-bit units gives the units.
pub proof fn lemma_ne_units16_round_trip(us: Seq<u16>)
    ensures
        ne_units16(units16_ne_bytes(us)) == us,
    decreases us.len(),
{
    lemma_units16_ne_bytes_len(us);
    if us.len() > 0 {
        let init = us.drop_last();
        lemma_ne_units16_round_trip(init);
        lemma_units16_ne_bytes_len(init);
        lemma_u16_ne_round_trip(us.last());
        let b = units16_ne_bytes(us);
        let bi = units16_ne_bytes(init);
        assert(b == bi + u16_ne_bytes(us.last()));
        assert forall|i: int| 0 <= i < us.len() implies #[trigger] ne_units16(b)[i] == us[i] by {
            if i < init.len() {
                assert(b[2 * i] == bi[2 * i]);
                assert(b[2 * i + 1] == bi[2 * i + 1]);
                assert(ne_units16(bi)[i] == init[i]);
            } else {
                assert(b[2 * i] == u16_ne_bytes(us.last())[0]);
                assert(b[2 * i + 1] == u16_ne_bytes(us.last())[1]);
            }
        }
        assert(ne_units16(b) =~= us);
    } else {
        assert(ne_units16(units16_ne_bytes(us)) =~= us);
    }
}

/// Reading back the native-order bytes of 32-bit units gives the units.
pub proof fn lemma_ne_units32_round_trip(us: Seq<u32>)
    ensures
        ne_units32(units32_ne_bytes(us)) == us,
    decreases us.len(),
{
    lemma_units32_ne_bytes_len(us);
    if us.len() > 0 {
        let init = us.drop_last();
        lemma_ne_units32_round_trip(init);
        lemma_units32_ne_bytes_len(init);
        lemma_u32_ne_round_trip(us.last());
        let b = units32_ne_bytes(us);
        let bi = units32_ne_bytes(init);
        assert(b == bi + u32_ne_bytes(us.last()));
        assert forall|i: int| 0 <= i < us.len() implies #[trigger] ne_units32(b)[i] == us[i] by {
            if i < init.len() {
                assert(b[4 * i] == bi[4 * i]);
                assert(b[4 * i + 1] == bi[4 * i + 1]);
                assert(b[4 * i + 2] == bi[4 * i + 2]);
                assert(b[4 * i + 3] == bi[4 * i + 3]);
                assert(ne_units32(bi)[i] == init[i]);
            } else {
                assert(b[4 * i] == u32_ne_bytes(us.last())[0]);
                assert(b[4 * i + 1] == u32_ne_bytes(us.last())[1]);
                assert(b[4 * i + 2] == u32_ne_bytes(us.last())[2]);
                assert(b[4 * i + 3] == u32_ne_bytes(us.last())[3]);
            }
        }
        assert(ne_units32(b) =~= us);
    } else {
        assert(ne_units32(units32_ne_bytes(us)) =~= us);
    }
}

pub proof fn lemma_utf16_units_concat(a: Seq<char>, b: Seq<char>)
    ensures
        utf16_units(a + b) == utf16_units(a) + utf16_units(b),
    decreases b.len(),
{
    if b.len() == 0 {
        assert(a + b =~= a);
        assert(utf16_units(a) + utf16_units(b) =~= utf16_units(a));
    } else {
        lemma_utf16_units_concat(a, b.drop_last());
        assert((a + b).drop_last() =~= a + b.drop_last());
        assert((a + b).last() == b.last());
        assert(utf16_units(a) + utf16_units(b) =~= utf16_units(a) + utf16_units(b.drop_last())
            + char_utf16(b.last()));
    }
}

pub proof fn lemma_utf16_units_take(cs: Seq<char>, i: int)
    requires
        0 <= i < cs.len(),
    ensures
        utf16_units(cs.take(i + 1)) == utf16_units(cs.take(i)) + char_utf16(cs[i]),
{
    assert(cs.take(i + 1).drop_last() =~= cs.take(i));
}

/// Decoding the UTF-16 encoding of a character sequence gives the sequence back.
pub proof fn lemma_utf16_round_trip(cs: Seq<char>)
    ensures
        utf16_decode(utf16_units(cs)) == Some(cs),
    decreases cs.len(),
{
    if cs.len() == 0 {
        assert(utf16_units(cs) =~= Seq::<u16>::empty());
    } else {
        let c = cs[0];
        let rest = cs.skip(1);
        assert(cs =~= seq![c] + rest);
        lemma_utf16_units_concat(seq![c], rest);
        assert(seq![c].drop_last() =~= Seq::<char>::empty());
        assert(seq![c].last() == c);
        assert(utf16_units(Seq::<char>::empty()) =~= Seq::<u16>::empty());
        assert(Seq::<u16>::empty() + char_utf16(c) =~= char_utf16(c));
        assert(utf16_units(seq![c]) =~= char_utf16(c));
        lemma_utf16_round_trip(rest);
        let us = utf16_units(cs);
        let v = c as u32;
        char_is_scalar(c);
        char_u32_cast(c, v);
        if v < 0x10000 {
            assert(us =~= seq![v as u16] + utf16_units(rest));
            assert(us.skip(1) =~= utf16_units(rest));
            assert(((v as u16) as u32) == v);
        } else {
            let hi = (0xD800 + (v - 0x10000) / 0x400) as u16;
            let lo = (0xDC00 + (v - 0x10000) % 0x400) as u16;
            assert(us =~= seq![hi, lo] + utf16_units(rest));
            assert(us.skip(2) =~= utf16_units(rest));
            assert(surrogate_pair_value(hi, lo) == v);
        }
    }
}

/// Decoding the UTF-32 scalar values of a character sequence gives the sequence back.
pub proof fn lemma_utf32_round_trip(cs: Seq<char>)
    ensures
        utf32_decode(scalar_values(cs)) == Some(cs),
{
    let us = scalar_values(cs);
    assert forall|i: int| 0 <= i < us.len() implies is_scalar(#[trigger] us[i]) by {
        char_is_scalar(cs[i]);
    }
    let back = us.map_values(|u: u32| u as char);
    assert forall|i: int| 0 <= i < cs.len() implies #[trigger] back[i] == cs[i] by {
        char_u32_cast(cs[i], us[i]);
    }
    assert(back =~= cs);
}

// ---------------------------------------------------------------------------------------------
// Executable coders
// ---------------------------------------------------------------------------------------------

/// Encodes `s` as UTF-16 with every code unit in native byte order.
pub fn encode_utf16_ne(s: &str) -> (r: Vec<u8>)
    ensures
        r@ == units16_ne_bytes(utf16_units(s@)),
{
    let chars = str_chars(s);
    let mut out: Vec<u8> = Vec::new();
    let mut i: usize = 0;
    proof {
        assert(chars@.take(0) =~= Seq::<char>::empty());
    }
    while i < chars.len()
        invariant
            i <= chars.len(),
            chars@ == s@,
            out@ == units16_ne_bytes(utf16_units(chars@.take(i as int))),
        decreases chars.len() - i,
    {
        let c = chars[i];
        let v: u32 = c as u32;
        proof {
            char_is_scalar(c);
            lemma_utf16_units_take(chars@, i as int);
        }
        let ghost before = utf16_units(chars@.take(i as int));
        if v < 0x10000 {
            let u: u16 = v as u16;
            let b = u16_to_ne_bytes(u);
            out.push(b[0]);
            out.push(b[1]);
            proof {
                lemma_units16_ne_bytes_push(before, u);
                assert(char_utf16(c) =~= seq![u]);
                assert(before + char_utf16(c) =~= before.push(u));
                assert(out@ =~= units16_ne_bytes(before) + u16_ne_bytes(u));
            }
        } else {
            let hi: u16 = (0xD800 + (v - 0x10000) / 0x400) as u16;
            let lo: u16 = (0xDC00 + (v - 0x10000) % 0x400) as u16;
            let bh = u16_to_ne_bytes(hi);
            let bl = u16_to_ne_bytes(lo);
            out.push(bh[0]);
            out.push(bh[1]);
            out.push(bl[0]);
            out.push(bl[1]);
            proof {
                lemma_units16_ne_bytes_push(before, hi);
                lemma_units16_ne_bytes_push(before.push(hi), lo);
                assert(char_utf16(c) =~= seq![hi, lo]);
                assert(before + char_utf16(c) =~= before.push(hi).push(lo));
                assert(out@ =~= units16_ne_bytes(before) + u16_ne_bytes(hi) + u16_ne_bytes(lo));
            }
        }
        i = i + 1;
    }
    proof {
        assert(chars@.take(i as int) =~= chars@);
    }
    out
}

/// Encodes `s` as UTF-32 with every scalar value in native byte order.
pub fn encode_utf32_ne(s: &str) -> (r: Vec<u8>)
    ensures
        r@ == units32_ne_bytes(scalar_values(s@)),
{
    let chars = str_chars(s);
    let mut out: Vec<u8> = Vec::new();
    let mut i: usize = 0;
    proof {
        assert(scalar_values(chars@.take(0)) =~= Seq::<u32>::empty());
    }
    while i < chars.len()
        invariant
            i <= chars.len(),
            chars@ == s@,
            out@ == units32_ne_bytes(scalar_values(chars@.take(i as int))),
        decreases chars.len() - i,
    {
        let c = chars[i];
        let v: u32 = c as u32;
        let b = u32_to_ne_bytes(v);
        let ghost before = scalar_values(chars@.take(i as int));
        out.push(b[0]);
        out.push(b[1]);
        out.push(b[2]);
        out.push(b[3]);
        proof {
            lemma_units32_ne_bytes_push(before, v);
            assert(scalar_values(chars@.take(i + 1)) =~= before.push(v));
            assert(out@ =~= units32_ne_bytes(before) + u32_ne_bytes(v));
        }
        i = i + 1;
    }
    proof {
        assert(chars@.take(i as int) =~= chars@);
    }
    out
}

/// Reads `bytes` as 16-bit units in native byte order; a trailing odd byte is ignored.
pub fn bytes_to_units16_ne(bytes: &[u8]) -> (r: Vec<u16>)
    ensures
        r@ == ne_units16(bytes@),
{
    let n = bytes.len() / 2;
    let mut units: Vec<u16> = Vec::new();
    let mut k: usize = 0;
    while k < n
        invariant
            n == bytes@.len() / 2,
            bytes@.len() == bytes.len(),
            k <= n,
            units@.len() == k,
            forall|j: int| 0 <= j < k ==> #[trigger] units@[j] == u16_from_ne(bytes@[2 * j], bytes@[2 * j + 1]),
        decreases n - k,
    {
        assert(2 * k + 1 < bytes@.len());
        let at: usize = 2 * k;
        let u = u16_from_ne_bytes([bytes[at], bytes[at + 1]]);
        units.push(u);
        k = k + 1;
    }
    proof {
        assert(units@ =~= ne_units16(bytes@));
    }
    units
}

/// Reads `bytes` as 32-bit units in native byte order; trailing bytes short of a unit are
/// ignored.
pub fn bytes_to_units32_ne(bytes: &[u8]) -> (r: Vec<u32>)
    ensures
        r@ == ne_units32(bytes@),
{
    let n = bytes.len() / 4;
    let mut units: Vec<u32> = Vec::new();
    let mut k: usize = 0;
    while k < n
        invariant
            n == bytes@.len() / 4,
            bytes@.len() == bytes.len(),
            k <= n,
            units@.len() == k,
            forall|j: int| 0 <= j < k ==> #[trigger] units@[j] == u32_from_ne(bytes@[4 * j], bytes@[4 * j + 1], bytes@[4 * j + 2], bytes@[4 * j + 3]),
        decreases n - k,
    {
        assert(4 * k + 3 < bytes@.len());
        let at: usize = 4 * k;
        let u = u32_from_ne_bytes([bytes[at], bytes[at + 1], bytes[at + 2], bytes[at + 3]]);
        units.push(u);
        k = k + 1;
    }
    proof {
        assert(units@ =~= ne_units32(bytes@));
    }
    units
}

pub open spec fn prepend_decoded(p: Seq<char>, o: Option<Seq<char>>) -> Option<Seq<char>> {
    match o {
        Some(rest) => Some(p + rest),
        None => None,
    }
}

/// Strictly decodes UTF-16 code units; `None` at the first unpaired surrogate.
pub fn decode_utf16_units(units: &Vec<u16>) -> (r: Option<Vec<char>>)
    ensures
        match r {
            Some(cs) => utf16_decode(units@) == Some(cs@),
            None => utf16_decode(units@) is None,
        },
{
    let mut chars: Vec<char> = Vec::new();
    let mut i: usize = 0;
    proof {
        assert(units@.skip(0) =~= units@);
        assert(prepend_decoded(chars@, utf16_decode(units@.skip(0))) =~= utf16_decode(units@)) by {
            match utf16_decode(units@) {
                Some(d) => { assert(chars@ + d =~= d); },
                None => {},
            }
        }
    }
    while i < units.len()
        invariant
            i <= units.len(),
            utf16_decode(units@) == prepend_decoded(chars@, utf16_decode(units@.skip(i as int))),
        decreases units.len() - i,
    {
        let u = units[i];
        let ghost tail = units@.skip(i as int);
        assert(tail[0] == u);
        if u < 0xD800 || u > 0xDFFF {
            let c = char_from_u32(u as u32);
            proof {
                assert(is_scalar(u as u32));
            }
            let c = c.unwrap();
            proof {
                char_u32_cast(c, u as u32);
                assert(tail.skip(1) =~= units@.skip(i + 1));
                match utf16_decode(tail.skip(1)) {
                    Some(rest) => {
                        assert(chars@.push(c) + rest =~= chars@ + (seq![c] + rest));
                    },
                    None => {},
                }
            }
            chars.push(c);
            i = i + 1;
        } else if u <= 0xDBFF && i + 1 < units.len() && units[i + 1] >= 0xDC00 && units[i + 1] <= 0xDFFF {
            let lo = units[i + 1];
            assert(tail[1] == lo);
            let v: u32 = 0x10000 + (u as u32 - 0xD800) * 0x400 + (lo as u32 - 0xDC00);
            let c = char_from_u32(v);
            proof {
                assert(v == surrogate_pair_value(u, lo));
                assert(is_scalar(v));
            }
            let c = c.unwrap();
            proof {
                char_u32_cast(c, v);
                assert(tail.skip(2) =~= units@.skip(i + 2));
                match utf16_decode(tail.skip(2)) {
                    Some(rest) => {
                        assert(chars@.push(c) + rest =~= chars@ + (seq![c] + rest));
                    },
                    None => {},
                }
            }
            chars.push(c);
            i = i + 2;
        } else {
            return None;
        }
    }
    proof {
        assert(units@.skip(i as int) =~= Seq::<u16>::empty());
        assert(chars@ + Seq::<char>::empty() =~= chars@);
    }
    Some(chars)
}

/// Strictly decodes UTF-32 units; `None` when a unit is not a scalar value.
pub fn decode_utf32_units(units: &Vec<u32>) -> (r: Option<Vec<char>>)
    ensures
        match r {
            Some(cs) => utf32_decode(units@) == Some(cs@),
            None => utf32_decode(units@) is None,
        },
{
    let mut chars: Vec<char> = Vec::new();
    let mut i: usize = 0;
    while i < units.len()
        invariant
            i <= units.len(),
            chars@.len() == i,
            forall|j: int| 0 <= j < i ==> is_scalar(#[trigger] units@[j]),
            forall|j: int| 0 <= j < i ==> #[trigger] chars@[j] == units@[j] as char,
        decreases units.len() - i,
    {
        let u = units[i];
        match char_from_u32(u) {
            Some(c) => {
                proof {
                    char_u32_cast(c, u);
                }
                chars.push(c);
            },
            None => {
                return None;
            },
        }
        i = i + 1;
    }
    proof {
        assert(chars@ =~= units@.map_values(|u: u32| u as char));
    }
    Some(chars)
}

/// Writing back the units read from bytes of even length gives the bytes.
pub proof fn lemma_units16_ne_bytes_of_units(bytes: Seq<u8>)
    requires
        bytes.len() % 2 == 0,
    ensures
        units16_ne_bytes(ne_units16(bytes)) == bytes,
    decreases bytes.len(),
{
    if bytes.len() == 0 {
        assert(ne_units16(bytes) =~= Seq::<u16>::empty());
        assert(units16_ne_bytes(ne_units16(bytes)) =~= bytes);
    } else {
        let n = bytes.len() as int;
        let init = bytes.take(n - 2);
        lemma_units16_ne_bytes_of_units(init);
        let us = ne_units16(bytes);
        assert(us.drop_last() =~= ne_units16(init));
        let b0 = bytes[n - 2];
        let b1 = bytes[n - 1];
        assert(us.last() == u16_from_ne(b0, b1));
        let x = u16_from_ne(b0, b1);
        assert((((b0 as u16) | ((b1 as u16) << 8u16)) & 0xff) as u8 == b0) by (bit_vector);
        assert(((((b0 as u16) | ((b1 as u16) << 8u16)) as u16) >> 8u16) as u8 == b1) by (bit_vector);
        assert(((((b0 as u16) << 8u16) | (b1 as u16)) as u16 >> 8u16) as u8 == b0) by (bit_vector);
        assert((((((b0 as u16) << 8u16) | (b1 as u16)) as u16) & 0xff) as u8 == b1) by (bit_vector);
        assert(u16_ne_bytes(x) =~= seq![b0, b1]);
        assert(bytes =~= init + seq![b0, b1]);
    }
}

/// Encoding what strict UTF-16 decoding read gives the units back.
pub proof fn lemma_utf16_units_of_decode(us: Seq<u16>)
    ensures
        utf16_decode(us) matches Some(cs) ==> utf16_units(cs) == us,
    decreases us.len(),
{
    if us.len() > 0 {
        if !is_surrogate(us[0]) {
            lemma_utf16_units_of_decode(us.skip(1));
            match utf16_decode(us.skip(1)) {
                Some(rest) => {
                    let v = us[0] as u32;
                    let c = v as char;
                    assert(c as u32 == v);
                    lemma_utf16_units_concat(seq![c], rest);
                    assert(seq![c].drop_last() =~= Seq::<char>::empty());
                    assert(utf16_units(Seq::<char>::empty()) =~= Seq::<u16>::empty());
                    assert(utf16_units(seq![c]) =~= char_utf16(c));
                    assert(char_utf16(c) =~= seq![us[0]]);
                    assert(us =~= seq![us[0]] + us.skip(1));
                },
                None => {},
            }
        } else if is_high_surrogate(us[0]) && us.len() >= 2 && is_low_surrogate(us[1]) {
            lemma_utf16_units_of_decode(us.skip(2));
            match utf16_decode(us.skip(2)) {
                Some(rest) => {
                    let v = surrogate_pair_value(us[0], us[1]);
                    let c = v as char;
                    assert(c as u32 == v);
                    lemma_utf16_units_concat(seq![c], rest);
                    assert(seq![c].drop_last() =~= Seq::<char>::empty());
                    assert(utf16_units(Seq::<char>::empty()) =~= Seq::<u16>::empty());
                    assert(utf16_units(seq![c]) =~= char_utf16(c));
                    assert(char_utf16(c) =~= seq![us[0], us[1]]);
                    assert(us =~= seq![us[0], us[1]] + us.skip(2));
                },
                None => {},
            }
        }
    }
}

/// Writing back the units read from bytes whose length is a multiple of four gives the bytes.
pub proof fn lemma_units32_ne_bytes_of_units(bytes: Seq<u8>)
    requires
        bytes.len() % 4 == 0,
    ensures
        units32_ne_bytes(ne_units32(bytes)) == bytes,
    decreases bytes.len(),
{
    if bytes.len() == 0 {
        assert(ne_units32(bytes) =~= Seq::<u32>::empty());
        assert(units32_ne_bytes(ne_units32(bytes)) =~= bytes);
    } else {
        let n = bytes.len() as int;
        let init = bytes.take(n - 4);
        lemma_units32_ne_bytes_of_units(init);
        let us = ne_units32(bytes);
        assert(us.drop_last() =~= ne_units32(init));
        let b0 = bytes[n - 4];
        let b1 = bytes[n - 3];
        let b2 = bytes[n - 2];
        let b3 = bytes[n - 1];
        assert(us.last() == u32_from_ne(b0, b1, b2, b3));
        let le = ((b0 as u32) | ((b1 as u32) << 8u32) | ((b2 as u32) << 16u32) | ((b3 as u32)
            << 24u32)) as u32;
        let be = (((b0 as u32) << 24u32) | ((b1 as u32) << 16u32) | ((b2 as u32) << 8u32) | (
        b3 as u32)) as u32;
        assert((le & 0xff) as u8 == b0 && ((le >> 8u32) & 0xff) as u8 == b1 && ((le >> 16u32)
            & 0xff) as u8 == b2 && (le >> 24u32) as u8 == b3) by (bit_vector)
            requires
                le == ((b0 as u32) | ((b1 as u32) << 8u32) | ((b2 as u32) << 16u32) | ((
                b3 as u32) << 24u32)) as u32,
        ;
        assert((be >> 24u32) as u8 == b0 && ((be >> 16u32) & 0xff) as u8 == b1 && ((be >> 8u32)
            & 0xff) as u8 == b2 && (be & 0xff) as u8 == b3) by (bit_vector)
            requires
                be == (((b0 as u32) << 24u32) | ((b1 as u32) << 16u32) | ((b2 as u32) << 8u32)
                    | (b3 as u32)) as u32,
        ;
        assert(u32_ne_bytes(us.last()) =~= seq![b0, b1, b2, b3]);
        assert(bytes =~= init + seq![b0, b1, b2, b3]);
    }
}

/// Encoding what strict UTF-32 decoding read gives the units back.
pub proof fn lemma_scalar_values_of_decode(us: Seq<u32>)
    ensures
        utf32_decode(us) matches Some(cs) ==> scalar_values(cs) == us,
{
    if utf32_decode(us) is Some {
        let cs = us.map_values(|u: u32| u as char);
        assert forall|i: int| 0 <= i < us.len() implies #[trigger] scalar_values(cs)[i] == us[i] by {
            assert(is_scalar(us[i]));
            let c = us[i] as char;
            assert(c as u32 == us[i]);
        }
        assert(scalar_values(cs) =~= us);
    }
}

} // verus!
