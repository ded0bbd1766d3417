use vstd::prelude::*;
use std::num::ParseIntError;
use crate::unicode::utf16_decode_lossy;
use crate::text::{decimal_string, u64_to_decimal};

verus! {

#[verifier::external_type_specification]
#[verifier::external_body]
pub struct ExParseIntError(ParseIntError);

/// The value of a hexadecimal digit, as `from_str_radix` with radix 16 reads it.
pub open spec fn hex_digit_value(c: char) -> Option<nat> {
    if '0' <= c && c <= '9' {
        Some((c as nat - '0' as nat) as nat)
    } else if 'a' <= c && c <= 'f' {
        Some((c as nat - 'a' as nat + 10) as nat)
    } else if 'A' <= c && c <= 'F' {
        Some((c as nat - 'A' as nat + 10) as nat)
    } else {
        None
    }
}

/// The number that a sequence of hexadecimal digits spells, most significant first.
pub open spec fn hex_digits_value(ds: Seq<char>) -> Option<nat>
    decreases ds.len(),
{
    if ds.len() == 0 {
        Some(0)
    } else {
        match (hex_digits_value(ds.drop_last()), hex_digit_value(ds.last())) {
            (Some(high), Some(low)) => Some(high * 16 + low),
            _ => None,
        }
    }
}

/// What `u64::from_str_radix(s, 16)` reads: an optional `+` followed by at least one
/// hexadecimal digit and nothing else.
pub open spec fn parse_hex(s: Seq<char>) -> Option<nat> {
    let digits = if s.len() > 0 && s[0] == '+' {
        s.skip(1)
    } else {
        s
    };
    if digits.len() == 0 {
        None
    } else {
        hex_digits_value(digits)
    }
}

/// `String::from_utf16_lossy`: decodes UTF-16, replacing each unpaired surrogate with
/// U+FFFD, as the documentation says.
#[verifier::external_body]
fn string_from_utf16_lossy(units: &[u16]) -> (r: String)
    ensures
        r@ == utf16_decode_lossy(units@),
{
    String::from_utf16_lossy(units)
}

/// The error `u64::from_str_radix(s, 16)` gives for a text it refuses.
pub uninterp spec fn hex_parse_error(s: Seq<char>) -> ParseIntError;

/// `u64::from_str_radix(s, 16)`: as documented, an optional `+` followed by hexadecimal
/// digits parses to their value when it fits in a `u64`; anything else is an error, the one
/// `hex_parse_error` names for the text. Its kind (empty, invalid digit, positive overflow)
/// sits inside `ParseIntError`, which Verus cannot look into, and is left unsaid.
#[verifier::external_body]
fn u64_from_hex_str(s: &str) -> (r: Result<u64, ParseIntError>)
    ensures
        match parse_hex(s@) {
            Some(n) => if n <= u64::MAX {
                r matches Ok(v) && v as nat == n
            } else {
                r == Err::<u64, ParseIntError>(hex_parse_error(s@))
            },
            None => r == Err::<u64, ParseIntError>(hex_parse_error(s@)),
        },
{
    u64::from_str_radix(s, 16)
}

/// The code units of a SteamID string up to the first NUL, or all of them.
pub open spec fn until_nul(units: Seq<u16>) -> Seq<u16> {
    if exists|i: int| 0 <= i < units.len() && units[i] == 0 {
        units.take(
            choose|i: int|
                0 <= i < units.len() && units[i] == 0 && forall|j: int|
                    0 <= j < i ==> #[trigger] units[j] != 0,
        )
    } else {
        units
    }
}

/// The text of a SteamID string.
pub open spec fn steam_id_text(units: Seq<u16>) -> Seq<char> {
    utf16_decode_lossy(until_nul(units))
}

/// The value of a SteamID string, or 0 when its text is no hexadecimal number that fits in
/// a `u64`.
pub open spec fn steam_id_value(units: Seq<u16>) -> u64 {
    match parse_hex(steam_id_text(units)) {
        Some(n) => if n <= u64::MAX {
            n as u64
        } else {
            0
        },
        None => 0,
    }
}

/// SteamID as a hex wchar string with null terminator
#[derive(Clone, Copy)]
pub struct SteamIdStr(pub [u16; 17]);

impl SteamIdStr {
    /// The position of the first NUL, or the length when there is none.
    fn text_len(&self) -> (r: usize)
        ensures
            r <= 17,
            self.0@.take(r as int) == until_nul(self.0@),
    {
        let mut i: usize = 0;
        while i < 17
            invariant
                i <= 17,
                forall|j: int| 0 <= j < i ==> #[trigger] self.0@[j] != 0,
            decreases 17 - i,
        {
            if self.0[i] == 0 {
                proof {
                    let units = self.0@;
                    let c = choose|c: int|
                        0 <= c < units.len() && units[c] == 0 && forall|j: int|
                            0 <= j < c ==> #[trigger] units[j] != 0;
                    assert(0 <= c < units.len() && units[c] == 0 && forall|j: int| 0 <= j < c ==> #[trigger] units[j] != 0) by {
                        assert(0 <= i < units.len() && units[i as int] == 0 && forall|j: int| 0 <= j < i ==> #[trigger] units[j] != 0);
                    }
                    if c < i {
                        assert(units[c] != 0);
                    } else if c > i {
                        assert(units[i as int] != 0);
                    }
                }
                return i;
            }
            i = i + 1;
        }
        proof {
            assert(self.0@.take(17) =~= self.0@);
        }
        17
    }

    /// Parses the string as a hexadecimal number.
    pub fn to_u64(&self) -> (r: Result<u64, ParseIntError>)
        ensures
            match parse_hex(steam_id_text(self.0@)) {
                Some(n) => if n <= u64::MAX {
                    r matches Ok(v) && v as nat == n
                } else {
                    r == Err::<u64, ParseIntError>(hex_parse_error(steam_id_text(self.0@)))
                },
                None => r == Err::<u64, ParseIntError>(hex_parse_error(steam_id_text(self.0@))),
            },
    {
        let len = self.text_len();
        let units = vstd::slice::slice_subrange(self.0.as_slice(), 0, len);
        let s = string_from_utf16_lossy(units);
        proof {
            assert(units@ == self.0@.take(len as int));
        }
        u64_from_hex_str(s.as_str())
    }

    /// The decimal form of the parsed value, 0 when the string does not parse.
    pub fn to_string(&self) -> (r: String)
        ensures
            r@ == decimal_string(steam_id_value(self.0@) as nat),
    {
        let value = match self.to_u64() {
            Ok(v) => v,
            Err(_) => 0,
        };
        u64_to_decimal(value)
    }
}

impl From<SteamIdStr> for u64 {
    fn from(val: SteamIdStr) -> (r: u64)
        ensures
            r == steam_id_value(val.0@),
    {
        match val.to_u64() {
            Ok(v) => v,
            Err(_) => 0,
        }
    }
}

impl vstd::std_specs::convert::FromSpecImpl<SteamIdStr> for u64 {
    open spec fn obeys_from_spec() -> bool {
        true
    }

    open spec fn from_spec(val: SteamIdStr) -> u64 {
        steam_id_value(val.0@)
    }
}

#[derive(PartialEq, Eq, Clone, Copy, Structural)]
pub struct ObjectIdentifier(pub i64);

/// State of a phantom that is joining.
pub enum PhantomJoinState {
    /// Push notification sent to other player, awaiting for response
    Waiting,
    /// Player has accepted the join request
    Joining,
}

#[derive(PartialEq, Eq, Clone, Copy, Debug, Structural)]
pub enum SummonJobErrorCode {
    /// Default no error state
    Default,
    /// Sign data not found for the given sign ID
    SignDataNotFound,
    /// Sign coordinates are invalid and can't be converted to physics space
    InvalidCoordinates,
}

impl SummonJobErrorCode {
    /// The number the game stores this code as.
    pub fn code(&self) -> (r: i32)
        ensures
            r == (match *self {
                SummonJobErrorCode::Default => -70i32,
                SummonJobErrorCode::SignDataNotFound => -84i32,
                SummonJobErrorCode::InvalidCoordinates => -83i32,
            }),
    {
        match self {
            SummonJobErrorCode::Default => -70,
            SummonJobErrorCode::SignDataNotFound => -84,
            SummonJobErrorCode::InvalidCoordinates => -83,
        }
    }
}

/// Appearance of the ghost shown near a sign: the equipment, armor and gender of the sign's
/// owner.
pub struct DisplayGhostData {
    /// Param ID for the equipment
    /// See ChrAsmSlot enum to know which slot it is
    pub equipment_param_ids: [i32; 12],
    /// Param ID for the armor
    /// in order: head, chest, arms, legs, unsued
    pub armor_param_ids: [i32; 5],
    unk44: [u8; 4],
    /// Character gender
    pub gender: u8,
    unk49: [u8; 11],
}

pub struct CSSosSignSfx {
    pub sign_id: i32,
    pub fxhgsfx: usize,
}

#[derive(Clone, Copy, PartialEq, Eq, Debug, Structural)]
pub enum MultiplayType {
    WhiteSign,
    Invasion,
    RedSign,
    Unk3,
    Unk4,
    BerserkerWhite,
    SinnerHero,
    SinnerHunterInvasion,
    BlueHunterSummon,
    RosariaGuardian,
    Unk10,
    Unk11,
    Unk12,
    Unk13,
    CultWhiteSummon,
    Unk15,
    Unk16,
    Unk17,
    Unk18,
    Unk19,
    NpcWhiteSign,
    Unk21,
    Unk22,
    NpcInvasion1,
    Unk24,
    Unk25,
    Unk26,
    AlwaysAllow,
    Unk28,
    NpcInvasion2,
    Unk30,
    NoType,
}

} // verus!
