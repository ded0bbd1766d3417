use vstd::prelude::*;
use pelite::pe64::{Pe, PeView};
use crate::unicode::{u32_from_ne, u32_from_ne_bytes};

verus! {

/// The signature of arxan's code restoration checks. The `'` marks the second capture: the
/// conditional jump that guards each restoration.
pub const CODE_RESTORATION_PATTERN: &'static str =
    "B9 ? ? ? ? E8 ? ? ? ? F3 0F 11 05 ? ? ? ? [0-128] ' 72 ? 48 8D ? ? ? ? ?";

/// The matches, in the order pelite finds them, of the pelite pattern `signature` in the code
/// section of the PE image `image`, each as its two captures (the match itself and the `'`
/// mark); `None` when the image is no PE image or the signature no pattern.
pub uninterp spec fn pelite_code_matches(image: Seq<u8>, signature: Seq<char>) -> Option<Seq<(u32, u32)>>;

/// The native-order 32-bit value at `at`.
pub open spec fn header_u32(image: Seq<u8>, at: int) -> u32 {
    u32_from_ne(image[at], image[at + 1], image[at + 2], image[at + 3])
}

/// Position of the NT headers: the DOS header's `e_lfanew`.
pub open spec fn nt_offset(image: Seq<u8>) -> int {
    header_u32(image, 0x3c) as int
}

/// Whether the code range the optional header names, `BaseOfCode` to `BaseOfCode` plus
/// `SizeOfCode`, lies inside the image, the image's length fits in a `u32`, and so pelite's
/// scan stays inside the image. Images too short to hold those header fields pelite refuses
/// before it scans, so they pass.
pub open spec fn code_range_fits(image: Seq<u8>) -> bool {
    &&& image.len() <= u32::MAX
    &&& (image.len() >= 0x40 && nt_offset(image) + 0x30 <= image.len()) ==> header_u32(
        image,
        nt_offset(image) + 0x2c,
    ) + header_u32(image, nt_offset(image) + 0x1c) <= image.len()
}

/// pelite's code scan: `PeView::from_bytes`, `pattern::parse`, then `Scanner::matches_code`,
/// with every match's two captures collected. Whatever is found is what
/// `pelite_code_matches` names. `from_bytes` also refuses an image whose first byte is not
/// 4-byte aligned in memory, so `None` can come back where the name has matches; that case
/// depends on an address and is left unsaid.
#[verifier::external_body]
fn scan_code(image: &[u8], signature: &str) -> (r: Option<Vec<(u32, u32)>>)
    requires
        code_range_fits(image@),
    ensures
        r matches Some(v) ==> pelite_code_matches(image@, signature@) == Some(v@),
        pelite_code_matches(image@, signature@) is None ==> r is None,
{
    let view = PeView::from_bytes(image).ok()?;
    let pattern = pelite::pattern::parse(signature).ok()?;
    let mut matches = view.scanner().matches_code(&pattern);
    let mut captures: [u32; 2] = [0; 2];
    let mut found = Vec::new();
    while matches.next(&mut captures) {
        found.push((captures[0], captures[1]));
    }
    Some(found)
}

/// The native-order 32-bit value at `at`.
fn read_u32(image: &[u8], at: usize) -> (r: u32)
    requires
        at + 4 <= image@.len(),
    ensures
        r == header_u32(image@, at as int),
{
    u32_from_ne_bytes([image[at], image[at + 1], image[at + 2], image[at + 3]])
}

/// Checks `code_range_fits` on the header bytes.
pub fn check_code_range(image: &[u8]) -> (r: bool)
    ensures
        r == code_range_fits(image@),
{
    let len = image.len();
    if len > 0xFFFF_FFFF {
        return false;
    }
    if len < 0x40 {
        return true;
    }
    let nt = read_u32(image, 0x3c) as usize;
    if nt > len || len - nt < 0x30 {
        return true;
    }
    let base = read_u32(image, nt + 0x2c) as u64;
    let size = read_u32(image, nt + 0x1c) as u64;
    base + size <= len as u64
}

/// The second capture of each match, in order.
pub open spec fn second_captures(found: Seq<(u32, u32)>) -> Seq<u32> {
    found.map_values(|m: (u32, u32)| m.1)
}

/// The RVAs that the matches mark: the second capture of each, in order.
pub fn rvas_from_matches(found: &Vec<(u32, u32)>) -> (r: Vec<u32>)
    ensures
        r@ == second_captures(found@),
{
    let mut result: Vec<u32> = Vec::new();
    let mut i: usize = 0;
    while i < found.len()
        invariant
            i <= found@.len(),
            result@ == second_captures(found@.take(i as int)),
        decreases found@.len() - i,
    {
        result.push(found[i].1);
        i = i + 1;
        proof {
            assert(second_captures(found@.take(i as int)) =~= second_captures(
                found@.take(i - 1),
            ).push(found@[i - 1].1));
        }
    }
    proof {
        assert(found@.take(found@.len() as int) =~= found@);
    }
    result
}

/// Returns the RVAs of the arxan code restoration routines in the loaded module image
/// `image`: the conditional jump of each match of `CODE_RESTORATION_PATTERN` in its code, in
/// the order pelite finds them. `None` when pelite does not take the image, or when the
/// image's code range does not lie inside it.
pub fn get_arxan_code_restoration_rvas(image: &[u8]) -> (r: Option<Vec<u32>>)
    ensures
        r matches Some(v) ==> (pelite_code_matches(image@, CODE_RESTORATION_PATTERN@) matches Some(
            m,
        ) && v@ == second_captures(m)),
        pelite_code_matches(image@, CODE_RESTORATION_PATTERN@) is None ==> r is None,
        !code_range_fits(image@) ==> r is None,
{
    if !check_code_range(image) {
        return None;
    }
    match scan_code(image, CODE_RESTORATION_PATTERN) {
        Some(found) => Some(rvas_from_matches(&found)),
        None => None,
    }
}

} // verus!
