//! Translation ids: a 16-bit language code and a 16-bit codepage, packed
//! language-major (`0x0409_04B0` is US English, Unicode).

use vstd::prelude::*;

verus! {

/// US English with the codepage left unspecified.
pub const LANG_US_ENGLISH_CP_UNKNOWN: u32 = 0x0409_0000;

/// US English with the Unicode codepage.
pub const LANG_US_ENGLISH_CP_UNICODE: u32 = 0x0409_04B0;

/// US English with the US-ASCII codepage.
pub const LANG_US_ENGLISH_CP_USASCII: u32 = 0x0409_04E4;

/// The little-endian number held in the first four bytes of `b`.
pub open spec fn le_u32(b: Seq<u8>) -> int
    recommends
        b.len() >= 4,
{
    b[0] + 0x100 * b[1] + 0x1_0000 * b[2] + 0x100_0000 * b[3]
}

/// `x` with its two 16-bit halves exchanged.
pub open spec fn swap_halves_spec(x: u32) -> u32 {
    ((x % 0x1_0000) * 0x1_0000 + x / 0x1_0000) as u32
}

/// The translation id that a `\VarFileInfo\Translation` value declares: none
/// when the value is absent or shorter than four bytes, else its first four
/// bytes read little-endian with the halves exchanged.
pub open spec fn resolved_id(value: Option<Seq<u8>>) -> Option<u32> {
    match value {
        Some(b) => if b.len() >= 4 {
            Some(swap_halves_spec(le_u32(b) as u32))
        } else {
            None
        },
        None => None,
    }
}

/// The three ids tried after the declared one, in order.
pub open spec fn fallback_ids() -> Seq<u32> {
    seq![LANG_US_ENGLISH_CP_UNKNOWN, LANG_US_ENGLISH_CP_UNICODE, LANG_US_ENGLISH_CP_USASCII]
}

/// The ids tried in order: the declared one, if any, then the fallbacks.
pub open spec fn candidate_ids_spec(resolved: Option<u32>) -> Seq<u32> {
    match resolved {
        Some(id) => seq![id] + fallback_ids(),
        None => fallback_ids(),
    }
}

/// Exchanges the two 16-bit halves of `x` (a rotation by 16 bits).
pub fn swap_halves(x: u32) -> (r: u32)
    ensures
        r == swap_halves_spec(x),
{
    let lo: u32 = x % 0x1_0000;
    let hi: u32 = x / 0x1_0000;
    assert(lo * 0x1_0000 <= 0xFFFF_0000) by (nonlinear_arith)
        requires
            lo < 0x1_0000,
    ;
    lo * 0x1_0000 + hi
}

/// Reads the first four bytes of `b` as a little-endian number, byte by byte
/// (the bytes need not be aligned).
pub fn read_le_u32(b: &[u8]) -> (r: u32)
    requires
        b@.len() >= 4,
    ensures
        r == le_u32(b@),
{
    let b0: u32 = b[0] as u32;
    let b1: u32 = b[1] as u32;
    let b2: u32 = b[2] as u32;
    let b3: u32 = b[3] as u32;
    b0 + 0x100 * b1 + 0x1_0000 * b2 + 0x100_0000 * b3
}

/// The translation id declared by the value found at `\VarFileInfo\Translation`
/// (`None` when the lookup found nothing).
pub fn resolve_translation(value: Option<&[u8]>) -> (r: Option<u32>)
    ensures
        r == resolved_id(match value {
            Some(b) => Some(b@),
            None => None,
        }),
{
    match value {
        Some(b) => if b.len() >= 4 {
            Some(swap_halves(read_le_u32(b)))
        } else {
            None
        },
        None => None,
    }
}

/// The translation ids to try, in order: `resolved` first when there is one,
/// then US English with codepage unspecified, Unicode and US-ASCII.
pub fn candidate_ids(resolved: Option<u32>) -> (r: Vec<u32>)
    ensures
        r@ == candidate_ids_spec(resolved),
{
    let mut ids: Vec<u32> = Vec::new();
    if let Some(id) = resolved {
        ids.push(id);
    }
    ids.push(LANG_US_ENGLISH_CP_UNKNOWN);
    ids.push(LANG_US_ENGLISH_CP_UNICODE);
    ids.push(LANG_US_ENGLISH_CP_USASCII);
    proof {
        assert(ids@ =~= candidate_ids_spec(resolved));
    }
    ids
}

/// Exchanging the halves twice gives back the original id.
pub proof fn lemma_swap_halves_involutive(x: u32)
    ensures
        swap_halves_spec(swap_halves_spec(x)) == x,
{
    let lo = x % 0x1_0000;
    let hi = x / 0x1_0000;
    assert(x == hi * 0x1_0000 + lo);
    assert(lo * 0x1_0000 + hi <= 0xFFFF_FFFF) by (nonlinear_arith)
        requires
            lo < 0x1_0000,
            hi < 0x1_0000,
    ;
    let y = (lo * 0x1_0000 + hi) as u32;
    assert(y % 0x1_0000 == hi && y / 0x1_0000 == lo) by (nonlinear_arith)
        requires
            lo < 0x1_0000,
            hi < 0x1_0000,
            y == lo * 0x1_0000 + hi,
    ;
}

/// Without a declared translation the candidates are exactly the three
/// fallbacks; with one, it comes first and the fallbacks follow. Either way
/// there is at least one candidate.
pub proof fn lemma_candidates_shape(value: Option<Seq<u8>>)
    ensures
        resolved_id(value) is None ==> candidate_ids_spec(resolved_id(value)) == fallback_ids(),
        resolved_id(value) is Some ==> candidate_ids_spec(resolved_id(value))
            == seq![resolved_id(value)->Some_0] + fallback_ids(),
        value is None ==> resolved_id(value) is None,
        value matches Some(b) && b.len() < 4 ==> resolved_id(value) is None,
        candidate_ids_spec(resolved_id(value)).len() >= 3,
{
}

} // verus!
