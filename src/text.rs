//! Textual renderings of values handed to the invoked command.

use vstd::prelude::*;
use vstd::utf8::*;

verus! {

/// The character for a decimal digit.
pub open spec fn digit_char(d: nat) -> char {
    seq!['0', '1', '2', '3', '4', '5', '6', '7', '8', '9'][d as int]
}

/// The decimal text of `n`, without sign or leading zeros.
pub open spec fn decimal_text(n: nat) -> Seq<char>
    decreases n,
{
    if n < 10 {
        seq![digit_char(n)]
    } else {
        decimal_text(n / 10).push(digit_char(n % 10))
    }
}

/// The character for a base-62 digit: `0-9`, then `a-z`, then `A-Z`.
pub open spec fn base62_digit(d: nat) -> char {
    seq![
        '0', '1', '2', '3', '4', '5', '6', '7', '8', '9',
        'a', 'b', 'c', 'd', 'e', 'f', 'g', 'h', 'i', 'j', 'k', 'l', 'm',
        'n', 'o', 'p', 'q', 'r', 's', 't', 'u', 'v', 'w', 'x', 'y', 'z',
        'A', 'B', 'C', 'D', 'E', 'F', 'G', 'H', 'I', 'J', 'K', 'L', 'M',
        'N', 'O', 'P', 'Q', 'R', 'S', 'T', 'U', 'V', 'W', 'X', 'Y', 'Z',
    ][d as int]
}

/// The last `width` base-62 digits of `n`, most significant first, padded with `0`.
pub open spec fn base62_text(n: nat, width: nat) -> Seq<char>
    decreases width,
{
    if width == 0 {
        seq![]
    } else {
        base62_text(n / 62, (width - 1) as nat).push(base62_digit(n % 62))
    }
}

/// The canonical text of a 128-bit track identifier: 22 base-62 digits.
pub open spec fn track_id_text(id: u128) -> Seq<char> {
    base62_text(id as nat, 22)
}

/// Relies on `<u64 as ToString>::to_string`, the decimal rendering of an integer.
#[verifier::external_body]
pub(crate) fn decimal_string(n: u64) -> (r: String)
    ensures
        r@ == decimal_text(n as nat),
{
    n.to_string()
}

/// Relies on librespot_core's `SpotifyId::to_base62`: it writes the identifier's
/// 128-bit value as 22 base-62 digits over `0-9a-zA-Z`, most significant first.
/// Its bytes are ASCII digits, so its UTF-8 conversion always succeeds.
#[verifier::external_body]
pub(crate) fn track_id_base62(id: u128) -> (r: Option<String>)
    ensures
        r.is_some(),
        r.unwrap()@ == track_id_text(id),
{
    let audio_type = librespot_core::spotify_id::SpotifyAudioType::Track;
    librespot_core::spotify_id::SpotifyId { id, audio_type }.to_base62().ok()
}

/// Relies on `String::from_utf8`: it accepts exactly the well-formed UTF-8 byte
/// sequences and then holds the characters they encode.
#[verifier::external_body]
pub(crate) fn utf8_string(bytes: Vec<u8>) -> (r: Option<String>)
    ensures
        r.is_some() == valid_utf8(bytes@),
        r.is_some() ==> r.unwrap()@ == decode_utf8(bytes@),
{
    String::from_utf8(bytes).ok()
}

} // verus!
