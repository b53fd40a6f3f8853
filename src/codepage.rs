//! The configuration file's legacy single-byte text encoding (windows-1252).
//!
//! The byte-to-character table is the `encoding` crate's; it is named here by
//! `cp1252_char` and never spelled out.

use vstd::prelude::*;

use encoding::all::WINDOWS_1252;
use encoding::{DecoderTrap, EncoderTrap, Encoding};

verus! {

/// The character that the windows-1252 table assigns to byte `b`.
pub uninterp spec fn cp1252_char(b: u8) -> char;

/// Text that decodes from `b`, one character per byte.
pub open spec fn decoded(b: Seq<u8>) -> Seq<char> {
    Seq::new(b.len(), |i: int| cp1252_char(b[i]))
}

/// Some byte decodes to `c`.
pub open spec fn representable(c: char) -> bool {
    exists|b: u8| #[trigger] cp1252_char(b) == c
}

/// Every character of `s` has a byte.
pub open spec fn all_representable(s: Seq<char>) -> bool {
    forall|i: int| 0 <= i < s.len() ==> representable(#[trigger] s[i])
}

/// Relies on `encoding`'s `WINDOWS_1252.decode` with `DecoderTrap::Replace`:
/// the single-byte decoder writes one character per byte, ASCII bytes as
/// themselves, and the `Replace` trap always lets decoding go on, so the
/// result is never an error.
#[verifier::external_body]
fn cp1252_decode(bytes: &[u8]) -> (r: Result<String, String>)
    ensures
        r is Ok,
        r matches Ok(s) ==> s@.len() == bytes@.len(),
        r matches Ok(s) ==> forall|i: int|
            0 <= i < bytes@.len() ==> #[trigger] s@[i] == cp1252_char(bytes@[i]),
        r matches Ok(s) ==> forall|i: int|
            0 <= i < bytes@.len() && bytes@[i] < 0x80 ==> #[trigger] s@[i] == bytes@[i] as char,
{
    match WINDOWS_1252.decode(bytes, DecoderTrap::Replace) {
        Ok(s) => Ok(s),
        Err(e) => Err(e.into_owned()),
    }
}

/// Relies on `encoding`'s `WINDOWS_1252.encode` with `EncoderTrap::Replace`:
/// the single-byte encoder writes one byte per character, the byte of the
/// table for a character that has one and `?` for one that has none, and the
/// `Replace` trap always lets encoding go on.
#[verifier::external_body]
fn cp1252_encode(text: &str) -> (r: Result<Vec<u8>, String>)
    ensures
        r is Ok,
        r matches Ok(b) ==> b@.len() == text@.len(),
        r matches Ok(b) ==> forall|i: int|
            0 <= i < text@.len() && representable(text@[i]) ==> cp1252_char(#[trigger] b@[i])
                == text@[i],
        r matches Ok(b) ==> forall|i: int|
            0 <= i < text@.len() && !representable(text@[i]) ==> #[trigger] b@[i] == 0x3f,
{
    match WINDOWS_1252.encode(text, EncoderTrap::Replace) {
        Ok(b) => Ok(b),
        Err(e) => Err(e.into_owned()),
    }
}

/// Decodes bytes read from the configuration file. Every byte has a
/// character, so decoding cannot fail.
pub fn decode_windows1252(bytes: &[u8]) -> (r: String)
    ensures
        r@ == decoded(bytes@),
        forall|i: int| 0 <= i < bytes@.len() && bytes@[i] < 0x80 ==> #[trigger] r@[i] == bytes@[i] as char,
{
    match cp1252_decode(bytes) {
        Ok(s) => {
            assert(s@ =~= decoded(bytes@));
            s
        },
        Err(_) => String::new(),
    }
}

/// Encodes text for the configuration file, one byte per character; a
/// character without a byte becomes `?`. Text whose characters all have a
/// byte decodes back to itself.
pub fn encode_windows1252(text: &str) -> (r: Vec<u8>)
    ensures
        r@.len() == text@.len(),
        forall|i: int|
            0 <= i < text@.len() && representable(text@[i]) ==> cp1252_char(#[trigger] r@[i])
                == text@[i],
        forall|i: int| 0 <= i < text@.len() && !representable(text@[i]) ==> #[trigger] r@[i] == 0x3f,
        all_representable(text@) ==> decoded(r@) == text@,
{
    match cp1252_encode(text) {
        Ok(b) => {
            assert(all_representable(text@) ==> decoded(b@) =~= text@);
            b
        },
        Err(_) => Vec::new(),
    }
}

} // verus!
