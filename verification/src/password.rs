//! Preparation of the password before key derivation.
//!
//! Two rules, in this order, after the `OpaqueString` profile of RFC 8265:
//!
//! 1. every character of Unicode category `Zs` becomes the ASCII space;
//! 2. the result is composed to normalization form C (NFC), then encoded as
//!    UTF-8.
//!
//! Case, accents, symbols and emoji are kept. NFKC is not used: it would merge
//! characters that users hold distinct (`ﬁ` and `fi`) and destroy entropy.
//! Only the password is prepared; the document is stored byte for byte.
use vstd::prelude::*;
use vstd::utf8::*;

use crate::error::{Error, Result};
use crate::primitives::{nfc, nfc_compose, wipe_chars, wipe_text};

verus! {

/// The characters of Unicode category `Zs` (Separator, space), a closed list.
pub open spec fn is_unicode_space(c: char) -> bool {
    ||| c == '\u{0020}'
    ||| c == '\u{00A0}'
    ||| c == '\u{1680}'
    ||| ('\u{2000}' <= c && c <= '\u{200A}')
    ||| c == '\u{202F}'
    ||| c == '\u{205F}'
    ||| c == '\u{3000}'
}

/// The password with every `Zs` character replaced by the ASCII space.
pub open spec fn map_spaces(password: Seq<char>) -> Seq<char> {
    Seq::new(
        password.len(),
        |i: int|
            if is_unicode_space(password[i]) {
                ' '
            } else {
                password[i]
            },
    )
}

/// The bytes handed to Argon2id for a password: spaces mapped, NFC, UTF-8.
pub open spec fn prepared_password(password: Seq<char>) -> Seq<u8> {
    encode_utf8(nfc(map_spaces(password)))
}

/// Tells whether a character belongs to Unicode category `Zs`.
fn is_space_char(c: char) -> (res: bool)
    ensures
        res == is_unicode_space(c),
{
    c == '\u{0020}' || c == '\u{00A0}' || c == '\u{1680}' || ('\u{2000}' <= c && c <= '\u{200A}')
        || c == '\u{202F}' || c == '\u{205F}' || c == '\u{3000}'
}

/// Replaces every `Zs` character of the password by the ASCII space.
pub fn map_unicode_spaces(password: &str) -> (res: Vec<char>)
    ensures
        res@ == map_spaces(password@),
{
    let mut out: Vec<char> = Vec::new();
    for c in it: password.chars()
        invariant
            it.seq() == password@,
            out@ == map_spaces(password@).take(it.index() as int),
    {
        if is_space_char(c) {
            out.push(' ');
        } else {
            out.push(c);
        }
        assert(out@ =~= map_spaces(password@).take(it.index() as int + 1));
    }
    assert(map_spaces(password@).take(password@.len() as int) =~= map_spaces(password@));
    out
}

/// Prepares a password and returns its UTF-8 bytes.
///
/// The intermediate forms are wiped before returning; wiping the returned
/// bytes after use is left to the caller.
///
/// Fails with [`Error::EmptyPassword`] exactly when the password is empty.
pub fn prepare(password: &str) -> (res: Result<Vec<u8>>)
    ensures
        res is Err <==> password@.len() == 0,
        res matches Err(e) ==> e == Error::EmptyPassword,
        res matches Ok(bytes) ==> bytes@ == prepared_password(password@),
{
    if password.is_empty() {
        return Err(Error::EmptyPassword);
    }
    let mut mapped = map_unicode_spaces(password);
    let mut normalized = nfc_compose(&mapped);
    wipe_chars(&mut mapped);
    let bytes = vstd::slice::slice_to_vec(normalized.as_str().as_bytes());
    wipe_text(&mut normalized);
    Ok(bytes)
}

/// Two passwords that differ only in which `Zs` spaces they use prepare to
/// the same bytes: a no-break space types the same key as an ASCII space.
pub proof fn lemma_spaces_are_interchangeable(a: Seq<char>, b: Seq<char>)
    requires
        a.len() == b.len(),
        forall|i: int|
            0 <= i < a.len() ==> a[i] == b[i] || (is_unicode_space(a[i]) && is_unicode_space(
                b[i],
            )),
    ensures
        prepared_password(a) == prepared_password(b),
{
    assert(map_spaces(a) =~= map_spaces(b));
}

/// Space mapping keeps the length and every character that is not a `Zs`
/// space, and leaves no `Zs` space other than the ASCII one.
pub proof fn lemma_space_mapping_keeps_the_rest(password: Seq<char>)
    ensures
        map_spaces(password).len() == password.len(),
        forall|i: int|
            0 <= i < password.len() && !is_unicode_space(password[i]) ==> #[trigger] map_spaces(
                password,
            )[i] == password[i],
        forall|i: int|
            0 <= i < password.len() && is_unicode_space(password[i]) ==> #[trigger] map_spaces(
                password,
            )[i] == ' ',
{
}

} // verus!
