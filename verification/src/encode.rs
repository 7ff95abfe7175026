//! String encodings for the native boundary: null-terminated ASCII for
//! identifiers, null-terminated UTF-16 for paths.

use vstd::prelude::*;
use vstd::string::*;
use vstd::utf8::*;

verus! {

/// Why a string cannot be handed to the native layer.
#[derive(Clone, Copy, Debug, PartialEq, Eq, Structural)]
pub enum StringToOSAsciiError {
    /// The string holds a character outside the ASCII range.
    NonAscii,
    /// The string holds a null that would cut the native string short.
    Null,
}

/// The bytes of an ASCII text: one byte per character.
pub open spec fn ascii_bytes(text: Seq<char>) -> Seq<u8> {
    Seq::new(text.len(), |i: int| text[i] as u8)
}

/// The characters of a byte string: one character per byte.
pub open spec fn ascii_text(bytes: Seq<u8>) -> Seq<char> {
    Seq::new(bytes.len(), |i: int| bytes[i] as char)
}

/// The number of bytes in front of the first zero byte, or the length of
/// `bytes` if none is zero: what a native reader takes as the string's length.
pub open spec fn c_strlen(bytes: Seq<u8>) -> nat
    decreases bytes.len(),
{
    if bytes.len() == 0 || bytes[0] == 0 {
        0
    } else {
        1 + c_strlen(bytes.drop_first())
    }
}

/// What a native reader sees in a null-terminated ASCII buffer.
pub open spec fn c_string_text(bytes: Seq<u8>) -> Seq<char> {
    ascii_text(bytes.take(c_strlen(bytes) as int))
}

/// A well-formed native narrow string: it ends in its only zero byte.
pub open spec fn is_c_string(bytes: Seq<u8>) -> bool {
    &&& bytes.len() > 0
    &&& bytes.last() == 0
    &&& forall|i: int| 0 <= i < bytes.len() - 1 ==> bytes[i] != 0
}

/// A well-formed native wide string: it ends in its only zero unit.
pub open spec fn is_wide_c_string(units: Seq<u16>) -> bool {
    &&& units.len() > 0
    &&& units.last() == 0
    &&& forall|i: int| 0 <= i < units.len() - 1 ==> units[i] != 0
}

/// The result of encoding an identifier: the first rule that applies decides.
pub open spec fn os_ascii(text: Seq<char>) -> Result<Seq<u8>, StringToOSAsciiError> {
    if !is_ascii_chars(text) {
        Err(StringToOSAsciiError::NonAscii)
    } else if text.contains('\0') {
        Err(StringToOSAsciiError::Null)
    } else {
        Ok(ascii_bytes(text).push(0u8))
    }
}

/// A buffer whose first zero byte stands at `n` has native length `n`.
pub proof fn lemma_c_strlen(bytes: Seq<u8>, n: int)
    requires
        0 <= n < bytes.len(),
        bytes[n] == 0,
        forall|i: int| 0 <= i < n ==> bytes[i] != 0,
    ensures
        c_strlen(bytes) == n,
    decreases n,
{
    if n > 0 {
        let rest = bytes.drop_first();
        assert(rest[n - 1] == bytes[n]);
        assert forall|i: int| 0 <= i < n - 1 implies rest[i] != 0 by {
            assert(rest[i] == bytes[i + 1]);
        }
        lemma_c_strlen(rest, n - 1);
    }
}

/// Encoding an ASCII text without a null succeeds, the buffer is a
/// well-formed native string, and a native reader gets the text back from it.
/// The buffer is the text's UTF-8 bytes followed by the terminator.
pub proof fn lemma_os_ascii_round_trip(text: Seq<char>)
    ensures
        is_ascii_chars(text) && !text.contains('\0') ==> (os_ascii(text) matches Ok(bytes)
            && is_c_string(bytes) && c_string_text(bytes) == text && bytes == encode_utf8(
            text,
        ).push(0u8)),
{
    if is_ascii_chars(text) && !text.contains('\0') {
        let bytes = ascii_bytes(text).push(0u8);
        let n = text.len() as int;
        assert forall|i: int| 0 <= i < n implies bytes[i] != 0 by {
            assert(text[i] != '\0');
            assert(bytes[i] == text[i] as u8);
        }
        lemma_c_strlen(bytes, n);
        assert(c_string_text(bytes) =~= text);
        is_ascii_chars_encode_utf8(text);
        assert(ascii_bytes(text) =~= encode_utf8(text));
    }
}

/// A text with a null in front of its last character is refused as `Null` as
/// a path, and as an identifier too if it is ASCII. An identifier that also
/// holds a character outside ASCII is refused as `NonAscii` instead.
pub proof fn lemma_interior_nul_refused(text: Seq<char>)
    requires
        has_interior_nul(text),
    ensures
        os_wide(text) == Err::<Seq<u16>, StringToOSAsciiError>(StringToOSAsciiError::Null),
        is_ascii_chars(text) ==> os_ascii(text) == Err::<Seq<u8>, StringToOSAsciiError>(
            StringToOSAsciiError::Null,
        ),
        !is_ascii_chars(text) ==> os_ascii(text) == Err::<Seq<u8>, StringToOSAsciiError>(
            StringToOSAsciiError::NonAscii,
        ),
{
    let k = choose|k: int| 0 <= k < text.len() - 1 && text[k] == '\0';
    assert(text.contains('\0'));
}

/// Encodes an identifier (an entry-point name, a target profile, a macro's
/// name or definition) as a null-terminated ASCII buffer.
///
/// A string with a character outside ASCII is refused as `NonAscii`, whatever
/// else it holds; an ASCII string with a null anywhere in it is refused as
/// `Null`. Every other string gives its bytes followed by one zero byte.
pub fn string_to_os_ascii(string: String) -> (r: Result<Vec<u8>, StringToOSAsciiError>)
    ensures
        match os_ascii(string@) {
            Ok(bytes) => r matches Ok(v) && v@ == bytes,
            Err(e) => r == Err::<Vec<u8>, StringToOSAsciiError>(e),
        },
        !is_ascii_chars(string@) ==> r == Err::<Vec<u8>, StringToOSAsciiError>(
            StringToOSAsciiError::NonAscii,
        ),
        is_ascii_chars(string@) && string@.contains('\0') ==> r == Err::<
            Vec<u8>,
            StringToOSAsciiError,
        >(StringToOSAsciiError::Null),
        is_ascii_chars(string@) && !string@.contains('\0') ==> (r matches Ok(v) && is_c_string(
            v@,
        ) && c_string_text(v@) == string@ && v@ == encode_utf8(string@).push(0u8)),
{
    proof {
        lemma_os_ascii_round_trip(string@);
    }
    if !string.is_ascii() {
        return Err(StringToOSAsciiError::NonAscii);
    }
    let mut bytes = string.as_str().as_bytes_vec();
    proof {
        is_ascii_chars_encode_utf8(string@);
    }
    let mut i: usize = 0;
    while i < bytes.len()
        invariant
            i <= bytes.len(),
            bytes.len() == string@.len(),
            is_ascii_chars(string@),
            forall|j: int| 0 <= j < bytes.len() ==> string@[j] as u8 == #[trigger] bytes[j],
            forall|j: int| 0 <= j < i ==> string@[j] != '\0',
        decreases bytes.len() - i,
    {
        if bytes[i] == 0 {
            assert(string@[i as int] == '\0');
            return Err(StringToOSAsciiError::Null);
        }
        i += 1;
    }
    assert(bytes@ =~= ascii_bytes(string@));
    bytes.push(0);
    Ok(bytes)
}

/// The UTF-16 code units of one character: itself below U+10000, a surrogate
/// pair above.
pub open spec fn utf16_units(c: char) -> Seq<u16> {
    let v = c as u32 as int;
    if v < 0x10000 {
        seq![v as u16]
    } else {
        seq![(0xD800 + (v - 0x10000) / 0x400) as u16, (0xDC00 + (v - 0x10000) % 0x400) as u16]
    }
}

/// The UTF-16 encoding of a text, with no terminator.
pub open spec fn utf16(text: Seq<char>) -> Seq<u16>
    decreases text.len(),
{
    if text.len() == 0 {
        Seq::empty()
    } else {
        utf16(text.drop_last()) + utf16_units(text.last())
    }
}

/// A zero unit stands in front of the last position.
pub open spec fn nul_before_last(units: Seq<u16>) -> bool {
    exists|i: int| 0 <= i < units.len() - 1 && units[i] == 0
}

/// `units` closed by one zero unit; a zero that already stands last is kept
/// as the terminator.
pub open spec fn nul_terminated(units: Seq<u16>) -> Seq<u16> {
    if units.len() > 0 && units.last() == 0 {
        units
    } else {
        units.push(0u16)
    }
}

/// A null character stands in front of the last position: it would cut the
/// native string short.
pub open spec fn has_interior_nul(text: Seq<char>) -> bool {
    exists|i: int| 0 <= i < text.len() - 1 && text[i] == '\0'
}

/// The result of encoding a path.
pub open spec fn os_wide(text: Seq<char>) -> Result<Seq<u16>, StringToOSAsciiError> {
    if has_interior_nul(text) {
        Err(StringToOSAsciiError::Null)
    } else {
        Ok(nul_terminated(utf16(text)))
    }
}

#[verifier::external_type_specification]
#[verifier::external_body]
#[verifier::reject_recursive_types(C)]
pub struct ExContainsNul<C>(widestring::error::ContainsNul<C>);

/// `widestring::U16CString::from_str`, with the string it builds taken apart
/// by `U16CString::into_vec_with_nul`.
///
/// Trusted: the call encodes `s` as UTF-16 and fails exactly when a zero unit
/// stands in front of the last position; otherwise the vector holds the units
/// and ends in one zero unit, which is the string's own last unit if that was
/// zero already.
#[verifier::external_body]
fn u16cstring_from_str(s: &str) -> (r: Result<Vec<u16>, widestring::error::ContainsNul<u16>>)
    ensures
        r is Err <==> nul_before_last(utf16(s@)),
        r matches Ok(v) ==> v@ == nul_terminated(utf16(s@)),
{
    match widestring::U16CString::from_str(s) {
        Ok(wide) => Ok(wide.into_vec_with_nul()),
        Err(e) => Err(e),
    }
}

/// A character's units hold a zero only if the character is the null, which
/// has the single unit zero.
pub proof fn lemma_utf16_units(c: char)
    ensures
        1 <= utf16_units(c).len() <= 2,
        c == '\0' ==> utf16_units(c) == seq![0u16],
        c != '\0' ==> forall|i: int| 0 <= i < utf16_units(c).len() ==> utf16_units(c)[i] != 0,
{
    let v = c as u32 as int;
    assert(v <= 0x10FFFF);
    if v >= 0x10000 {
        assert(0 <= (v - 0x10000) / 0x400 < 0x400);
        assert(0 <= (v - 0x10000) % 0x400 < 0x400);
    }
}

/// The encoding of a text holds a zero unit exactly if the text holds a null.
pub proof fn lemma_utf16_nul(text: Seq<char>)
    ensures
        utf16(text).contains(0u16) <==> text.contains('\0'),
    decreases text.len(),
{
    if text.len() > 0 {
        let front = text.drop_last();
        let c = text.last();
        lemma_utf16_nul(front);
        lemma_utf16_units(c);
        let enc = utf16(text);
        assert(enc == utf16(front) + utf16_units(c));
        if text.contains('\0') {
            let k = choose|k: int| 0 <= k < text.len() && text[k] == '\0';
            if k < text.len() - 1 {
                assert(front[k] == '\0');
                assert(front.contains('\0'));
                let j = choose|j: int| 0 <= j < utf16(front).len() && utf16(front)[j] == 0;
                assert(enc[j] == 0);
            } else {
                assert(enc[utf16(front).len() as int] == utf16_units(c)[0]);
            }
            assert(enc.contains(0u16));
        }
        if enc.contains(0u16) {
            let j = choose|j: int| 0 <= j < enc.len() && enc[j] == 0;
            if j < utf16(front).len() {
                assert(utf16(front)[j] == 0);
                assert(utf16(front).contains(0u16));
                let k = choose|k: int| 0 <= k < front.len() && front[k] == '\0';
                assert(text[k] == '\0');
            } else {
                assert(utf16_units(c)[j - utf16(front).len()] == 0);
                assert(text[text.len() - 1] == '\0');
            }
            assert(text.contains('\0'));
        }
    }
}

/// A zero unit stands in front of the last unit exactly if a null character
/// stands in front of the last character.
pub proof fn lemma_utf16_interior_nul(text: Seq<char>)
    ensures
        nul_before_last(utf16(text)) <==> has_interior_nul(text),
{
    if text.len() > 0 {
        let front = text.drop_last();
        let c = text.last();
        lemma_utf16_nul(front);
        lemma_utf16_units(c);
        let enc = utf16(text);
        let n = utf16(front).len() as int;
        assert(enc == utf16(front) + utf16_units(c));
        if nul_before_last(enc) {
            let j = choose|j: int| 0 <= j < enc.len() - 1 && enc[j] == 0;
            if j >= n {
                assert(enc[j] == utf16_units(c)[j - n]);
                assert(false);
            }
            assert(utf16(front)[j] == 0);
            assert(utf16(front).contains(0u16));
            let k = choose|k: int| 0 <= k < front.len() && front[k] == '\0';
            assert(text[k] == '\0');
            assert(has_interior_nul(text));
        }
        if has_interior_nul(text) {
            let k = choose|k: int| 0 <= k < text.len() - 1 && text[k] == '\0';
            assert(front[k] == '\0');
            assert(front.contains('\0'));
            let j = choose|j: int| 0 <= j < n && utf16(front)[j] == 0;
            assert(enc[j] == 0);
            assert(nul_before_last(enc));
        }
    }
}

/// Encoding a text without an interior null as a path gives a well-formed
/// native wide string.
pub proof fn lemma_os_wide_well_formed(text: Seq<char>)
    ensures
        !has_interior_nul(text) ==> (os_wide(text) matches Ok(units) && is_wide_c_string(units)),
{
    lemma_utf16_interior_nul(text);
}

/// Encodes a path as a null-terminated UTF-16 buffer.
///
/// A string with a null in front of its last character is refused as `Null`.
/// Every other string gives its UTF-16 units closed by one zero unit; a null
/// that ends the string serves as that terminator.
pub fn string_to_os_wide_string(string: String) -> (r: Result<Vec<u16>, StringToOSAsciiError>)
    ensures
        match os_wide(string@) {
            Ok(units) => r matches Ok(v) && v@ == units,
            Err(e) => r == Err::<Vec<u16>, StringToOSAsciiError>(e),
        },
        has_interior_nul(string@) ==> r == Err::<Vec<u16>, StringToOSAsciiError>(
            StringToOSAsciiError::Null,
        ),
        !has_interior_nul(string@) ==> (r matches Ok(v) && is_wide_c_string(v@)),
{
    proof {
        lemma_utf16_interior_nul(string@);
        lemma_os_wide_well_formed(string@);
    }
    match u16cstring_from_str(string.as_str()) {
        Ok(units) => Ok(units),
        Err(_) => Err(StringToOSAsciiError::Null),
    }
}

} // verus!
