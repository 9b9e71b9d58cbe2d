//! Name hints: which strings may name a temporary file, and their C form.

use vstd::prelude::*;
use vstd::string::StrSliceExecFns;
use vstd::utf8::encode_scalar;
use vstd::utf8::encode_utf8;
use vstd::utf8::has_width_1_encoding;
use crate::error::TempFileError;
use crate::platform::Platform;

verus! {

/// Whether the name holds a null character.
pub open spec fn has_nul(name: Seq<char>) -> bool {
    name.contains('\0')
}

/// Whether the name holds a character that separates path components on the platform.
pub open spec fn has_separator(name: Seq<char>, platform: Platform) -> bool {
    exists|i: int| 0 <= i < name.len() && platform.separates(#[trigger] name[i])
}

/// Names that can be attached to an anonymous memory file.
pub open spec fn valid_memory_name(name: Seq<char>) -> bool {
    !has_nul(name)
}

/// Names that can become part of a file name on disk.
pub open spec fn valid_file_name(name: Seq<char>, platform: Platform) -> bool {
    !has_nul(name) && !has_separator(name, platform)
}

/// A name holds a separator exactly if it holds a slash or, on Windows, a backslash.
pub proof fn lemma_separator_characters(name: Seq<char>, platform: Platform)
    ensures
        has_separator(name, platform) <==> name.contains('/') || (platform == Platform::Windows
            && name.contains('\\')),
{
    if name.contains('/') {
        let i = choose|i: int| 0 <= i < name.len() && name[i] == '/';
        assert(platform.separates(name[i]));
    }
    if platform == Platform::Windows && name.contains('\\') {
        let i = choose|i: int| 0 <= i < name.len() && name[i] == '\\';
        assert(platform.separates(name[i]));
    }
    if has_separator(name, platform) {
        let i = choose|i: int| 0 <= i < name.len() && platform.separates(#[trigger] name[i]);
        assert(name.contains(name[i]));
    }
}

/// A name that can become part of a file name on Windows can be used on every
/// platform and for every kind of temporary file.
pub proof fn lemma_portable_name(name: Seq<char>, platform: Platform)
    requires
        valid_file_name(name, Platform::Windows),
    ensures
        valid_file_name(name, platform),
        valid_memory_name(name),
{
}

/// The bytes of the null-terminated string that carries `name` to the operating system.
pub open spec fn c_string(name: Seq<char>) -> Seq<u8> {
    encode_utf8(name).push(0u8)
}

proof fn lemma_scalar_bytes(c: u32, b: u8)
    by (bit_vector)
    requires
        b < 0x80,
        c <= 0x10FFFF,
    ensures
        c <= 0x7F ==> (c & 0x7F) as u8 == c,
        (0xC0u8 | ((c >> 6) & 0x1F) as u8) != b,
        (0xE0u8 | ((c >> 12) & 0x0F) as u8) != b,
        (0xF0u8 | ((c >> 18) & 0x7) as u8) != b,
        (0x80u8 | (c & 0x3F) as u8) != b,
        (0x80u8 | ((c >> 6) & 0x3F) as u8) != b,
        (0x80u8 | ((c >> 12) & 0x3F) as u8) != b,
{
}

/// The encoding of one character holds a byte below 0x80 only if it is that character.
proof fn lemma_ascii_byte_in_scalar(c: char, b: u8)
    requires
        b < 0x80,
    ensures
        encode_scalar(c as u32).contains(b) <==> c as u32 == b as u32,
        encode_scalar(c as u32).len() >= 1,
{
    let s = c as u32;
    let e = encode_scalar(s);
    lemma_scalar_bytes(s, b);
    if s == b as u32 {
        assert(e[0] == b);
    }
    if e.contains(b) {
        let j = choose|j: int| 0 <= j < e.len() && e[j] == b;
        assert(has_width_1_encoding(s));
    }
}

/// In UTF-8 a byte below 0x80 occurs exactly where that character occurs in the text.
pub proof fn lemma_ascii_byte_in_utf8(chars: Seq<char>, b: u8)
    requires
        b < 0x80,
    ensures
        encode_utf8(chars).contains(b) <==> chars.contains(b as char),
    decreases chars.len(),
{
    if chars.len() > 0 {
        let head = encode_scalar(chars[0] as u32);
        let rest = chars.drop_first();
        let tail = encode_utf8(rest);
        let all = encode_utf8(chars);
        lemma_ascii_byte_in_scalar(chars[0], b);
        lemma_ascii_byte_in_utf8(rest, b);
        if chars.contains(b as char) {
            let i = choose|i: int| 0 <= i < chars.len() && chars[i] == b as char;
            if i == 0 {
                let j = choose|j: int| 0 <= j < head.len() && head[j] == b;
                assert(all[j] == b);
            } else {
                assert(rest[i - 1] == b as char);
                let j = choose|j: int| 0 <= j < tail.len() && tail[j] == b;
                assert(all[head.len() + j] == b);
            }
        }
        if all.contains(b) {
            let j = choose|j: int| 0 <= j < all.len() && all[j] == b;
            if j < head.len() {
                assert(head[j] == b);
                vstd::utf8::char_u32_cast(chars[0], chars[0] as u32);
                assert(chars[0] == b as char);
            } else {
                assert(tail[j - head.len()] == b);
                let i = choose|i: int| 0 <= i < rest.len() && rest[i] == b as char;
                assert(chars[i + 1] == b as char);
            }
        }
    }
}

/// The string for a name without null characters ends in a null byte and
/// holds no other: it is a string as the operating system reads it.
pub proof fn lemma_c_string_terminated(name: Seq<char>)
    requires
        !has_nul(name),
    ensures
        c_string(name).len() >= 1,
        c_string(name).last() == 0u8,
        forall|i: int| 0 <= i < c_string(name).len() - 1 ==> c_string(name)[i] != 0u8,
{
    // No character is the null character, so no byte of the encoding is zero.
    lemma_ascii_byte_in_utf8(name, 0u8);
    assert forall|i: int| 0 <= i < c_string(name).len() - 1 implies c_string(name)[i] != 0u8 by {
        assert(c_string(name)[i] == encode_utf8(name)[i]);
        if encode_utf8(name)[i] == 0u8 {
            assert(encode_utf8(name).contains(0u8));
        }
    }
}

/// Looks for a byte in a slice.
fn holds_byte(bytes: &[u8], b: u8) -> (found: bool)
    ensures
        found == bytes@.contains(b),
{
    let mut i: usize = 0;
    while i < bytes.len()
        invariant
            i <= bytes.len(),
            forall|k: int| 0 <= k < i ==> bytes@[k] != b,
        decreases bytes.len() - i,
    {
        if bytes[i] == b {
            return true;
        }
        i += 1;
    }
    false
}

/// Tells whether the name holds a null character.
pub fn contains_nul(name: &str) -> (found: bool)
    ensures
        found == has_nul(name@),
{
    proof {
        lemma_ascii_byte_in_utf8(name@, 0u8);
    }
    holds_byte(name.as_bytes(), 0u8)
}

/// Tells whether the name holds a path separator of the platform.
pub fn contains_separator(name: &str, platform: Platform) -> (found: bool)
    ensures
        found == has_separator(name@, platform),
{
    proof {
        // The separators are the bytes 0x2F and 0x5C, wherever they stand.
        lemma_ascii_byte_in_utf8(name@, 0x2Fu8);
        lemma_ascii_byte_in_utf8(name@, 0x5Cu8);
        lemma_separator_characters(name@, platform);
    }
    let bytes = name.as_bytes();
    if holds_byte(bytes, 0x2Fu8) {
        return true;
    }
    match platform {
        Platform::Windows => holds_byte(bytes, 0x5Cu8),
        _ => false,
    }
}

/// Gives the null-terminated byte string for a name, or rejects the name if it
/// holds a null character itself.
pub fn c_string_bytes(name: &str) -> (r: Result<Vec<u8>, TempFileError>)
    ensures
        has_nul(name@) ==> r == Err::<Vec<u8>, TempFileError>(TempFileError::InvalidName),
        !has_nul(name@) ==> r is Ok && r->Ok_0@ == c_string(name@),
        r is Ok ==> forall|i: int| 0 <= i < r->Ok_0@.len() - 1 ==> r->Ok_0@[i] != 0u8,
{
    proof {
        lemma_ascii_byte_in_utf8(name@, 0u8);
        if !has_nul(name@) {
            lemma_c_string_terminated(name@);
        }
    }
    let bytes = name.as_bytes();
    if holds_byte(bytes, 0u8) {
        return Err(TempFileError::InvalidName);
    }
    let mut out = name.as_bytes_vec();
    out.push(0u8);
    Ok(out)
}

} // verus!
