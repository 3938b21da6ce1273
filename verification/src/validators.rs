//! Validation of caller-supplied file names.
//!
//! A file name is accepted only if it has visible content, fits the
//! platform's 255-byte file-name limit when encoded as UTF-8, carries no
//! control code points, names a single path segment (no `/` anywhere),
//! and is not the reserved spelling `".."`.

use vstd::prelude::*;
use vstd::string::StrSliceExecFns;
use vstd::string::StringExecFns;

verus! {

/// Largest UTF-8 byte length a file name may have.
pub const FILE_NAME_MAX_BYTES: usize = 255;

/// A code point of the Unicode `Cc` (control) general category.
pub open spec fn is_control_char(c: char) -> bool {
    (c as u32) < 0x20 || (0x7F <= (c as u32) && (c as u32) <= 0x9F)
}

/// A code point with the Unicode `White_Space` property: exactly the set
/// that `str::trim` strips from either end of a string.
pub open spec fn is_whitespace_char(c: char) -> bool {
    ||| (0x09 <= (c as u32) && (c as u32) <= 0x0D)
    ||| (c as u32) == 0x20
    ||| (c as u32) == 0x85
    ||| (c as u32) == 0xA0
    ||| (c as u32) == 0x1680
    ||| (0x2000 <= (c as u32) && (c as u32) <= 0x200A)
    ||| (c as u32) == 0x2028
    ||| (c as u32) == 0x2029
    ||| (c as u32) == 0x202F
    ||| (c as u32) == 0x205F
    ||| (c as u32) == 0x3000
}

/// Every character is whitespace; holds of the empty string, so this is
/// exactly "the string is empty after trimming".
pub open spec fn all_whitespace(s: Seq<char>) -> bool {
    forall|i: int| 0 <= i < s.len() ==> is_whitespace_char(#[trigger] s[i])
}

/// Some character is a control code point.
pub open spec fn contains_control_char(s: Seq<char>) -> bool {
    exists|i: int| 0 <= i < s.len() && is_control_char(#[trigger] s[i])
}

/// Some character is the path separator `/`.
pub open spec fn contains_separator(s: Seq<char>) -> bool {
    exists|i: int| 0 <= i < s.len() && (#[trigger] s[i]) == '/'
}

/// Number of bytes the string occupies once encoded as UTF-8.
pub open spec fn utf8_byte_len(s: Seq<char>) -> nat {
    vstd::utf8::encode_utf8(s).len()
}

/// An acceptable file name: non-empty after trimming, within the byte
/// limit, free of control code points, a single path segment (so the
/// spelling `"/"` is rejected along with every other name holding a
/// separator), and not `".."`.
pub open spec fn valid_file_name(s: Seq<char>) -> bool {
    &&& !all_whitespace(s)
    &&& utf8_byte_len(s) <= FILE_NAME_MAX_BYTES
    &&& !contains_control_char(s)
    &&& !contains_separator(s)
    &&& s != seq!['.', '.']
}

/// Appending one character extends the UTF-8 encoding by that
/// character's own encoding.
proof fn lemma_encode_utf8_push(s: Seq<char>, c: char)
    ensures
        vstd::utf8::encode_utf8(s.push(c)) =~= vstd::utf8::encode_utf8(s)
            + vstd::utf8::encode_scalar(c as u32),
    decreases s.len(),
{
    if s.len() == 0 {
        assert(s.push(c).drop_first() =~= Seq::<char>::empty());
        assert(s =~= Seq::<char>::empty());
    } else {
        lemma_encode_utf8_push(s.drop_first(), c);
        assert(s.push(c).drop_first() =~= s.drop_first().push(c));
    }
}

/// Runtime twin of [`is_whitespace_char`].
fn char_is_whitespace(c: char) -> (r: bool)
    ensures
        r == is_whitespace_char(c),
{
    let u = c as u32;
    (0x09 <= u && u <= 0x0D) || u == 0x20 || u == 0x85 || u == 0xA0 || u == 0x1680 || (0x2000 <= u
        && u <= 0x200A) || u == 0x2028 || u == 0x2029 || u == 0x202F || u == 0x205F || u == 0x3000
}

/// Runtime twin of [`is_control_char`].
fn char_is_control(c: char) -> (r: bool)
    ensures
        r == is_control_char(c),
{
    let u = c as u32;
    u < 0x20 || (0x7F <= u && u <= 0x9F)
}

/// Accepts a proposed file name or rejects it with a message naming it.
///
/// `Ok` exactly on names that [`valid_file_name`] admits; any rejected
/// name comes back in a message of the form `Invalid file name: <name>`.
pub fn validate_file_name(s: &str) -> (r: Result<(), String>)
    ensures
        r is Ok <==> valid_file_name(s@),
        r is Err ==> r->Err_0@ == "Invalid file name: "@ + s@,
{
    let char_count = s.unicode_len();
    let mut i: usize = 0;
    let mut seen_visible = false;
    let mut seen_control = false;
    let mut seen_separator = false;
    let mut too_long = false;
    let mut byte_len: usize = 0;
    while i < char_count
        invariant
            0 <= i <= char_count,
            char_count == s@.len(),
            seen_visible <==> exists|j: int| 0 <= j < i && !is_whitespace_char(#[trigger] s@[j]),
            seen_control <==> exists|j: int| 0 <= j < i && is_control_char(#[trigger] s@[j]),
            seen_separator <==> exists|j: int| 0 <= j < i && (#[trigger] s@[j]) == '/',
            too_long <==> utf8_byte_len(s@.take(i as int)) > FILE_NAME_MAX_BYTES,
            !too_long ==> byte_len == utf8_byte_len(s@.take(i as int)) && byte_len
                <= FILE_NAME_MAX_BYTES,
        decreases char_count - i,
    {
        let c = s.get_char(i);
        if !char_is_whitespace(c) {
            seen_visible = true;
        }
        if char_is_control(c) {
            seen_control = true;
        }
        if c == '/' {
            seen_separator = true;
        }
        let u = c as u32;
        let width: usize = if u < 0x80 {
            1
        } else if u < 0x800 {
            2
        } else if u < 0x10000 {
            3
        } else {
            4
        };
        proof {
            vstd::utf8::char_is_scalar(c);
            lemma_encode_utf8_push(s@.take(i as int), c);
            assert(s@.take(i + 1 as int) =~= s@.take(i as int).push(c));
            assert(vstd::utf8::encode_scalar(u).len() == width);
        }
        if !too_long {
            if byte_len + width > FILE_NAME_MAX_BYTES {
                too_long = true;
            } else {
                byte_len = byte_len + width;
            }
        }
        i = i + 1;
    }
    proof {
        assert(s@.take(char_count as int) =~= s@);
    }
    let is_dot_dot = char_count == 2 && s.get_char(0) == '.' && s.get_char(1) == '.';
    proof {
        assert(is_dot_dot <==> s@ =~= seq!['.', '.']);
    }
    if !seen_visible || too_long || seen_control || seen_separator || is_dot_dot {
        Err(String::from_str("Invalid file name: ").concat(s))
    } else {
        Ok(())
    }
}

} // verus!
