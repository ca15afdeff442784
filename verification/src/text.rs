//! Case folding of identifiers.
//!
//! All identifiers are folded to lowercase on ingestion, before any
//! comparison or persistence. Folding is done by the standard library;
//! its result on ASCII text is pinned exactly, and on any other text it
//! is named by [`lower_of`].

use vstd::prelude::*;
use vstd::utf8::is_ascii_chars;

verus! {

/// The lowercase form that `str::to_lowercase` gives to a sequence of
/// characters that is not all ASCII.
pub uninterp spec fn lower_of(s: Seq<char>) -> Seq<char>;

/// The lowercase form of one ASCII character: the letters `'A' ..= 'Z'`
/// move to `'a' ..= 'z'` and every other character stays itself.
pub open spec fn ascii_lower_char(c: char) -> char {
    if 'A' <= c && c <= 'Z' {
        ((c as u32) + 32) as char
    } else {
        c
    }
}

/// The lowercase form of a sequence of characters: character-wise ASCII
/// folding when the whole sequence is ASCII, and the named Unicode
/// folding otherwise.
pub open spec fn lowered(s: Seq<char>) -> Seq<char> {
    if is_ascii_chars(s) {
        s.map_values(|c: char| ascii_lower_char(c))
    } else {
        lower_of(s)
    }
}

/// Relies on `str::to_lowercase`: the result depends on the characters
/// alone, and on an all-ASCII string it maps `'A' ..= 'Z'` to
/// `'a' ..= 'z'` and leaves every other character unchanged.
#[verifier::external_body]
pub fn lowercase(s: &str) -> (r: String)
    ensures
        r@ == lowered(s@),
        !is_ascii_chars(s@) ==> r@ == lower_of(s@),
{
    s.to_lowercase()
}

/// A sequence of all-lowercase ASCII characters folds to itself.
pub proof fn lemma_lowered_identity(s: Seq<char>)
    requires
        is_ascii_chars(s),
        forall|i: int| 0 <= i < s.len() ==> !('A' <= #[trigger] s[i] && s[i] <= 'Z'),
    ensures
        lowered(s) == s,
{
    assert(lowered(s) =~= s);
}

/// Relies on `str`'s `PartialEq`: two string slices are equal exactly
/// when their character sequences are.
#[verifier::external_body]
pub fn str_eq(a: &str, b: &str) -> (r: bool)
    ensures
        r == (a@ == b@),
{
    a == b
}

/// The segments of a multi-part object name joined with `'.'`.
pub open spec fn joined_dotted(parts: Seq<Seq<char>>) -> Seq<char>
    decreases parts.len(),
{
    if parts.len() == 0 {
        Seq::empty()
    } else if parts.len() == 1 {
        parts[0]
    } else {
        parts[0] + seq!['.'] + joined_dotted(parts.drop_first())
    }
}

/// Joining one more segment appends a dot and the segment, unless the
/// join was empty so far.
pub proof fn lemma_joined_dotted_push(parts: Seq<Seq<char>>, x: Seq<char>)
    ensures
        joined_dotted(parts.push(x)) == if parts.len() == 0 {
            x
        } else {
            joined_dotted(parts) + seq!['.'] + x
        },
    decreases parts.len(),
{
    let whole = parts.push(x);
    if parts.len() == 0 {
        assert(whole[0] == x);
    } else if parts.len() == 1 {
        assert(whole.drop_first() =~= seq![x]);
        assert(joined_dotted(whole.drop_first()) == x);
    } else {
        assert(whole.drop_first() =~= parts.drop_first().push(x));
        lemma_joined_dotted_push(parts.drop_first(), x);
    }
}

/// Relies on `String::from_utf8`: a sequence of ASCII bytes decodes to
/// the string of exactly those characters.
#[verifier::external_body]
pub fn ascii_string(bytes: Vec<u8>) -> (r: String)
    requires
        forall|i: int| 0 <= i < bytes@.len() ==> bytes@[i] < 128,
    ensures
        r@.len() == bytes@.len(),
        forall|i: int| 0 <= i < bytes@.len() ==> r@[i] == bytes@[i] as char,
{
    match String::from_utf8(bytes) {
        Ok(s) => s,
        Err(_) => String::new(),
    }
}

/// The character of one decimal digit.
pub open spec fn spec_dec_digit(d: int) -> char {
    ((d + 48) as u8) as char
}

/// The decimal text of a non-negative number, most significant digit
/// first and without leading zeros.
pub open spec fn spec_u64_text(n: int) -> Seq<char>
    decreases n,
{
    if 0 <= n < 10 {
        seq![spec_dec_digit(n)]
    } else if n >= 10 {
        spec_u64_text(n / 10).push(spec_dec_digit(n % 10))
    } else {
        Seq::empty()
    }
}

/// The decimal bytes of a non-negative number: the ASCII codes of its
/// digits.
pub open spec fn spec_u64_bytes(n: int) -> Seq<u8>
    decreases n,
{
    if 0 <= n < 10 {
        seq![(n + 48) as u8]
    } else if n >= 10 {
        spec_u64_bytes(n / 10).push((n % 10 + 48) as u8)
    } else {
        Seq::empty()
    }
}

/// The decimal bytes of a number are ASCII and decode, byte for byte, to
/// its decimal text.
proof fn lemma_u64_bytes_ascii(n: int)
    ensures
        spec_u64_bytes(n).len() == spec_u64_text(n).len(),
        forall|i: int|
            0 <= i < spec_u64_bytes(n).len() ==> (#[trigger] spec_u64_bytes(n)[i]) < 128
                && spec_u64_bytes(n)[i] as char == spec_u64_text(n)[i],
    decreases n,
{
    if 0 <= n < 10 {
    } else if n >= 10 {
        lemma_u64_bytes_ascii(n / 10);
        let bytes = spec_u64_bytes(n);
        let text = spec_u64_text(n);
        let prefix_bytes = spec_u64_bytes(n / 10);
        let prefix_text = spec_u64_text(n / 10);
        assert forall|i: int| 0 <= i < bytes.len() implies (#[trigger] bytes[i]) < 128 && bytes[i]
            as char == text[i] by {
            if i < prefix_bytes.len() {
                assert(bytes[i] == prefix_bytes[i]);
                assert(text[i] == prefix_text[i]);
            } else {
                assert(bytes[i] == (n % 10 + 48) as u8);
                assert(text[i] == spec_dec_digit(n % 10));
            }
        }
    }
}

fn u64_dec_bytes(n: u64) -> (r: Vec<u8>)
    ensures
        r@ == spec_u64_bytes(n as int),
    decreases n,
{
    if n < 10 {
        let mut bytes: Vec<u8> = Vec::new();
        bytes.push((n as u8) + 48);
        proof {
            assert(bytes@ =~= spec_u64_bytes(n as int));
        }
        bytes
    } else {
        proof {
            assert((n / 10) as int == n as int / 10);
        }
        let mut bytes = u64_dec_bytes(n / 10);
        bytes.push(((n % 10) as u8) + 48);
        proof {
            assert(bytes@ =~= spec_u64_bytes(n as int));
        }
        bytes
    }
}

/// The decimal text of a number.
pub fn u64_text(n: u64) -> (r: String)
    ensures
        r@ == spec_u64_text(n as int),
{
    proof {
        lemma_u64_bytes_ascii(n as int);
    }
    let bytes = u64_dec_bytes(n);
    let text = ascii_string(bytes);
    proof {
        assert(text@ =~= spec_u64_text(n as int));
    }
    text
}

} // verus!
