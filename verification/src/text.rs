//! Comparing a name given by the caller with the words the library knows.

use vstd::prelude::*;
use vstd::string::*;

verus! {

/// An ASCII capital letter mapped to its small letter; any other character
/// is left as it is.
pub open spec fn ascii_lower(c: char) -> char {
    if 'A' <= c && c <= 'Z' {
        ((c as u8) + 32) as char
    } else {
        c
    }
}

/// A text with each of its characters mapped by [`ascii_lower`].
pub open spec fn ascii_lowered(s: Seq<char>) -> Seq<char> {
    Seq::new(s.len(), |i: int| ascii_lower(s[i]))
}

/// Whether two texts differ at most in the case of their ASCII letters.
pub open spec fn same_ignoring_ascii_case(a: Seq<char>, b: Seq<char>) -> bool {
    &&& a.len() == b.len()
    &&& forall|i: int| 0 <= i < a.len() ==> ascii_lower(a[i]) == ascii_lower(b[i])
}

/// Two texts differ at most in ASCII case exactly when lowering makes them
/// equal.
pub proof fn lemma_same_ignoring_ascii_case(a: Seq<char>, b: Seq<char>)
    ensures
        same_ignoring_ascii_case(a, b) <==> ascii_lowered(a) == ascii_lowered(b),
{
    if same_ignoring_ascii_case(a, b) {
        assert(ascii_lowered(a) =~= ascii_lowered(b));
    }
    if ascii_lowered(a) == ascii_lowered(b) {
        assert(ascii_lowered(a).len() == a.len());
        assert(ascii_lowered(b).len() == b.len());
        assert forall|i: int| 0 <= i < a.len() implies ascii_lower(a[i]) == ascii_lower(b[i]) by {
            assert(ascii_lowered(a)[i] == ascii_lower(a[i]));
            assert(ascii_lowered(b)[i] == ascii_lower(b[i]));
        }
    }
}

/// The small letter of `c` if it is an ASCII capital, else `c`.
pub fn to_ascii_lower(c: char) -> (lowered: char)
    ensures
        lowered == ascii_lower(c),
{
    if 'A' <= c && c <= 'Z' {
        let code: u8 = c as u8;
        (code + 32) as char
    } else {
        c
    }
}

/// Whether `name` is `word`, character for character.
pub fn is_word(name: &str, word: &str) -> (same: bool)
    ensures
        same == (name@ == word@),
{
    let len: usize = word.unicode_len();
    if name.unicode_len() != len {
        return false;
    }
    let mut i: usize = 0;
    while i < len
        invariant
            i <= len,
            len == word@.len(),
            len == name@.len(),
            forall|j: int| 0 <= j < i ==> name@[j] == word@[j],
        decreases len - i,
    {
        if name.get_char(i) != word.get_char(i) {
            return false;
        }
        i += 1;
    }
    assert(name@ =~= word@);
    true
}

/// Whether `name` is `word` up to the case of ASCII letters.
pub fn is_word_ignoring_ascii_case(name: &str, word: &str) -> (same: bool)
    ensures
        same == same_ignoring_ascii_case(name@, word@),
{
    let len: usize = word.unicode_len();
    if name.unicode_len() != len {
        return false;
    }
    let mut i: usize = 0;
    while i < len
        invariant
            i <= len,
            len == word@.len(),
            len == name@.len(),
            forall|j: int| 0 <= j < i ==> ascii_lower(name@[j]) == ascii_lower(word@[j]),
        decreases len - i,
    {
        if to_ascii_lower(name.get_char(i)) != to_ascii_lower(word.get_char(i)) {
            return false;
        }
        i += 1;
    }
    true
}

} // verus!
