//! Case-insensitive matching of the command tokens ("lt", "Bu2", "dwdh", ...).
//!
//! Only ASCII letters fold: `a`-`z` match `A`-`Z`, and every other character matches only
//! itself. Tokens are ASCII names, so a non-ASCII character never matches, even one whose
//! Unicode upper case is ASCII (such as `ſ`, `ı` or the ligature `ﬀ`).
use vstd::prelude::*;
use vstd::string::is_ascii;
use vstd::utf8::is_ascii_chars;

verus! {

/// `c` is the ASCII character `upper` in either case: `upper` itself or, when
/// `upper` is a letter `A`-`Z`, its lower-case form.
pub open spec fn char_matches(c: char, upper: char) -> bool {
    c as int == upper as int || (65 <= upper as int <= 90 && c as int == upper as int + 32)
}

/// `token` spells `name` when the case of ASCII letters is ignored; no other character folds.
pub open spec fn token_is(token: Seq<char>, name: Seq<char>) -> bool {
    &&& token.len() == name.len()
    &&& forall|i: int| 0 <= i < token.len() ==> char_matches(#[trigger] token[i], name[i])
}

/// An upper-case name: letters `A`-`Z`, digits and other characters below `a`.
pub open spec fn is_upper_name(name: Seq<char>) -> bool {
    forall|i: int| 0 <= i < name.len() ==> 0 <= (#[trigger] name[i]) as int && (name[i] as int) < 97
}

/// A character's code is a Unicode scalar value, the same as `u32` or as `int`.
proof fn lemma_char_code(c: char)
    ensures
        0 <= c as int <= 0x10ffff,
        c as u32 == c as int,
{
}

/// Tells whether `token` spells `name`, ignoring the case of ASCII letters only.
pub fn token_eq(token: &str, name: &[char]) -> (r: bool)
    requires
        is_upper_name(name@),
    ensures
        r == token_is(token@, name@),
{
    if !token.is_ascii() {
        proof {
            assert(!is_ascii_chars(token@));
            assert(exists|i: int| 0 <= i < token@.len() && !('\0' <= #[trigger] token@[i] <= '\u{7f}'));
            let i = choose|i: int| 0 <= i < token@.len() && !('\0' <= #[trigger] token@[i] <= '\u{7f}');
            let c = token@[i];
            lemma_char_code(c);
            if token@.len() == name@.len() {
                assert(!char_matches(token@[i], name@[i]));
            }
        }
        return false;
    }
    let bytes = token.as_bytes();
    proof {
        assert(is_ascii(token));
        assert(bytes@ =~= Seq::new(token@.len(), |i: int| token@[i] as u8));
    }
    if bytes.len() != name.len() {
        return false;
    }
    let mut i: usize = 0;
    while i < bytes.len()
        invariant
            bytes@.len() == name@.len() == token@.len(),
            bytes@ == Seq::new(token@.len(), |k: int| token@[k] as u8),
            is_ascii(token),
            i <= bytes@.len(),
            forall|k: int| 0 <= k < i ==> char_matches(#[trigger] token@[k], name@[k]),
        decreases bytes@.len() - i,
    {
        let b = bytes[i] as u32;
        let u = name[i] as u32;
        proof {
            lemma_char_code(token@[i as int]);
            lemma_char_code(name@[i as int]);
            assert('\0' <= token@[i as int] <= '\u{7f}');
            assert(b == token@[i as int] as int);
        }
        let same = b == u || (65 <= u && u <= 90 && b == u + 32);
        if !same {
            assert(!char_matches(token@[i as int], name@[i as int]));
            return false;
        }
        i = i + 1;
    }
    true
}

} // verus!
