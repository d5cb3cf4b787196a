//! Identifier case conversions.
use crate::text::{chars_of, push_char, push_chars};
use vstd::prelude::*;

verus! {

/// Whether `c` has the Unicode `Uppercase` property, as `char::is_uppercase` reports it.
pub uninterp spec fn unicode_is_uppercase(c: char) -> bool;

/// Whether `c` has the Unicode `Lowercase` property, as `char::is_lowercase` reports it.
pub uninterp spec fn unicode_is_lowercase(c: char) -> bool;

/// The characters that `char::to_lowercase` yields for `c`.
pub uninterp spec fn unicode_lowercase(c: char) -> Seq<char>;

/// The characters that `char::to_uppercase` yields for `c`.
pub uninterp spec fn unicode_uppercase(c: char) -> Seq<char>;

/// The string that `str::to_lowercase` returns for `s`.
pub uninterp spec fn unicode_str_lowercase(s: Seq<char>) -> Seq<char>;

/// Whether `c` is an ASCII character.
pub open spec fn is_ascii(c: char) -> bool {
    (c as int) < 128
}

/// Whether `c` is an ASCII uppercase letter, `A` to `Z`.
pub open spec fn is_ascii_upper(c: char) -> bool {
    65 <= (c as int) <= 90
}

/// Whether `c` is an ASCII lowercase letter, `a` to `z`.
pub open spec fn is_ascii_lower(c: char) -> bool {
    97 <= (c as int) <= 122
}

/// The uppercase form of an ASCII lowercase letter; any other character as it is.
pub open spec fn ascii_upper(c: char) -> char {
    if is_ascii_lower(c) {
        ((c as int) - 32) as char
    } else {
        c
    }
}

/// The lowercase form of an ASCII uppercase letter; any other character as it is.
pub open spec fn ascii_lower(c: char) -> char {
    if is_ascii_upper(c) {
        ((c as int) + 32) as char
    } else {
        c
    }
}

/// Calls `char::is_uppercase`, which reports the Unicode `Uppercase` property; the
/// contract names the result. Claimed besides: among ASCII characters exactly `A` to `Z`
/// have it.
#[verifier::external_body]
fn is_uppercase(c: char) -> (r: bool)
    ensures
        r == unicode_is_uppercase(c),
        is_ascii(c) ==> (r <==> is_ascii_upper(c)),
{
    c.is_uppercase()
}

/// Calls `char::is_lowercase`, which reports the Unicode `Lowercase` property; the
/// contract names the result. Claimed besides: among ASCII characters exactly `a` to `z`
/// have it.
#[verifier::external_body]
fn is_lowercase(c: char) -> (r: bool)
    ensures
        r == unicode_is_lowercase(c),
        is_ascii(c) ==> (r <==> is_ascii_lower(c)),
{
    c.is_lowercase()
}

/// Calls `char::to_lowercase` and collects the characters it yields; the contract names
/// them. Claimed besides: an ASCII character yields one character, `A` to `Z` their
/// lowercase letters and the others themselves.
#[verifier::external_body]
fn to_lowercase(c: char) -> (r: Vec<char>)
    ensures
        r@ == unicode_lowercase(c),
        is_ascii(c) ==> r@ == seq![ascii_lower(c)],
{
    c.to_lowercase().collect()
}

/// Calls `char::to_uppercase` and collects the characters it yields; the contract names
/// them. Claimed besides: an ASCII character yields one character, `a` to `z` their
/// uppercase letters and the others themselves.
#[verifier::external_body]
fn to_uppercase(c: char) -> (r: Vec<char>)
    ensures
        r@ == unicode_uppercase(c),
        is_ascii(c) ==> r@ == seq![ascii_upper(c)],
{
    c.to_uppercase().collect()
}

/// Calls `str::to_lowercase`; the contract names its result and claims nothing more.
#[verifier::external_body]
pub(crate) fn str_to_lowercase(s: &str) -> (r: String)
    ensures
        r@ == unicode_str_lowercase(s@),
{
    s.to_lowercase()
}

/// Whether an underscore goes before the character at `i` in the snake-case form of `s`:
/// `s[i]` is an uppercase letter that is not the first, and either the character before
/// it is lowercase or the one after it is (the end of an acronym, as in `XMLParser`).
pub open spec fn snake_break(s: Seq<char>, i: int) -> bool {
    &&& 0 < i < s.len()
    &&& unicode_is_uppercase(s[i])
    &&& (unicode_is_lowercase(s[i - 1]) || (i + 1 < s.len() && unicode_is_lowercase(s[i + 1])))
}

/// What the character at `i` becomes in the snake-case form of `s`.
pub open spec fn snake_piece(s: Seq<char>, i: int) -> Seq<char> {
    if snake_break(s, i) {
        seq!['_'] + unicode_lowercase(s[i])
    } else {
        unicode_lowercase(s[i])
    }
}

/// The snake-case form of the first `n` characters of `s`.
pub open spec fn snake_prefix(s: Seq<char>, n: int) -> Seq<char>
    decreases n,
{
    if n <= 0 {
        seq![]
    } else {
        snake_prefix(s, n - 1) + snake_piece(s, n - 1)
    }
}

/// The snake-case form of `s`: each character lowercased, with an underscore before each
/// word boundary.
pub open spec fn snake_case(s: Seq<char>) -> Seq<char> {
    snake_prefix(s, s.len() as int)
}

/// What the character at `i` becomes in the Pascal-case form of `s`: underscores vanish,
/// the first character of each word is uppercased and the others are kept.
pub open spec fn pascal_piece(s: Seq<char>, i: int) -> Seq<char> {
    if s[i] == '_' {
        seq![]
    } else if i == 0 || s[i - 1] == '_' {
        unicode_uppercase(s[i])
    } else {
        seq![s[i]]
    }
}

/// The Pascal-case form of the first `n` characters of `s`.
pub open spec fn pascal_prefix(s: Seq<char>, n: int) -> Seq<char>
    decreases n,
{
    if n <= 0 {
        seq![]
    } else {
        pascal_prefix(s, n - 1) + pascal_piece(s, n - 1)
    }
}

/// The Pascal-case form of `s`: its non-empty underscore-separated words, each with its
/// first character uppercased, joined together.
pub open spec fn pascal_case(s: Seq<char>) -> Seq<char> {
    pascal_prefix(s, s.len() as int)
}

/// `s` with its first character uppercased.
pub open spec fn capitalized(s: Seq<char>) -> Seq<char> {
    if s.len() == 0 {
        s
    } else {
        unicode_uppercase(s[0]) + s.skip(1)
    }
}

/// Whether every character of `s` is ASCII.
pub open spec fn all_ascii(s: Seq<char>) -> bool {
    forall|i: int| 0 <= i < s.len() ==> is_ascii(#[trigger] s[i])
}

/// `snake_break` for ASCII text, where the case of a character is plain.
pub open spec fn ascii_snake_break(s: Seq<char>, i: int) -> bool {
    &&& 0 < i < s.len()
    &&& is_ascii_upper(s[i])
    &&& (is_ascii_lower(s[i - 1]) || (i + 1 < s.len() && is_ascii_lower(s[i + 1])))
}

/// The snake-case form of the first `n` characters of the ASCII text `s`.
pub open spec fn ascii_snake_prefix(s: Seq<char>, n: int) -> Seq<char>
    decreases n,
{
    if n <= 0 {
        seq![]
    } else if ascii_snake_break(s, n - 1) {
        ascii_snake_prefix(s, n - 1) + seq!['_', ascii_lower(s[n - 1])]
    } else {
        ascii_snake_prefix(s, n - 1) + seq![ascii_lower(s[n - 1])]
    }
}

/// The snake-case form of the ASCII text `s`.
pub open spec fn ascii_snake_case(s: Seq<char>) -> Seq<char> {
    ascii_snake_prefix(s, s.len() as int)
}

/// The Pascal-case form of the first `n` characters of the ASCII text `s`.
pub open spec fn ascii_pascal_prefix(s: Seq<char>, n: int) -> Seq<char>
    decreases n,
{
    if n <= 0 {
        seq![]
    } else if s[n - 1] == '_' {
        ascii_pascal_prefix(s, n - 1)
    } else if n - 1 == 0 || s[n - 2] == '_' {
        ascii_pascal_prefix(s, n - 1).push(ascii_upper(s[n - 1]))
    } else {
        ascii_pascal_prefix(s, n - 1).push(s[n - 1])
    }
}

/// The Pascal-case form of the ASCII text `s`.
pub open spec fn ascii_pascal_case(s: Seq<char>) -> Seq<char> {
    ascii_pascal_prefix(s, s.len() as int)
}

/// Converts a PascalCase (or camelCase) identifier to snake_case.
pub fn pascal_to_snake(input: &str) -> (snake: String)
    ensures
        snake@ == snake_case(input@),
        all_ascii(input@) ==> snake@ == ascii_snake_case(input@),
{
    let mut snake = String::new();
    let chars = chars_of(input);
    let mut i: usize = 0;
    while i < chars.len()
        invariant
            chars@ == input@,
            i <= chars.len(),
            snake@ == snake_prefix(input@, i as int),
            all_ascii(input@) ==> snake@ == ascii_snake_prefix(input@, i as int),
        decreases chars.len() - i,
    {
        let ch = chars[i];
        if i > 0 && is_uppercase(ch) {
            let prev = chars[i - 1];
            if is_lowercase(prev) || (i + 1 < chars.len() && is_lowercase(chars[i + 1])) {
                push_char(&mut snake, '_');
            }
        }
        let lower = to_lowercase(ch);
        push_chars(&mut snake, &lower);
        assert(snake@ =~= snake_prefix(input@, i + 1));
        proof {
            if all_ascii(input@) {
                assert(is_ascii(input@[i as int]));
                if i > 0 {
                    assert(is_ascii(input@[i - 1]));
                }
                if i + 1 < chars.len() {
                    assert(is_ascii(input@[i + 1]));
                }
                assert(snake@ =~= ascii_snake_prefix(input@, i + 1));
            }
        }
        i = i + 1;
    }
    snake
}

/// Converts a snake_case identifier to PascalCase.
pub fn snake_to_pascal(input: &str) -> (pascal: String)
    ensures
        pascal@ == pascal_case(input@),
        all_ascii(input@) ==> pascal@ == ascii_pascal_case(input@),
{
    let mut pascal = String::new();
    let chars = chars_of(input);
    let mut i: usize = 0;
    while i < chars.len()
        invariant
            chars@ == input@,
            i <= chars.len(),
            pascal@ == pascal_prefix(input@, i as int),
            all_ascii(input@) ==> pascal@ == ascii_pascal_prefix(input@, i as int),
        decreases chars.len() - i,
    {
        let ch = chars[i];
        if ch != '_' {
            if i == 0 || chars[i - 1] == '_' {
                let upper = to_uppercase(ch);
                push_chars(&mut pascal, &upper);
            } else {
                push_char(&mut pascal, ch);
            }
        }
        assert(pascal@ =~= pascal_prefix(input@, i + 1));
        proof {
            if all_ascii(input@) {
                assert(is_ascii(input@[i as int]));
                assert(pascal@ =~= ascii_pascal_prefix(input@, i + 1));
            }
        }
        i = i + 1;
    }
    pascal
}

/// `s` with its first character uppercased.
pub fn capitalize_first(s: &str) -> (r: String)
    ensures
        r@ == capitalized(s@),
        s@.len() > 0 && is_ascii(s@[0]) ==> r@ == seq![ascii_upper(s@[0])] + s@.skip(1),
{
    let chars = chars_of(s);
    if chars.len() == 0 {
        return String::new();
    }
    let mut r = String::new();
    let upper = to_uppercase(chars[0]);
    push_chars(&mut r, &upper);
    let mut i: usize = 1;
    while i < chars.len()
        invariant
            chars@ == s@,
            1 <= i <= chars.len(),
            r@ == unicode_uppercase(s@[0]) + s@.subrange(1, i as int),
        decreases chars.len() - i,
    {
        push_char(&mut r, chars[i]);
        i = i + 1;
        assert(r@ =~= unicode_uppercase(s@[0]) + s@.subrange(1, i as int));
    }
    assert(s@.subrange(1, i as int) =~= s@.skip(1));
    r
}

} // verus!
