//! Character-level text operations: equality and prefix tests on string
//! slices, and the conversion of a `CamelCase` variant name to `snake_case`.

use vstd::prelude::*;

verus! {

/// `c` is an ASCII upper-case letter.
pub open spec fn is_upper(c: char) -> bool {
    'A' <= c && c <= 'Z'
}

/// The ASCII lower-case form of `c`; every other character is unchanged.
pub open spec fn lower(c: char) -> char {
    if is_upper(c) {
        ((c as u32) + 32) as char
    } else {
        c
    }
}

/// What one character of the input at position `index` becomes: an upper-case
/// letter after the first position is preceded by `_`; every letter is lowered.
pub open spec fn snake_piece(c: char, index: int) -> Seq<char> {
    if is_upper(c) && index != 0 {
        seq!['_', lower(c)]
    } else {
        seq![lower(c)]
    }
}

/// The `snake_case` form of a character sequence.
pub open spec fn snake(s: Seq<char>) -> Seq<char>
    decreases s.len(),
{
    if s.len() == 0 {
        Seq::empty()
    } else {
        snake(s.drop_last()) + snake_piece(s.last(), s.len() - 1)
    }
}

/// `s` holds no ASCII upper-case letter.
pub open spec fn has_no_upper(s: Seq<char>) -> bool {
    forall|i: int| 0 <= i < s.len() ==> !is_upper(#[trigger] s[i])
}

/// Whether `c` is an ASCII upper-case letter (as `char::is_ascii_uppercase`).
pub fn is_ascii_uppercase(c: char) -> (r: bool)
    ensures
        r == is_upper(c),
{
    'A' <= c && c <= 'Z'
}

/// The ASCII lower-case form of `c` (as `char::to_ascii_lowercase`).
pub fn to_ascii_lowercase(c: char) -> (r: char)
    ensures
        r == lower(c),
{
    if is_ascii_uppercase(c) {
        let code: u8 = c as u8;
        (code + 32) as char
    } else {
        c
    }
}

/// Calls `String::push`, which appends one character to the end of the string.
#[verifier::external_body]
fn push_char(text: &mut String, c: char)
    ensures
        final(text)@ == old(text)@.push(c),
{
    text.push(c);
}

/// Converts a `CamelCase` name to `snake_case`: every ASCII upper-case letter
/// is lowered, and each one after the first character gets a leading `_`.
pub fn snake_case(value: &str) -> (r: String)
    ensures
        r@ == snake(value@),
{
    let n = value.unicode_len();
    let mut output = String::new();
    let mut index: usize = 0;
    while index < n
        invariant
            index <= n,
            n == value@.len(),
            output@ == snake(value@.take(index as int)),
        decreases n - index,
    {
        let c = value.get_char(index);
        if is_ascii_uppercase(c) && index != 0 {
            push_char(&mut output, '_');
        }
        push_char(&mut output, to_ascii_lowercase(c));
        proof {
            let next = value@.take(index + 1);
            assert(next.drop_last() =~= value@.take(index as int));
            assert(next.last() == c);
            assert(output@ =~= snake(next));
        }
        index = index + 1;
    }
    assert(value@.take(n as int) =~= value@);
    output
}

/// Whether `a` and `b` hold the same characters.
pub fn same_text(a: &str, b: &str) -> (r: bool)
    ensures
        r == (a@ == b@),
{
    let n = a.unicode_len();
    if n != b.unicode_len() {
        return false;
    }
    let mut index: usize = 0;
    while index < n
        invariant
            index <= n,
            n == a@.len(),
            n == b@.len(),
            forall|j: int| 0 <= j < index ==> a@[j] == b@[j],
        decreases n - index,
    {
        if a.get_char(index) != b.get_char(index) {
            return false;
        }
        index = index + 1;
    }
    assert(a@ =~= b@);
    true
}

/// `prefix` is a prefix of `s`.
pub open spec fn starts_with(s: Seq<char>, prefix: Seq<char>) -> bool {
    prefix.len() <= s.len() && s.take(prefix.len() as int) == prefix
}

/// Whether `text` begins with `prefix` (as `str::starts_with` on a string pattern).
pub fn has_prefix(text: &str, prefix: &str) -> (r: bool)
    ensures
        r == starts_with(text@, prefix@),
{
    let n = prefix.unicode_len();
    if n > text.unicode_len() {
        return false;
    }
    let mut index: usize = 0;
    while index < n
        invariant
            index <= n,
            n == prefix@.len(),
            n <= text@.len(),
            forall|j: int| 0 <= j < index ==> text@[j] == prefix@[j],
        decreases n - index,
    {
        if text.get_char(index) != prefix.get_char(index) {
            assert(text@.take(n as int)[index as int] != prefix@[index as int]);
            return false;
        }
        index = index + 1;
    }
    assert(text@.take(n as int) =~= prefix@);
    true
}

/// Law: the `snake_case` form holds no ASCII upper-case letter.
pub proof fn lemma_snake_has_no_upper(s: Seq<char>)
    ensures
        has_no_upper(snake(s)),
    decreases s.len(),
{
    if s.len() > 0 {
        lemma_snake_has_no_upper(s.drop_last());
        let piece = snake_piece(s.last(), s.len() - 1);
        assert(!is_upper(lower(s.last())));
        assert(has_no_upper(piece));
        let whole = snake(s);
        assert(whole =~= snake(s.drop_last()) + piece);
        assert forall|i: int| 0 <= i < whole.len() implies !is_upper(#[trigger] whole[i]) by {
            if i < snake(s.drop_last()).len() {
                assert(whole[i] == snake(s.drop_last())[i]);
            } else {
                assert(whole[i] == piece[i - snake(s.drop_last()).len()]);
            }
        }
    }
}

/// Law: a text without ASCII upper-case letters is its own `snake_case` form.
pub proof fn lemma_snake_fixes_lower_text(s: Seq<char>)
    requires
        has_no_upper(s),
    ensures
        snake(s) == s,
    decreases s.len(),
{
    if s.len() > 0 {
        let rest = s.drop_last();
        assert(has_no_upper(rest)) by {
            assert forall|i: int| 0 <= i < rest.len() implies !is_upper(#[trigger] rest[i]) by {
                assert(rest[i] == s[i]);
            }
        }
        lemma_snake_fixes_lower_text(rest);
        assert(!is_upper(s[s.len() - 1]));
        assert(snake(s) =~= rest.push(s.last()));
        assert(rest.push(s.last()) =~= s);
    }
}

/// Law: converting to `snake_case` twice gives the same as converting once.
pub proof fn lemma_snake_idempotent(s: Seq<char>)
    ensures
        snake(snake(s)) == snake(s),
{
    lemma_snake_has_no_upper(s);
    lemma_snake_fixes_lower_text(snake(s));
}

} // verus!
