//! Display labels: a service message, which is a full sentence, becomes a
//! clause fragment.

use vstd::prelude::*;
use vstd::string::*;

verus! {

/// The lowercase mapping of `c` as `char::to_lowercase` yields it: one or
/// more characters, taken from the Unicode tables that std carries.
pub uninterp spec fn lowercase_of(c: char) -> Seq<char>;

/// `s` without its last character, if that character is a full stop.
pub open spec fn without_final_period(s: Seq<char>) -> Seq<char> {
    if s.len() > 0 && s.last() == '.' {
        s.drop_last()
    } else {
        s
    }
}

/// `body` with `head` in place of its first character; `head` alone where
/// `body` is empty.
pub open spec fn with_head(body: Seq<char>, head: Seq<char>) -> Seq<char> {
    if body.len() == 0 {
        head
    } else {
        head + body.drop_first()
    }
}

/// The label made from message `s`: one final full stop is dropped, then the
/// first character of what is left is replaced by its lowercase mapping.
pub open spec fn normalized(s: Seq<char>) -> Seq<char> {
    let body = without_final_period(s);
    if body.len() == 0 {
        body
    } else {
        with_head(body, lowercase_of(body.first()))
    }
}

/// Calls `char::to_lowercase` and collects what it yields. Believed, not
/// proved: the result is the lowercase mapping of `c`, which depends on `c`
/// alone.
#[verifier::external_body]
fn lowercase(c: char) -> (out: String)
    ensures
        out@ == lowercase_of(c),
{
    c.to_lowercase().collect()
}

/// Drops one final full stop from `s`, if there is one.
pub fn strip_final_period(s: &str) -> (out: &str)
    ensures
        out@ == without_final_period(s@),
{
    let n: usize = s.unicode_len();
    if n > 0 && s.get_char(n - 1) == '.' {
        s.substring_char(0, n - 1)
    } else {
        s
    }
}

/// Puts `head` in place of the first character of `body`.
pub fn replace_head(body: &str, head: String) -> (out: String)
    ensures
        out@ == with_head(body@, head@),
{
    let n: usize = body.unicode_len();
    if n == 0 {
        head
    } else {
        head.concat(body.substring_char(1, n))
    }
}

/// Makes a display label from a service message.
pub fn normalize(s: &str) -> (out: String)
    ensures
        out@ == normalized(s@),
{
    let body = strip_final_period(s);
    if body.is_empty() {
        String::new()
    } else {
        let head = lowercase(body.get_char(0));
        replace_head(body, head)
    }
}

/// An empty message gives an empty label, and so does a lone full stop.
pub proof fn normalized_of_nothing()
    ensures
        normalized(Seq::<char>::empty()) == Seq::<char>::empty(),
        normalized(seq!['.']) == Seq::<char>::empty(),
{
    assert(seq!['.'].drop_last() =~= Seq::<char>::empty());
}

/// A message that does not end in a full stop loses nothing: the label is
/// the lowercase mapping of its first character, then all its other
/// characters as they were.
pub proof fn normalized_without_period(s: Seq<char>)
    requires
        s.len() > 0,
        s.last() != '.',
    ensures
        normalized(s) == lowercase_of(s[0]) + s.drop_first(),
{
}

/// A message that ends in a full stop loses that one character and no
/// other: the label is the lowercase mapping of its first character, then
/// the characters between the first and the full stop as they were.
pub proof fn normalized_with_period(s: Seq<char>)
    requires
        s.len() > 1,
        s.last() == '.',
    ensures
        normalized(s) == lowercase_of(s[0]) + s.subrange(1, s.len() - 1),
{
    assert(s.drop_last().drop_first() =~= s.subrange(1, s.len() - 1));
}

/// Only the first character is changed: behind the lowercase mapping of the
/// first character, each character of the label is the character of the
/// message at the same distance from the first.
pub proof fn normalized_keeps_the_rest(s: Seq<char>, i: int)
    requires
        1 <= i < without_final_period(s).len(),
    ensures
        normalized(s).len() == lowercase_of(s[0]).len() + without_final_period(s).len() - 1,
        normalized(s)[lowercase_of(s[0]).len() + i - 1] == s[i],
{
}

} // verus!
