//! Small operations on text that the other modules share.

use vstd::prelude::*;

verus! {

/// Whether `text` begins with `prefix`.
pub open spec fn starts_with(text: Seq<char>, prefix: Seq<char>) -> bool {
    prefix.len() <= text.len() && text.take(prefix.len() as int) == prefix
}

/// What is left of `text` once `prefix` is taken off its front, or `None` where `text` does not
/// begin with `prefix`.
pub fn strip_prefix(text: &String, prefix: &String) -> (rest: Option<String>)
    ensures
        rest is Some <==> starts_with(text@, prefix@),
        rest matches Some(rest) ==> rest@ == text@.skip(prefix@.len() as int),
        rest matches Some(rest) ==> prefix@ + rest@ == text@,
        rest is None ==> forall|other: Seq<char>| #[trigger] (prefix@ + other) != text@,
{
    proof {
        law_a_prefix_and_the_rest(text@, prefix@);
    }
    let len: usize = text.as_str().unicode_len();
    let prefix_len: usize = prefix.as_str().unicode_len();
    if prefix_len > len {
        return None;
    }
    let head = text.as_str().substring_char(0, prefix_len).to_owned();
    assert(head@ == text@.take(prefix@.len() as int));
    if head != *prefix {
        return None;
    }
    let rest = text.as_str().substring_char(prefix_len, len).to_owned();
    assert(rest@ == text@.skip(prefix@.len() as int));
    Some(rest)
}

/// A text begins with a prefix exactly if the prefix and something behind it make it up, and then
/// that is what is left once the prefix is taken off.
pub proof fn law_a_prefix_and_the_rest(text: Seq<char>, prefix: Seq<char>)
    ensures
        starts_with(text, prefix) <==> exists|rest: Seq<char>| #[trigger] (prefix + rest) == text,
        starts_with(text, prefix) ==> prefix + text.skip(prefix.len() as int) == text,
        forall|rest: Seq<char>| #[trigger]
            (prefix + rest) == text ==> text.skip(prefix.len() as int) == rest,
{
    if starts_with(text, prefix) {
        assert(prefix + text.skip(prefix.len() as int) == text);
    }
    assert forall|rest: Seq<char>| #[trigger] (prefix + rest) == text implies starts_with(text, prefix)
        && text.skip(prefix.len() as int) == rest by {
        assert(text.take(prefix.len() as int) == prefix);
        assert(text.skip(prefix.len() as int) == rest);
    }
}

} // verus!
