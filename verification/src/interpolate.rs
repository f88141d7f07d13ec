//! Keeping a completion that is on display in step with what the user types.

use crate::anchor::Anchor;
use crate::text;
use std::ops::Range;
use vstd::prelude::*;

verus! {

/// An edit that the user made since the completion was put on display.
#[derive(Debug)]
pub struct UserEdit {
    /// What it replaced, in offsets of the text as it was then.
    pub old: Range<usize>,
    /// What it put there.
    pub typed: String,
    /// The place right after what it put there, in the text as it is now.
    pub after: Anchor,
}

/// Whether an edit is an insertion right where the completion goes.
pub open spec fn is_at_cursor(edit: UserEdit, cursor: usize) -> bool {
    edit.old.start == cursor && edit.old.end == cursor
}

/// Whether an edit moves or removes the place where the completion goes.
pub open spec fn affects_cursor(edit: UserEdit, cursor: usize) -> bool {
    !is_at_cursor(edit, cursor) && (edit.old.start <= cursor < edit.old.end || edit.old.end < cursor)
}

/// Whether the fate of the completion hangs on the edit with the index `i`, which is the first of
/// its kind.
pub open spec fn is_decisive(edits: Seq<UserEdit>, cursor: usize, i: int) -> bool {
    &&& 0 <= i < edits.len()
    &&& is_at_cursor(edits[i], cursor) || affects_cursor(edits[i], cursor)
    &&& forall|j: int|
        0 <= j < i ==> !is_at_cursor(#[trigger] edits[j], cursor) && !affects_cursor(edits[j], cursor)
}

/// What is left of a completion to insert once the user has typed something: nothing where it is
/// not how the completion begins, or all of it.
pub open spec fn remaining(completion: Seq<char>, typed: Seq<char>) -> Option<Seq<char>> {
    if text::starts_with(completion, typed) && typed.len() < completion.len() {
        Some(completion.skip(typed.len() as int))
    } else {
        None
    }
}

/// Whether a completion is kept over some edits, where `cursor` is where it went in the text as it
/// was before them: it is a single insertion, and the edit that decides, if there is one, typed
/// its beginning.
pub open spec fn survives(current: Seq<(Range<Anchor>, String)>, cursor: usize, edits: Seq<UserEdit>) -> bool {
    &&& current.len() == 1
    &&& forall|i: int| #[trigger]
        is_decisive(edits, cursor, i) ==> is_at_cursor(edits[i], cursor) && remaining(
            current[0].1@,
            edits[i].typed@,
        ) is Some
}

/// What a completion becomes after some edits, where `cursor` is where it went in the text as it
/// was before them.
pub open spec fn interpolates(
    current: Seq<(Range<Anchor>, String)>,
    cursor: usize,
    edits: Seq<UserEdit>,
    result: Option<Vec<(Range<Anchor>, String)>>,
) -> bool {
    if current.len() != 1 {
        result is None
    } else {
        // Edits elsewhere leave it alone.
        &&& (forall|i: int| !#[trigger] is_decisive(edits, cursor, i)) ==> (result matches Some(kept) && kept@
            == current)
        &&& forall|i: int| #[trigger]
            is_decisive(edits, cursor, i) ==> if affects_cursor(edits[i], cursor) {
                result is None
            } else {
                match remaining(current[0].1@, edits[i].typed@) {
                    None => result is None,
                    Some(rest) => {
                        &&& result matches Some(kept)
                        &&& kept@.len() == 1
                        &&& kept@[0].0.start == edits[i].after
                        &&& kept@[0].0.end == edits[i].after
                        &&& kept@[0].1@ == rest
                    },
                }
            }
    }
}

/// What a completion becomes after some edits, where `cursor` is where it went in the text as it
/// was before them. Only a completion that is a single insertion can be kept.
pub fn interpolate(current: &Vec<(Range<Anchor>, String)>, cursor: usize, edits: &Vec<UserEdit>) -> (result: Option<
    Vec<(Range<Anchor>, String)>,
>)
    ensures
        interpolates(current@, cursor, edits@, result),
        result is Some <==> survives(current@, cursor, edits@),
{
    if current.len() != 1 {
        return None;
    }
    let completion = &current[0].1;
    let mut i: usize = 0;
    while i < edits.len()
        invariant
            i <= edits.len(),
            current@.len() == 1,
            *completion == current@[0].1,
            forall|j: int|
                0 <= j < i ==> !is_at_cursor(#[trigger] edits@[j], cursor) && !affects_cursor(edits@[j], cursor),
        decreases edits.len() - i,
    {
        let edit = &edits[i];
        if edit.old.start == cursor && edit.old.end == cursor {
            assert(is_decisive(edits@, cursor, i as int));
            proof {
                lemma_decisive_is_unique(edits@, cursor, i as int);
            }
            match text::strip_prefix(completion, &edit.typed) {
                Some(rest) => {
                    if rest.as_str().is_empty() {
                        return None;
                    }
                    let mut kept: Vec<(Range<Anchor>, String)> = Vec::new();
                    kept.push((Range { start: edit.after, end: edit.after }, rest));
                    return Some(kept);
                },
                None => {
                    return None;
                },
            }
        } else if (edit.old.start <= cursor && cursor < edit.old.end) || cursor > edit.old.end {
            assert(is_decisive(edits@, cursor, i as int));
            proof {
                lemma_decisive_is_unique(edits@, cursor, i as int);
            }
            return None;
        }
        i += 1;
    }
    let range = &current[0].0;
    let mut kept: Vec<(Range<Anchor>, String)> = Vec::new();
    kept.push((Range { start: range.start, end: range.end }, completion.clone()));
    assert(kept@ == current@);
    Some(kept)
}

/// At most one edit decides.
proof fn lemma_decisive_is_unique(edits: Seq<UserEdit>, cursor: usize, i: int)
    requires
        is_decisive(edits, cursor, i),
    ensures
        forall|j: int| #[trigger] is_decisive(edits, cursor, j) ==> j == i,
{
    assert forall|j: int| #[trigger] is_decisive(edits, cursor, j) implies j == i by {
        if j < i {
            assert(!is_at_cursor(edits[j], cursor));
        }
        if i < j {
            assert(!is_at_cursor(edits[i], cursor));
        }
    }
}

/// A completion that is kept still leads to the same text: what the user typed where it goes and
/// what is left to insert make up the completion. Where the user typed nothing there, it is kept as
/// it is.
pub proof fn law_typed_and_rest_make_up_the_completion(
    current: Seq<(Range<Anchor>, String)>,
    cursor: usize,
    edits: Seq<UserEdit>,
    kept: Vec<(Range<Anchor>, String)>,
)
    requires
        interpolates(current, cursor, edits, Some(kept)),
    ensures
        current.len() == 1,
        kept@.len() == 1,
        kept@ == current || exists|i: int|
            {
                &&& 0 <= i < edits.len()
                &&& is_at_cursor(#[trigger] edits[i], cursor)
                &&& edits[i].typed@ + kept@[0].1@ == current[0].1@
                &&& kept@[0].1@.len() > 0
            },
{
    if exists|i: int| #[trigger] is_decisive(edits, cursor, i) {
        let i = choose|i: int| #[trigger] is_decisive(edits, cursor, i);
        let typed = edits[i].typed@;
        assert(typed + current[0].1@.skip(typed.len() as int) == current[0].1@);
    }
}

/// It makes no difference whether the user types something at once or in two goes.
pub proof fn law_typing_in_two_goes(completion: Seq<char>, first: Seq<char>, second: Seq<char>)
    ensures
        remaining(completion, first + second) == match remaining(completion, first) {
            Some(rest) => remaining(rest, second),
            None => None,
        },
{
    let both = first + second;
    match remaining(completion, first) {
        Some(rest) => {
            assert(completion.take(first.len() as int) == first);
            if text::starts_with(completion, both) {
                assert(rest.take(second.len() as int) == second) by {
                    assert forall|k: int| 0 <= k < second.len() implies rest[k] == second[k] by {
                        assert(completion.take(both.len() as int)[first.len() + k] == both[first.len() + k]);
                    }
                }
                assert(completion.skip(both.len() as int) == rest.skip(second.len() as int));
            }
            if text::starts_with(rest, second) {
                assert(completion.take(both.len() as int) == both) by {
                    assert forall|k: int| 0 <= k < both.len() implies completion[k] == both[k] by {
                        if k < first.len() {
                            assert(completion.take(first.len() as int)[k] == first[k]);
                        } else {
                            assert(rest.take(second.len() as int)[k - first.len()] == second[k - first.len()]);
                        }
                    }
                }
            }
        },
        None => {
            if text::starts_with(completion, both) {
                assert(completion.take(first.len() as int) == first) by {
                    assert forall|k: int| 0 <= k < first.len() implies completion[k] == first[k] by {
                        assert(completion.take(both.len() as int)[k] == both[k]);
                    }
                }
            }
        },
    }
}

/// What the user typed where the completion goes, and nothing else, decides what becomes of it, as
/// long as the edits before left that place alone. The completion is kept exactly if they typed its
/// beginning and not all of it; then one insertion is left, right after what they typed, and the
/// two together are the completion.
pub proof fn law_typing_where_the_completion_goes(
    current: Seq<(Range<Anchor>, String)>,
    cursor: usize,
    edits: Seq<UserEdit>,
    i: int,
    result: Option<Vec<(Range<Anchor>, String)>>,
)
    requires
        interpolates(current, cursor, edits, result),
        current.len() == 1,
        0 <= i < edits.len(),
        forall|j: int|
            0 <= j < i ==> cursor <= (#[trigger] edits[j]).old.end && (cursor < edits[j].old.start || (
            edits[j].old.start < cursor && edits[j].old.end == cursor)),
        edits[i].old.start == cursor,
        edits[i].old.end == cursor,
    ensures
        result is Some <==> exists|rest: Seq<char>|
            rest.len() > 0 && #[trigger] (edits[i].typed@ + rest) == current[0].1@,
        result matches Some(kept) ==> {
            &&& kept@.len() == 1
            &&& kept@[0].0.start == edits[i].after
            &&& kept@[0].0.end == edits[i].after
            &&& kept@[0].1@.len() > 0
            &&& edits[i].typed@ + kept@[0].1@ == current[0].1@
        },
{
    assert(is_decisive(edits, cursor, i));
    text::law_a_prefix_and_the_rest(current[0].1@, edits[i].typed@);
}

/// An edit that replaces the place where the completion goes, or text before it, ends the
/// completion, as long as the edits before left that place alone.
pub proof fn law_edits_over_or_before_the_completion(
    current: Seq<(Range<Anchor>, String)>,
    cursor: usize,
    edits: Seq<UserEdit>,
    i: int,
    result: Option<Vec<(Range<Anchor>, String)>>,
)
    requires
        interpolates(current, cursor, edits, result),
        0 <= i < edits.len(),
        forall|j: int|
            0 <= j < i ==> cursor <= (#[trigger] edits[j]).old.end && (cursor < edits[j].old.start || (
            edits[j].old.start < cursor && edits[j].old.end == cursor)),
        edits[i].old.start <= cursor < edits[i].old.end || edits[i].old.end < cursor,
    ensures
        result is None,
{
    if current.len() == 1 {
        assert(is_decisive(edits, cursor, i));
    }
}

/// Edits behind the place where the completion goes, or right up to it, leave the completion as it
/// is, however many there are. A completion that is not a single insertion is never kept.
pub proof fn law_edits_elsewhere(
    current: Seq<(Range<Anchor>, String)>,
    cursor: usize,
    edits: Seq<UserEdit>,
    result: Option<Vec<(Range<Anchor>, String)>>,
)
    requires
        interpolates(current, cursor, edits, result),
    ensures
        current.len() != 1 ==> result is None,
        current.len() == 1 && (forall|j: int|
            0 <= j < edits.len() ==> cursor <= (#[trigger] edits[j]).old.end && (cursor < edits[j].old.start || (
            edits[j].old.start < cursor && edits[j].old.end == cursor))) ==> (result matches Some(kept) && kept@
            == current),
{
}

/// A completion is said to survive exactly if something is left of it.
pub proof fn law_what_survives_is_kept(
    current: Seq<(Range<Anchor>, String)>,
    cursor: usize,
    edits: Seq<UserEdit>,
    result: Option<Vec<(Range<Anchor>, String)>>,
)
    requires
        interpolates(current, cursor, edits, result),
    ensures
        result is Some <==> survives(current, cursor, edits),
{
    if current.len() == 1 {
        if exists|i: int| #[trigger] is_decisive(edits, cursor, i) {
            let i = choose|i: int| #[trigger] is_decisive(edits, cursor, i);
            lemma_decisive_is_unique(edits, cursor, i);
        }
    }
}

} // verus!
