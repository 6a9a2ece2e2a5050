//! Edit scripts: what it means to turn one text into another by edits of
//! single characters, and the proof that the edit distance is the length of
//! the shortest script that does so.

use crate::utils::{edit_distance, law_distance_at_least_length_gap, lemma_distance_to_self};
use vstd::prelude::*;

verus! {

/// One edit of a text.
pub ghost enum Edit {
    /// Puts the character `c` before position `at`, or at the end.
    Insert { at: int, c: char },
    /// Takes out the character at position `at`.
    Delete { at: int },
    /// Puts the character `c` in place of the one at position `at`.
    Substitute { at: int, c: char },
}

/// Whether the edit can be made on the text: its position lies within it.
pub open spec fn applies(edit: Edit, text: Seq<char>) -> bool {
    match edit {
        Edit::Insert { at, c } => 0 <= at <= text.len(),
        Edit::Delete { at } => 0 <= at < text.len(),
        Edit::Substitute { at, c } => 0 <= at < text.len(),
    }
}

/// The text after the edit.
pub open spec fn apply(edit: Edit, text: Seq<char>) -> Seq<char> {
    match edit {
        Edit::Insert { at, c } => text.insert(at, c),
        Edit::Delete { at } => text.remove(at),
        Edit::Substitute { at, c } => text.update(at, c),
    }
}

/// Whether the edits of `script`, made one after the other, turn `from` into `to`.
pub open spec fn transforms(script: Seq<Edit>, from: Seq<char>, to: Seq<char>) -> bool
    decreases script.len(),
{
    if script.len() == 0 {
        from == to
    } else {
        applies(script[0], from) && transforms(script.drop_first(), apply(script[0], from), to)
    }
}

/// The script of one edit.
pub open spec fn single(edit: Edit) -> Seq<Edit> {
    seq![edit]
}

proof fn lemma_single(edit: Edit, text: Seq<char>)
    requires
        applies(edit, text),
    ensures
        transforms(single(edit), text, apply(edit, text)),
        single(edit).len() == 1,
{
    assert(single(edit).drop_first() =~= Seq::<Edit>::empty());
    assert(transforms(single(edit).drop_first(), apply(edit, text), apply(edit, text)));
}

proof fn lemma_compose(
    first: Seq<Edit>,
    second: Seq<Edit>,
    from: Seq<char>,
    middle: Seq<char>,
    to: Seq<char>,
)
    requires
        transforms(first, from, middle),
        transforms(second, middle, to),
    ensures
        transforms(first + second, from, to),
    decreases first.len(),
{
    if first.len() == 0 {
        assert(first + second =~= second);
    } else {
        lemma_compose(first.drop_first(), second, apply(first[0], from), middle, to);
        assert((first + second).drop_first() =~= first.drop_first() + second);
        assert((first + second)[0] == first[0]);
    }
}

proof fn lemma_apply_before_last(edit: Edit, text: Seq<char>, last: char)
    requires
        applies(edit, text),
    ensures
        applies(edit, text.push(last)),
        apply(edit, text.push(last)) == apply(edit, text).push(last),
{
    assert(apply(edit, text.push(last)) =~= apply(edit, text).push(last));
}

proof fn lemma_lift(script: Seq<Edit>, from: Seq<char>, to: Seq<char>, last: char)
    requires
        transforms(script, from, to),
    ensures
        transforms(script, from.push(last), to.push(last)),
    decreases script.len(),
{
    if script.len() > 0 {
        lemma_apply_before_last(script[0], from, last);
        lemma_lift(script.drop_first(), apply(script[0], from), to, last);
    }
}

/// A script of as many edits as the edit distance turns the one text into
/// the other.
pub proof fn lemma_shortest_script(a: Seq<char>, b: Seq<char>) -> (script: Seq<Edit>)
    ensures
        transforms(script, a, b),
        script.len() == edit_distance(a, b),
    decreases a.len() + b.len(),
{
    if a.len() == 0 && b.len() == 0 {
        assert(a =~= b);
        Seq::empty()
    } else if a.len() == 0 {
        let b0 = b.drop_last();
        let before = lemma_shortest_script(a, b0);
        let edit = Edit::Insert { at: b0.len() as int, c: b.last() };
        assert(apply(edit, b0) =~= b);
        lemma_single(edit, b0);
        lemma_compose(before, single(edit), a, b0, b);
        before + single(edit)
    } else if b.len() == 0 {
        let a0 = a.drop_last();
        let edit = Edit::Delete { at: a.len() - 1 };
        assert(apply(edit, a) =~= a0);
        let after = lemma_shortest_script(a0, b);
        lemma_single(edit, a);
        lemma_compose(single(edit), after, a, a0, b);
        single(edit) + after
    } else {
        let a0 = a.drop_last();
        let b0 = b.drop_last();
        let distance = edit_distance(a, b);
        if distance == edit_distance(a0, b) + 1 {
            let edit = Edit::Delete { at: a.len() - 1 };
            assert(apply(edit, a) =~= a0);
            let after = lemma_shortest_script(a0, b);
            lemma_single(edit, a);
            lemma_compose(single(edit), after, a, a0, b);
            single(edit) + after
        } else if distance == edit_distance(a, b0) + 1 {
            let before = lemma_shortest_script(a, b0);
            let edit = Edit::Insert { at: b0.len() as int, c: b.last() };
            assert(apply(edit, b0) =~= b);
            lemma_single(edit, b0);
            lemma_compose(before, single(edit), a, b0, b);
            before + single(edit)
        } else {
            let inner = lemma_shortest_script(a0, b0);
            lemma_lift(inner, a0, b0, a.last());
            assert(a0.push(a.last()) =~= a);
            if a.last() == b.last() {
                assert(b0.push(a.last()) =~= b);
                inner
            } else {
                let kept = b0.push(a.last());
                let edit = Edit::Substitute { at: b0.len() as int, c: b.last() };
                assert(apply(edit, kept) =~= b);
                lemma_single(edit, kept);
                lemma_compose(inner, single(edit), a, kept, b);
                inner + single(edit)
            }
        }
    }
}

proof fn lemma_longer_first(a: Seq<char>, x: char, b: Seq<char>)
    ensures
        edit_distance(a.push(x), b) <= edit_distance(a, b) + 1,
{
    assert(a.push(x).drop_last() =~= a);
}

proof fn lemma_longer_second(a: Seq<char>, b: Seq<char>, y: char)
    ensures
        edit_distance(a, b.push(y)) <= edit_distance(a, b) + 1,
{
    assert(b.push(y).drop_last() =~= b);
}

proof fn lemma_shorter_first(a: Seq<char>, c: char, b: Seq<char>)
    ensures
        edit_distance(a, b) <= edit_distance(a.push(c), b) + 1,
    decreases b.len(),
{
    assert(a.push(c).drop_last() =~= a);
    if b.len() > 0 {
        let b0 = b.drop_last();
        lemma_shorter_first(a, c, b0);
        lemma_longer_second(a, b0, b.last());
        assert(b0.push(b.last()) =~= b);
    }
}

/// One edit changes the distance to any text by at most one.
proof fn lemma_one_edit(edit: Edit, a: Seq<char>, b: Seq<char>)
    requires
        applies(edit, a),
    ensures
        edit_distance(a, b) <= 1 + edit_distance(apply(edit, a), b),
    decreases a.len() + b.len(),
{
    let after = apply(edit, a);
    if a.len() == 0 {
        law_distance_at_least_length_gap(after, b);
    } else {
        let a0 = a.drop_last();
        let x = a.last();
        let n = a.len() as int;
        assert(a0.push(x) =~= a);
        let at_end = match edit {
            Edit::Insert { at, c } => at == n,
            Edit::Delete { at } => at == n - 1,
            Edit::Substitute { at, c } => at == n - 1,
        };
        if at_end {
            match edit {
                Edit::Insert { at, c } => {
                    assert(after =~= a.push(c));
                    lemma_shorter_first(a, c, b);
                },
                Edit::Delete { at } => {
                    assert(after =~= a0);
                    lemma_longer_first(a0, x, b);
                },
                Edit::Substitute { at, c } => {
                    assert(after =~= a0.push(c));
                    assert(after.drop_last() =~= a0);
                    if b.len() > 0 {
                        lemma_one_edit(edit, a, b.drop_last());
                    }
                },
            }
        } else {
            lemma_apply_before_last(edit, a0, x);
            let after0 = apply(edit, a0);
            assert(after == after0.push(x));
            assert(after.drop_last() =~= after0);
            if b.len() > 0 {
                let b0 = b.drop_last();
                lemma_one_edit(edit, a0, b);
                lemma_one_edit(edit, a, b0);
                lemma_one_edit(edit, a0, b0);
            }
        }
    }
}

/// No script that turns the one text into the other has fewer edits than
/// the edit distance.
pub proof fn lemma_script_at_least_distance(script: Seq<Edit>, a: Seq<char>, b: Seq<char>)
    requires
        transforms(script, a, b),
    ensures
        script.len() >= edit_distance(a, b),
    decreases script.len(),
{
    if script.len() == 0 {
        lemma_distance_to_self(a);
    } else {
        lemma_script_at_least_distance(script.drop_first(), apply(script[0], a), b);
        lemma_one_edit(script[0], a, b);
    }
}

/// The edit distance of two texts is the least number of insertions,
/// deletions and substitutions of single characters that turns the one
/// into the other: some script has that many edits, and none has fewer.
pub proof fn law_distance_is_least_number_of_edits(a: Seq<char>, b: Seq<char>)
    ensures
        exists|script: Seq<Edit>|
            transforms(script, a, b) && script.len() == edit_distance(a, b),
        forall|script: Seq<Edit>|
            transforms(script, a, b) ==> script.len() >= edit_distance(a, b),
{
    let shortest = lemma_shortest_script(a, b);
    assert(transforms(shortest, a, b) && shortest.len() == edit_distance(a, b));
    assert forall|script: Seq<Edit>| transforms(script, a, b) implies script.len()
        >= edit_distance(a, b) by {
        lemma_script_at_least_distance(script, a, b);
    }
}

/// The way from one text to another is no longer than the way by a third.
pub proof fn law_distance_triangle(a: Seq<char>, b: Seq<char>, c: Seq<char>)
    ensures
        edit_distance(a, c) <= edit_distance(a, b) + edit_distance(b, c),
{
    let first = lemma_shortest_script(a, b);
    let second = lemma_shortest_script(b, c);
    lemma_compose(first, second, a, b, c);
    lemma_script_at_least_distance(first + second, a, c);
}

} // verus!
