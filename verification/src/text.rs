//! Character-level text operations shared by the rest of the library.
//!
//! Texts are modelled as `Seq<char>`; every function here states its result
//! over that model.

use vstd::prelude::*;

verus! {

/// The views of a sequence of items, element by element.
pub open spec fn views<T: View>(items: Seq<T>) -> Seq<T::V> {
    Seq::new(items.len(), |i: int| items[i]@)
}

/// The lower-cased form of a text, as `str::to_lowercase` of the standard
/// library computes it.
pub uninterp spec fn lowercase(text: Seq<char>) -> Seq<char>;

/// Calls `str::to_lowercase`. The contract only gives the result the name
/// [`lowercase`]: the Unicode case mapping itself is not restated here.
#[verifier::external_body]
pub(crate) fn to_lowercase(text: &str) -> (lowered: String)
    ensures
        lowered@ == lowercase(text@),
{
    text.to_lowercase()
}

/// Calls `String::push`, which appends one character to the end of the string.
#[verifier::external_body]
pub(crate) fn push_char(text: &mut String, c: char)
    ensures
        final(text)@ == old(text)@.push(c),
{
    text.push(c);
}

/// Appends `tail` to `text`.
pub fn push_text(text: &mut String, tail: &str)
    ensures
        final(text)@ == old(text)@ + tail@,
{
    let ghost before = text@;
    for c in it: tail.chars()
        invariant
            it.seq() == tail@,
            text@ == before + tail@.take(it.index() as int),
    {
        push_char(text, c);
        assert(tail@.take(it.index() + 1) =~= tail@.take(it.index() as int).push(c));
    }
    assert(tail@.take(tail@.len() as int) =~= tail@);
}

/// The characters of a text, in order.
pub fn chars_of(text: &str) -> (chars: Vec<char>)
    ensures
        chars@ == text@,
{
    let mut chars: Vec<char> = Vec::new();
    for c in it: text.chars()
        invariant
            it.seq() == text@,
            chars@ == text@.take(it.index() as int),
    {
        chars.push(c);
        assert(text@.take(it.index() + 1) =~= text@.take(it.index() as int).push(c));
    }
    assert(text@.take(text@.len() as int) =~= text@);
    chars
}

/// Whether two texts hold the same characters.
pub fn same_text(left: &str, right: &str) -> (same: bool)
    ensures
        same == (left@ == right@),
{
    let a = chars_of(left);
    let b = chars_of(right);
    if a.len() != b.len() {
        return false;
    }
    let mut i: usize = 0;
    while i < a.len()
        invariant
            i <= a.len(),
            a.len() == b.len(),
            a@ == left@,
            b@ == right@,
            forall|k: int| 0 <= k < i ==> a@[k] == b@[k],
        decreases a.len() - i,
    {
        if a[i] != b[i] {
            return false;
        }
        i += 1;
    }
    assert(a@ =~= b@);
    true
}

/// A text with every line break replaced by a space.
pub open spec fn unbroken(text: Seq<char>) -> Seq<char> {
    Seq::new(text.len(), |i: int| if text[i] == '\n' { ' ' } else { text[i] })
}

/// Replaces every line break of `text` by a space.
pub fn replace_newlines(text: &str) -> (flat: String)
    ensures
        flat@ == unbroken(text@),
{
    let mut flat = String::new();
    for c in it: text.chars()
        invariant
            it.seq() == text@,
            flat@ == unbroken(text@.take(it.index() as int)),
    {
        let ghost seen = text@.take(it.index() as int);
        assert(text@.take(it.index() + 1) =~= seen.push(c));
        if c == '\n' {
            push_char(&mut flat, ' ');
        } else {
            push_char(&mut flat, c);
        }
        assert(flat@ =~= unbroken(seen.push(c)));
    }
    assert(text@.take(text@.len() as int) =~= text@);
    flat
}

/// The pieces of `text` between occurrences of `delim`. A text without the
/// delimiter is a single piece; the empty text is one empty piece.
pub open spec fn split(text: Seq<char>, delim: char) -> Seq<Seq<char>>
    decreases text.len(),
{
    if text.len() == 0 {
        seq![Seq::<char>::empty()]
    } else {
        let before = split(text.drop_last(), delim);
        if text.last() == delim {
            before.push(Seq::<char>::empty())
        } else {
            before.drop_last().push(before.last().push(text.last()))
        }
    }
}

/// The pieces joined again, with `sep` between neighbours.
pub open spec fn join(pieces: Seq<Seq<char>>, sep: Seq<char>) -> Seq<char>
    decreases pieces.len(),
{
    if pieces.len() == 0 {
        Seq::<char>::empty()
    } else if pieces.len() == 1 {
        pieces[0]
    } else {
        join(pieces.drop_last(), sep) + sep + pieces.last()
    }
}

/// A split always yields at least one piece.
pub proof fn lemma_split_nonempty(text: Seq<char>, delim: char)
    ensures
        split(text, delim).len() >= 1,
    decreases text.len(),
{
    if text.len() > 0 {
        lemma_split_nonempty(text.drop_last(), delim);
    }
}

/// No piece of a split holds the delimiter.
pub proof fn law_split_pieces_free(text: Seq<char>, delim: char)
    ensures
        forall|i: int|
            0 <= i < split(text, delim).len() ==> !(#[trigger] split(text, delim)[i]).contains(
                delim,
            ),
    decreases text.len(),
{
    if text.len() > 0 {
        law_split_pieces_free(text.drop_last(), delim);
        lemma_split_nonempty(text.drop_last(), delim);
        let before = split(text.drop_last(), delim);
        if text.last() != delim {
            let grown = before.last().push(text.last());
            assert(!grown.contains(delim)) by {
                if grown.contains(delim) {
                    let k = choose|k: int| 0 <= k < grown.len() && grown[k] == delim;
                    assert(before.last()[k] == delim);
                    assert(before.last().contains(delim));
                }
            }
            assert forall|i: int| 0 <= i < split(text, delim).len() implies !(#[trigger] split(
                text,
                delim,
            )[i]).contains(delim) by {
                if i < before.len() - 1 {
                    assert(split(text, delim)[i] == before[i]);
                }
            }
        } else {
            assert forall|i: int| 0 <= i < split(text, delim).len() implies !(#[trigger] split(
                text,
                delim,
            )[i]).contains(delim) by {
                if i < before.len() {
                    assert(split(text, delim)[i] == before[i]);
                }
            }
        }
    }
}

/// Joining the pieces of a split with the delimiter gives the text back.
pub proof fn law_split_joins_back(text: Seq<char>, delim: char)
    ensures
        join(split(text, delim), seq![delim]) == text,
    decreases text.len(),
{
    let sep = seq![delim];
    if text.len() == 0 {
        assert(join(split(text, delim), sep) =~= text);
    } else {
        let head = text.drop_last();
        law_split_joins_back(head, delim);
        lemma_split_nonempty(head, delim);
        let before = split(head, delim);
        if text.last() == delim {
            let after = before.push(Seq::<char>::empty());
            assert(after.drop_last() =~= before);
            assert(join(after, sep) =~= text);
        } else {
            let grown = before.last().push(text.last());
            let after = before.drop_last().push(grown);
            assert(after.drop_last() =~= before.drop_last());
            if before.len() == 1 {
                assert(join(after, sep) =~= text);
            } else {
                assert(join(before, sep) == join(before.drop_last(), sep) + sep + before.last());
                assert(join(after, sep) == join(before.drop_last(), sep) + sep + grown);
                assert(join(after, sep) =~= join(before, sep).push(text.last()));
                assert(head.push(text.last()) =~= text);
            }
        }
    }
}

/// A text without the delimiter splits into itself alone.
pub proof fn lemma_split_without_delimiter(text: Seq<char>, delim: char)
    requires
        !text.contains(delim),
    ensures
        split(text, delim) == seq![text],
    decreases text.len(),
{
    if text.len() == 0 {
        assert(text =~= Seq::<char>::empty());
    } else {
        let head = text.drop_last();
        assert(!head.contains(delim)) by {
            if head.contains(delim) {
                let k = choose|k: int| 0 <= k < head.len() && head[k] == delim;
                assert(text[k] == delim);
            }
        }
        assert(text.last() != delim) by {
            assert(text[text.len() - 1] == text.last());
        }
        lemma_split_without_delimiter(head, delim);
        let before = split(head, delim);
        assert(before.last() == head);
        assert(before.last().push(text.last()) =~= text);
        assert(before.drop_last().push(text) =~= seq![text]);
    }
}

proof fn lemma_split_after_delimiter(text: Seq<char>, delim: char, piece: Seq<char>)
    requires
        !piece.contains(delim),
    ensures
        split(text + seq![delim] + piece, delim) == split(text, delim).push(piece),
    decreases piece.len(),
{
    let whole = text + seq![delim] + piece;
    if piece.len() == 0 {
        assert(whole.drop_last() =~= text);
        assert(piece =~= Seq::<char>::empty());
    } else {
        let head = piece.drop_last();
        assert(!head.contains(delim)) by {
            if head.contains(delim) {
                let k = choose|k: int| 0 <= k < head.len() && head[k] == delim;
                assert(piece[k] == delim);
            }
        }
        assert(piece.last() != delim) by {
            assert(piece[piece.len() - 1] == piece.last());
        }
        lemma_split_after_delimiter(text, delim, head);
        let before = split(text, delim).push(head);
        assert(whole.drop_last() =~= text + seq![delim] + head);
        assert(whole.last() == piece.last());
        assert(before.drop_last() =~= split(text, delim));
        assert(head.push(piece.last()) =~= piece);
    }
}

/// Pieces that do not hold the delimiter are the split of their join: a
/// text has only one such division.
pub proof fn law_split_unique(pieces: Seq<Seq<char>>, delim: char)
    requires
        pieces.len() >= 1,
        forall|i: int| 0 <= i < pieces.len() ==> !(#[trigger] pieces[i]).contains(delim),
    ensures
        split(join(pieces, seq![delim]), delim) == pieces,
    decreases pieces.len(),
{
    if pieces.len() == 1 {
        lemma_split_without_delimiter(pieces[0], delim);
        assert(seq![pieces[0]] =~= pieces);
    } else {
        let head = pieces.drop_last();
        assert forall|i: int| 0 <= i < head.len() implies !(#[trigger] head[i]).contains(delim) by {
            assert(head[i] == pieces[i]);
        }
        law_split_unique(head, delim);
        assert(!pieces.last().contains(delim)) by {
            assert(pieces[pieces.len() - 1] == pieces.last());
        }
        lemma_split_after_delimiter(join(head, seq![delim]), delim, pieces.last());
        assert(head.push(pieces.last()) =~= pieces);
    }
}

/// The pieces of `text` between occurrences of either of two delimiters.
/// A text without them is a single piece; the empty text is one empty piece.
pub open spec fn split_either(text: Seq<char>, first: char, second: char) -> Seq<Seq<char>>
    decreases text.len(),
{
    if text.len() == 0 {
        seq![Seq::<char>::empty()]
    } else {
        let before = split_either(text.drop_last(), first, second);
        if text.last() == first || text.last() == second {
            before.push(Seq::<char>::empty())
        } else {
            before.drop_last().push(before.last().push(text.last()))
        }
    }
}

/// A split at either of two delimiters always yields at least one piece.
pub proof fn lemma_split_either_nonempty(text: Seq<char>, first: char, second: char)
    ensures
        split_either(text, first, second).len() >= 1,
    decreases text.len(),
{
    if text.len() > 0 {
        lemma_split_either_nonempty(text.drop_last(), first, second);
    }
}

/// No piece of a split at either of two delimiters holds one of them.
pub proof fn law_split_either_pieces_free(text: Seq<char>, first: char, second: char)
    ensures
        forall|i: int|
            0 <= i < split_either(text, first, second).len() ==> !(#[trigger] split_either(
                text,
                first,
                second,
            )[i]).contains(first) && !split_either(text, first, second)[i].contains(second),
    decreases text.len(),
{
    let pieces = split_either(text, first, second);
    if text.len() > 0 {
        law_split_either_pieces_free(text.drop_last(), first, second);
        lemma_split_either_nonempty(text.drop_last(), first, second);
        let before = split_either(text.drop_last(), first, second);
        if text.last() != first && text.last() != second {
            let grown = before.last().push(text.last());
            assert(!grown.contains(first) && !grown.contains(second)) by {
                if grown.contains(first) {
                    let k = choose|k: int| 0 <= k < grown.len() && grown[k] == first;
                    assert(before.last()[k] == first);
                    assert(before.last().contains(first));
                }
                if grown.contains(second) {
                    let k = choose|k: int| 0 <= k < grown.len() && grown[k] == second;
                    assert(before.last()[k] == second);
                    assert(before.last().contains(second));
                }
            }
            assert forall|i: int| 0 <= i < pieces.len() implies !(#[trigger] pieces[i]).contains(
                first,
            ) && !pieces[i].contains(second) by {
                if i < before.len() - 1 {
                    assert(pieces[i] == before[i]);
                }
            }
        } else {
            assert forall|i: int| 0 <= i < pieces.len() implies !(#[trigger] pieces[i]).contains(
                first,
            ) && !pieces[i].contains(second) by {
                if i < before.len() {
                    assert(pieces[i] == before[i]);
                }
            }
        }
    }
}

/// In a text that holds only the first of two delimiters, splitting at
/// either is splitting at the first.
pub proof fn law_split_either_is_split(text: Seq<char>, first: char, second: char)
    requires
        !text.contains(second),
    ensures
        split_either(text, first, second) == split(text, first),
        split_either(text, second, first) == split(text, first),
    decreases text.len(),
{
    if text.len() > 0 {
        let head = text.drop_last();
        assert(!head.contains(second)) by {
            if head.contains(second) {
                let k = choose|k: int| 0 <= k < head.len() && head[k] == second;
                assert(text[k] == second);
            }
        }
        assert(text.last() != second) by {
            assert(text[text.len() - 1] == text.last());
        }
        law_split_either_is_split(head, first, second);
    }
}

/// Splits `text` at every occurrence of either of two delimiters.
pub fn split_on_either(text: &str, first: char, second: char) -> (pieces: Vec<String>)
    ensures
        views(pieces@) == split_either(text@, first, second),
        forall|i: int|
            0 <= i < pieces@.len() ==> !(#[trigger] pieces@[i])@.contains(first)
                && !pieces@[i]@.contains(second),
{
    let mut done: Vec<String> = Vec::new();
    let mut current = String::new();
    for c in it: text.chars()
        invariant
            it.seq() == text@,
            views(done@).push(current@) == split_either(
                text@.take(it.index() as int),
                first,
                second,
            ),
    {
        let ghost seen = text@.take(it.index() as int);
        let ghost grown = text@.take(it.index() + 1);
        assert(grown.drop_last() =~= seen);
        assert(grown.last() == c);
        let ghost before = views(done@);
        if c == first || c == second {
            let ghost piece = current@;
            done.push(current);
            current = String::new();
            assert(views(done@) =~= before.push(piece));
        } else {
            let ghost piece = current@;
            push_char(&mut current, c);
            assert(before.push(piece).drop_last() =~= before);
        }
    }
    assert(text@.take(text@.len() as int) =~= text@);
    let ghost before = views(done@);
    let ghost piece = current@;
    done.push(current);
    assert(views(done@) =~= before.push(piece));
    proof {
        law_split_either_pieces_free(text@, first, second);
        assert forall|i: int| 0 <= i < done@.len() implies !(#[trigger] done@[i])@.contains(first)
            && !done@[i]@.contains(second) by {
            assert(views(done@)[i] == done@[i]@);
        }
    }
    done
}

/// Splits `text` at every occurrence of `delim`.
pub fn split_on(text: &str, delim: char) -> (pieces: Vec<String>)
    ensures
        views(pieces@) == split(text@, delim),
{
    let mut done: Vec<String> = Vec::new();
    let mut current = String::new();
    for c in it: text.chars()
        invariant
            it.seq() == text@,
            views(done@).push(current@) == split(text@.take(it.index() as int), delim),
    {
        let ghost seen = text@.take(it.index() as int);
        let ghost grown = text@.take(it.index() + 1);
        assert(grown.drop_last() =~= seen);
        assert(grown.last() == c);
        let ghost before = views(done@);
        if c == delim {
            let ghost piece = current@;
            done.push(current);
            current = String::new();
            assert(views(done@) =~= before.push(piece));
        } else {
            let ghost piece = current@;
            push_char(&mut current, c);
            assert(before.push(piece).drop_last() =~= before);
        }
    }
    assert(text@.take(text@.len() as int) =~= text@);
    let ghost before = views(done@);
    let ghost piece = current@;
    done.push(current);
    assert(views(done@) =~= before.push(piece));
    done
}

/// Joins `pieces`, with `sep` between neighbours.
pub fn join_with(pieces: &Vec<String>, sep: &str) -> (joined: String)
    ensures
        joined@ == join(views(pieces@), sep@),
{
    let mut joined = String::new();
    let mut i: usize = 0;
    while i < pieces.len()
        invariant
            i <= pieces.len(),
            joined@ == join(views(pieces@).take(i as int), sep@),
        decreases pieces.len() - i,
    {
        let ghost all = views(pieces@);
        assert(all.take(i + 1).drop_last() =~= all.take(i as int));
        assert(all.take(i + 1).last() == pieces@[i as int]@);
        if i > 0 {
            push_text(&mut joined, sep);
        }
        push_text(&mut joined, pieces[i].as_str());
        assert(joined@ =~= join(all.take(i + 1), sep@));
        i += 1;
    }
    assert(views(pieces@).take(pieces@.len() as int) =~= views(pieces@));
    joined
}

/// The character of one decimal digit.
pub open spec fn digit(d: nat) -> char
    recommends
        d < 10,
{
    if d == 0 {
        '0'
    } else if d == 1 {
        '1'
    } else if d == 2 {
        '2'
    } else if d == 3 {
        '3'
    } else if d == 4 {
        '4'
    } else if d == 5 {
        '5'
    } else if d == 6 {
        '6'
    } else if d == 7 {
        '7'
    } else if d == 8 {
        '8'
    } else {
        '9'
    }
}

/// The decimal digits of a natural number, most significant first, without
/// leading zeros.
pub open spec fn digits(n: nat) -> Seq<char>
    decreases n,
{
    if n < 10 {
        seq![digit(n)]
    } else {
        digits(n / 10).push(digit(n % 10))
    }
}

/// The decimal notation of an integer: a minus sign for a negative number,
/// then its digits.
pub open spec fn decimal(n: int) -> Seq<char> {
    if n < 0 {
        seq!['-'] + digits((-n) as nat)
    } else {
        digits(n as nat)
    }
}

fn digit_char(d: u64) -> (c: char)
    requires
        d < 10,
    ensures
        c == digit(d as nat),
{
    if d == 0 {
        '0'
    } else if d == 1 {
        '1'
    } else if d == 2 {
        '2'
    } else if d == 3 {
        '3'
    } else if d == 4 {
        '4'
    } else if d == 5 {
        '5'
    } else if d == 6 {
        '6'
    } else if d == 7 {
        '7'
    } else if d == 8 {
        '8'
    } else {
        '9'
    }
}

fn push_digits(text: &mut String, n: u64)
    ensures
        final(text)@ == old(text)@ + digits(n as nat),
    decreases n,
{
    if n < 10 {
        push_char(text, digit_char(n));
        assert(text@ =~= old(text)@ + digits(n as nat));
    } else {
        push_digits(text, n / 10);
        push_char(text, digit_char(n % 10));
        assert(text@ =~= old(text)@ + digits(n as nat));
    }
}

/// Writes an integer in decimal notation.
pub fn decimal_string(n: i64) -> (text: String)
    ensures
        text@ == decimal(n as int),
{
    let mut text = String::new();
    if n < 0 {
        push_char(&mut text, '-');
        let magnitude: u64 = (-(n + 1)) as u64 + 1;
        push_digits(&mut text, magnitude);
        assert(text@ =~= decimal(n as int));
    } else {
        push_digits(&mut text, n as u64);
        assert(text@ =~= decimal(n as int));
    }
    text
}

/// Copies a list of texts.
pub fn clone_texts(items: &Vec<String>) -> (copy: Vec<String>)
    ensures
        views(copy@) == views(items@),
{
    let mut copy: Vec<String> = Vec::new();
    let mut i: usize = 0;
    while i < items.len()
        invariant
            i <= items.len(),
            copy@.len() == i,
            forall|k: int| 0 <= k < i ==> copy@[k]@ == items@[k]@,
        decreases items.len() - i,
    {
        copy.push(items[i].clone());
        i += 1;
    }
    assert(views(copy@) =~= views(items@));
    copy
}

} // verus!
