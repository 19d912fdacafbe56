//! Splitting and joining of character sequences.

use vstd::prelude::*;
use vstd::string::*;

verus! {

/// The pieces of `text` that lie between occurrences of `sep`, in order.
///
/// There is always one piece more than there are separators: the empty text
/// has the single piece `""`, and a separator at either end leaves an empty
/// piece there.
pub open spec fn split_on(text: Seq<char>, sep: char) -> Seq<Seq<char>>
    decreases text.len(),
{
    if text.len() == 0 {
        seq![Seq::empty()]
    } else {
        let before = split_on(text.drop_last(), sep);
        if text.last() == sep {
            before.push(Seq::empty())
        } else {
            before.drop_last().push(before.last().push(text.last()))
        }
    }
}

/// The pieces in `parts` in order, with `sep` between each two neighbours.
pub open spec fn join_with(parts: Seq<Seq<char>>, sep: Seq<char>) -> Seq<char>
    decreases parts.len(),
{
    if parts.len() == 0 {
        Seq::empty()
    } else if parts.len() == 1 {
        parts[0]
    } else {
        join_with(parts.drop_last(), sep) + sep + parts.last()
    }
}

/// The character sequences held by a sequence of character vectors.
pub open spec fn piece_views(pieces: Seq<Vec<char>>) -> Seq<Seq<char>> {
    Seq::new(pieces.len(), |i: int| pieces[i]@)
}

/// The character sequences held by a sequence of string slices.
pub open spec fn line_views(lines: Seq<&str>) -> Seq<Seq<char>> {
    Seq::new(lines.len(), |i: int| lines[i]@)
}

/// Splitting always yields at least one piece.
pub proof fn lemma_split_on_nonempty(text: Seq<char>, sep: char)
    ensures
        split_on(text, sep).len() >= 1,
    decreases text.len(),
{
    if text.len() > 0 {
        lemma_split_on_nonempty(text.drop_last(), sep);
    }
}

/// A text that does not hold the separator is its own single piece.
pub proof fn lemma_split_without_separator(text: Seq<char>, sep: char)
    requires
        forall|i: int| 0 <= i < text.len() ==> text[i] != sep,
    ensures
        split_on(text, sep) == seq![text],
    decreases text.len(),
{
    if text.len() == 0 {
        assert(text =~= Seq::<char>::empty());
    } else {
        lemma_split_without_separator(text.drop_last(), sep);
        assert(text.drop_last().push(text.last()) =~= text);
        assert(split_on(text, sep) =~= seq![text]);
    }
}

/// No piece of a split text holds the separator.
pub proof fn lemma_pieces_hold_no_separator(text: Seq<char>, sep: char)
    ensures
        forall|i: int, j: int|
            0 <= i < split_on(text, sep).len() && 0 <= j < split_on(text, sep)[i].len()
                ==> #[trigger] split_on(text, sep)[i][j] != sep,
    decreases text.len(),
{
    if text.len() > 0 {
        lemma_pieces_hold_no_separator(text.drop_last(), sep);
        lemma_split_on_nonempty(text.drop_last(), sep);
    }
}

/// Joining the pieces of a split text with the separator gives the text
/// back.
pub proof fn lemma_join_undoes_split(text: Seq<char>, sep: char)
    ensures
        join_with(split_on(text, sep), seq![sep]) == text,
    decreases text.len(),
{
    if text.len() == 0 {
        assert(join_with(split_on(text, sep), seq![sep]) =~= text);
    } else {
        let before = split_on(text.drop_last(), sep);
        let pieces = split_on(text, sep);
        lemma_join_undoes_split(text.drop_last(), sep);
        lemma_split_on_nonempty(text.drop_last(), sep);
        if text.last() == sep {
            assert(pieces.drop_last() =~= before);
            assert(join_with(pieces, seq![sep]) =~= text.drop_last() + seq![sep]);
        } else if before.len() == 1 {
            assert(join_with(pieces, seq![sep]) =~= before[0].push(text.last()));
        } else {
            assert(pieces.drop_last() =~= before.drop_last());
            assert(join_with(pieces, seq![sep]) =~= join_with(before, seq![sep]).push(
                text.last(),
            ));
        }
        assert(text =~= text.drop_last().push(text.last()));
    }
}

/// A joined text is at least as long as the last of its pieces.
pub proof fn lemma_join_covers_last(parts: Seq<Seq<char>>, sep: Seq<char>)
    requires
        parts.len() > 0,
    ensures
        join_with(parts, sep).len() >= parts.last().len(),
{
}

/// Splits `text` at every occurrence of `sep`.
pub fn split_chars(text: &str, sep: char) -> (pieces: Vec<Vec<char>>)
    ensures
        piece_views(pieces@) == split_on(text@, sep),
{
    let mut done: Vec<Vec<char>> = Vec::new();
    let mut current: Vec<char> = Vec::new();
    assert(text@.take(0) =~= Seq::<char>::empty());
    assert(piece_views(done@).push(current@) =~= split_on(text@.take(0), sep));
    for c in it: text.chars()
        invariant
            it.seq() == text@,
            piece_views(done@).push(current@) == split_on(text@.take(it.index() as int), sep),
    {
        let ghost seen = text@.take(it.index() as int);
        let ghost next = text@.take(it.index() + 1);
        proof {
            assert(next.drop_last() =~= seen);
            assert(next.last() == c);
            lemma_split_on_nonempty(seen, sep);
        }
        let ghost done_before = piece_views(done@);
        let ghost current_before = current@;
        if c == sep {
            done.push(current);
            current = Vec::new();
            assert(piece_views(done@) =~= done_before.push(current_before));
        } else {
            current.push(c);
            assert(done_before.push(current_before).drop_last() =~= done_before);
        }
    }
    proof {
        assert(text@.take(text@.len() as int) =~= text@);
    }
    let ghost done_before = piece_views(done@);
    done.push(current);
    assert(piece_views(done@) =~= done_before.push(current@));
    done
}

/// Joins `lines` into one string with `sep` between each two neighbours.
pub fn join_lines(lines: &Vec<&str>, sep: &str) -> (joined: String)
    ensures
        joined@ == join_with(line_views(lines@), sep@),
{
    let mut joined = String::new();
    let n = lines.len();
    assert(line_views(lines@).take(0) =~= Seq::<Seq<char>>::empty());
    for i in 0..n
        invariant
            n == lines@.len(),
            joined@ == join_with(line_views(lines@).take(i as int), sep@),
    {
        let ghost all = line_views(lines@);
        proof {
            assert(all.take(i + 1).drop_last() =~= all.take(i as int));
            assert(all.take(i + 1).last() == lines@[i as int]@);
        }
        if i > 0 {
            joined.append(sep);
        }
        joined.append(lines[i]);
        proof {
            if i == 0 {
                assert(all.take(1)[0] == lines@[0]@);
                assert(joined@ =~= lines@[0]@);
            }
        }
    }
    assert(line_views(lines@).take(n as int) =~= line_views(lines@));
    joined
}

} // verus!
