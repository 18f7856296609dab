//! Splitting and joining of texts on a separator character.

use vstd::prelude::*;
use vstd::std_specs::iter::IteratorSpec;

verus! {

broadcast use vstd::string::group_string_axioms;

/// The pieces of `s` that lie between the occurrences of `sep`, in order.
/// An empty text has one empty piece, and `n` separators give `n + 1` pieces.
pub open spec fn split_on(s: Seq<char>, sep: char) -> Seq<Seq<char>>
    decreases s.len(),
{
    if s.len() == 0 {
        seq![Seq::empty()]
    } else {
        let before = split_on(s.drop_last(), sep);
        if s.last() == sep {
            before.push(Seq::empty())
        } else {
            before.drop_last().push(before.last().push(s.last()))
        }
    }
}

/// The parts in order with `sep` between each two neighbours.
pub open spec fn join_with(parts: Seq<Seq<char>>, sep: char) -> Seq<char>
    decreases parts.len(),
{
    if parts.len() == 0 {
        Seq::empty()
    } else if parts.len() == 1 {
        parts[0]
    } else {
        join_with(parts.drop_last(), sep).push(sep) + parts.last()
    }
}

/// What one more character does to the pieces of a text.
pub proof fn lemma_split_push(t: Seq<char>, c: char, sep: char)
    ensures
        split_on(t.push(c), sep) == if c == sep {
            split_on(t, sep).push(Seq::empty())
        } else {
            split_on(t, sep).drop_last().push(split_on(t, sep).last().push(c))
        },
{
    assert(t.push(c).drop_last() =~= t);
}

/// A text splits into at least one piece, and no piece holds the separator.
pub proof fn lemma_split_pieces(s: Seq<char>, sep: char)
    ensures
        split_on(s, sep).len() >= 1,
        forall|i: int|
            0 <= i < split_on(s, sep).len() ==> !(#[trigger] split_on(s, sep)[i]).contains(sep),
    decreases s.len(),
{
    if s.len() > 0 {
        lemma_split_pieces(s.drop_last(), sep);
        let before = split_on(s.drop_last(), sep);
        if s.last() != sep {
            let grown = before.last().push(s.last());
            assert forall|j: int| 0 <= j < grown.len() implies grown[j] != sep by {
                if j < before.last().len() {
                    assert(before.last().contains(grown[j]));
                }
            }
        }
    }
}

/// A text without the separator, put behind another text, lengthens that
/// text's last piece.
pub proof fn lemma_split_append(head: Seq<char>, tail: Seq<char>, sep: char)
    requires
        !tail.contains(sep),
    ensures
        split_on(head + tail, sep) == split_on(head, sep).drop_last().push(
            split_on(head, sep).last() + tail,
        ),
    decreases tail.len(),
{
    lemma_split_pieces(head, sep);
    let pieces = split_on(head, sep);
    if tail.len() == 0 {
        assert(head + tail =~= head);
        assert(pieces.last() + tail =~= pieces.last());
        assert(pieces.drop_last().push(pieces.last()) =~= pieces);
    } else {
        let shorter = tail.drop_last();
        assert(tail.contains(tail.last()));
        assert forall|j: int| 0 <= j < shorter.len() implies shorter[j] != sep by {
            assert(tail.contains(tail[j]));
        }
        lemma_split_append(head, shorter, sep);
        assert(head + tail =~= (head + shorter).push(tail.last()));
        lemma_split_push(head + shorter, tail.last(), sep);
        assert((pieces.last() + shorter).push(tail.last()) =~= pieces.last() + tail);
        let mid = pieces.drop_last().push(pieces.last() + shorter);
        assert(mid.drop_last() =~= pieces.drop_last());
    }
}

/// Joining the pieces of a text with the separator gives the text back.
pub proof fn lemma_join_of_split(s: Seq<char>, sep: char)
    ensures
        join_with(split_on(s, sep), sep) == s,
    decreases s.len(),
{
    if s.len() == 0 {
        assert(seq![Seq::<char>::empty()][0] =~= s);
    } else {
        let t = s.drop_last();
        let before = split_on(t, sep);
        lemma_join_of_split(t, sep);
        lemma_split_pieces(t, sep);
        lemma_join_last(before, sep);
        if s.last() == sep {
            let after = before.push(Seq::empty());
            assert(after.drop_last() =~= before);
            assert(t.push(sep) + Seq::<char>::empty() =~= s);
        } else {
            let grown = before.last().push(s.last());
            let after = before.drop_last().push(grown);
            assert(after.drop_last() =~= before.drop_last());
            if before.len() == 1 {
                assert(grown =~= s);
            } else {
                let stem = join_with(before.drop_last(), sep).push(sep);
                assert(stem + grown =~= (stem + before.last()).push(s.last()));
                assert(t.push(s.last()) =~= s);
            }
        }
    }
}

/// How a joined text ends: with the last part, behind a separator where
/// other parts come before it.
proof fn lemma_join_last(parts: Seq<Seq<char>>, sep: char)
    requires
        parts.len() >= 1,
    ensures
        parts.len() == 1 ==> join_with(parts, sep) == parts[0],
        parts.len() > 1 ==> join_with(parts, sep) == join_with(parts.drop_last(), sep).push(sep)
            + parts.last(),
{
}

/// Splitting what was joined gives the parts back, where there is at least
/// one part and no part holds the separator.
pub proof fn lemma_split_of_join(parts: Seq<Seq<char>>, sep: char)
    requires
        parts.len() >= 1,
        forall|i: int| 0 <= i < parts.len() ==> !(#[trigger] parts[i]).contains(sep),
    ensures
        split_on(join_with(parts, sep), sep) == parts,
    decreases parts.len(),
{
    let none = Seq::<char>::empty();
    if parts.len() == 1 {
        lemma_split_append(none, parts[0], sep);
        assert(none + parts[0] =~= parts[0]);
        assert(seq![none].drop_last().push(none + parts[0]) =~= parts);
    } else {
        let stem = parts.drop_last();
        assert forall|i: int| 0 <= i < stem.len() implies !(#[trigger] stem[i]).contains(sep) by {
            assert(stem[i] == parts[i]);
        }
        lemma_split_of_join(stem, sep);
        let head = join_with(stem, sep).push(sep);
        lemma_split_push(join_with(stem, sep), sep, sep);
        lemma_split_append(head, parts.last(), sep);
        assert(none + parts.last() =~= parts.last());
        assert(stem.push(none).drop_last() =~= stem);
        assert(stem.push(parts.last()) =~= parts);
    }
}

/// `String::push` appends one character to the end of the string.
pub assume_specification[ String::push ](s: &mut String, c: char)
    ensures
        final(s)@ == old(s)@.push(c),
;

/// Splits `s` at every occurrence of `sep`.
pub fn split_text(s: &str, sep: char) -> (pieces: Vec<String>)
    ensures
        pieces.deep_view() == split_on(s@, sep),
{
    let mut done: Vec<String> = Vec::new();
    let mut current = String::new();
    for c in it: s.chars()
        invariant
            it.seq() == s@,
            split_on(s@.take(it.index()), sep) == done.deep_view().push(current@),
    {
        proof {
            let k = it.index();
            assert(c == s@[k]);
            assert(s@.take(k + 1) =~= s@.take(k).push(c));
            lemma_split_push(s@.take(k), c, sep);
            assert(done.deep_view().push(current@).drop_last() =~= done.deep_view());
        }
        let ghost before = done.deep_view();
        let ghost piece = current@;
        if c == sep {
            done.push(current);
            current = String::new();
            assert(done.deep_view() =~= before.push(piece));
        } else {
            current.push(c);
        }
    }
    assert(s@.take(s@.len() as int) =~= s@);
    let ghost before = done.deep_view();
    done.push(current);
    assert(done.deep_view() =~= before.push(current@));
    done
}

/// Joins the parts with `sep` between each two neighbours.
pub fn join_texts(parts: &Vec<String>, sep: char) -> (joined: String)
    ensures
        joined@ == join_with(parts.deep_view(), sep),
{
    let mut joined = String::new();
    let mut i: usize = 0;
    while i < parts.len()
        invariant
            i <= parts.len(),
            joined@ == join_with(parts.deep_view().take(i as int), sep),
        decreases parts.len() - i,
    {
        proof {
            let upto = parts.deep_view().take(i + 1);
            assert(upto.drop_last() =~= parts.deep_view().take(i as int));
            assert(upto.last() == parts[i as int]@);
            assert(Seq::<char>::empty() + parts[i as int]@ =~= parts[i as int]@);
        }
        if i > 0 {
            joined.push(sep);
        }
        joined.append(parts[i].as_str());
        i += 1;
    }
    assert(parts.deep_view().take(parts.len() as int) =~= parts.deep_view());
    joined
}

/// Whether `s` begins with `prefix`.
pub fn starts_with(s: &str, prefix: &str) -> (r: bool)
    ensures
        r == prefix@.is_prefix_of(s@),
{
    let mut rest = s.chars();
    for c in it: prefix.chars()
        invariant
            it.seq() == prefix@,
            it.index() <= s@.len(),
            rest.remaining() == s@.skip(it.index()),
            s@.take(it.index()) == prefix@.take(it.index()),
    {
        let ghost k = it.index();
        match rest.next() {
            Some(d) => {
                if d != c {
                    assert(s@[k] != prefix@[k]);
                    return false;
                }
                assert(s@.take(k + 1) =~= s@.take(k).push(d));
                assert(prefix@.take(k + 1) =~= prefix@.take(k).push(c));
                assert(s@.skip(k).drop_first() =~= s@.skip(k + 1));
            },
            None => {
                assert(s@.len() == k);
                return false;
            },
        }
    }
    assert(prefix@.take(prefix@.len() as int) =~= prefix@);
    assert(s@.take(prefix@.len() as int) =~= s@.subrange(0, prefix@.len() as int));
    true
}

/// Whether the two texts hold the same characters.
pub fn same_text(a: &str, b: &str) -> (r: bool)
    ensures
        r == (a@ == b@),
{
    let mut rest = b.chars();
    for c in it: a.chars()
        invariant
            it.seq() == a@,
            it.index() <= b@.len(),
            rest.remaining() == b@.skip(it.index()),
            b@.take(it.index()) == a@.take(it.index()),
    {
        let ghost k = it.index();
        match rest.next() {
            Some(d) => {
                if d != c {
                    assert(b@[k] != a@[k]);
                    return false;
                }
                assert(b@.take(k + 1) =~= b@.take(k).push(d));
                assert(a@.take(k + 1) =~= a@.take(k).push(c));
                assert(b@.skip(k).drop_first() =~= b@.skip(k + 1));
            },
            None => {
                assert(b@.len() == k);
                return false;
            },
        }
    }
    assert(a@.take(a@.len() as int) =~= a@);
    match rest.next() {
        Some(_) => false,
        None => {
            assert(b@.take(b@.len() as int) =~= b@);
            true
        },
    }
}

} // verus!
