//! The forms of the web workbench: what a request asks for.

use vstd::prelude::*;

use crate::text::{
    chars_of, is_blank, is_white_space, join_texts, law_trimming_keeps_what_is_between,
    text_between, texts, trim, trimmed,
};

verus! {

/// Whether a character ends a pattern: a line feed or a comma.
pub open spec fn is_separator(c: char) -> bool {
    c == '\n' || c == ','
}

/// The pieces of a text between its separators.
pub open spec fn pieces(s: Seq<char>) -> Seq<Seq<char>>
    decreases s.len(),
{
    if s.len() == 0 {
        seq![seq![]]
    } else if is_separator(s.last()) {
        pieces(s.drop_last()).push(seq![])
    } else {
        let before = pieces(s.drop_last());
        before.drop_last().push(before.last().push(s.last()))
    }
}

/// The pieces without the white space around them; those of which nothing is left are dropped.
pub open spec fn kept(list: Seq<Seq<char>>) -> Seq<Seq<char>>
    decreases list.len(),
{
    if list.len() == 0 {
        seq![]
    } else if trimmed(list.last()).len() == 0 {
        kept(list.drop_last())
    } else {
        kept(list.drop_last()).push(trimmed(list.last()))
    }
}

/// The patterns that a text lists, one to a line or separated by commas.
pub open spec fn patterns(s: Seq<char>) -> Seq<Seq<char>> {
    kept(pieces(s))
}

/// Appends a piece to the patterns, unless it is blank.
fn keep(list: &mut Vec<String>, chars: &Vec<char>, from: usize, to: usize)
    requires
        from <= to <= chars@.len(),
    ensures
        ({
            let piece = trimmed(chars@.subrange(from as int, to as int));
            texts(final(list)@) == if piece.len() == 0 {
                texts(old(list)@)
            } else {
                texts(old(list)@).push(piece)
            }
        }),
{
    let piece = text_between(chars, from, to);
    let pattern = trim(piece.as_str());
    if !pattern.as_str().is_empty() {
        let ghost before = list@;
        let ghost added = pattern;
        list.push(pattern);
        assert(texts(list@) == texts(before).push(added@));
    }
}

/// The patterns of a field: one to a line or separated by commas, without the white space around
/// each; blank ones are left out. An absent field has none.
pub fn split_patterns(raw: Option<&str>) -> (list: Vec<String>)
    ensures
        texts(list@) == match raw {
            Some(text) => patterns(text@),
            None => Seq::<Seq<char>>::empty(),
        },
{
    let mut list: Vec<String> = Vec::new();
    assert(texts(list@) == Seq::<Seq<char>>::empty());
    let text = match raw {
        Some(text) => text,
        None => {
            return list;
        },
    };
    let chars = chars_of(text);
    let mut start: usize = 0;
    let mut i: usize = 0;
    proof {
        assert(pieces(chars@.take(0)) == seq![Seq::<char>::empty()]);
        assert(pieces(chars@.take(0)).drop_last() == Seq::<Seq<char>>::empty());
    }
    while i < chars.len()
        invariant
            start <= i <= chars@.len(),
            pieces(chars@.take(i as int)).len() > 0,
            pieces(chars@.take(i as int)).last() == chars@.subrange(start as int, i as int),
            texts(list@) == kept(pieces(chars@.take(i as int)).drop_last()),
        decreases chars@.len() - i,
    {
        proof {
            let next = chars@.take(i + 1);
            assert(next.drop_last() == chars@.take(i as int));
            assert(next.last() == chars@[i as int]);
        }
        let ghost before = pieces(chars@.take(i as int));
        if chars[i] == '\n' || chars[i] == ',' {
            keep(&mut list, &chars, start, i);
            start = i + 1;
            assert(pieces(chars@.take(i + 1)) == before.push(seq![]));
            assert(before.push(seq![]).drop_last() == before);
        } else {
            let ghost after = pieces(chars@.take(i + 1));
            assert(after.drop_last() == before.drop_last());
            assert(chars@.subrange(start as int, i + 1) == chars@.subrange(
                start as int,
                i as int,
            ).push(chars@[i as int]));
        }
        i = i + 1;
    }
    assert(chars@.take(chars@.len() as int) == chars@);
    keep(&mut list, &chars, start, i);
    list
}

/// Whether a text is a single pattern as it stands: it is not empty, has no white space at its
/// ends, and holds no separator.
pub open spec fn is_pattern(p: Seq<char>) -> bool {
    &&& p.len() > 0
    &&& !is_white_space(p.first())
    &&& !is_white_space(p.last())
    &&& forall|i: int| 0 <= i < p.len() ==> !is_separator(#[trigger] p[i])
}

/// A text has at least one piece, and no piece holds a separator.
proof fn lemma_pieces(s: Seq<char>)
    ensures
        pieces(s).len() > 0,
        forall|k: int, i: int|
            0 <= k < pieces(s).len() && 0 <= i < pieces(s)[k].len() ==> !is_separator(
                #[trigger] pieces(s)[k][i],
            ),
    decreases s.len(),
{
    if s.len() > 0 {
        lemma_pieces(s.drop_last());
        let before = pieces(s.drop_last());
        let now = pieces(s);
        assert forall|k: int, i: int|
            0 <= k < now.len() && 0 <= i < now[k].len() implies !is_separator(
            #[trigger] now[k][i],
        ) by {
            if k < now.len() - 1 {
                assert(now[k] == before[k]);
                assert(!is_separator(before[k][i]));
            } else if !is_separator(s.last()) {
                assert(now[k] == before.last().push(s.last()));
                if i < before.last().len() {
                    assert(before.last() == before[before.len() - 1]);
                    assert(!is_separator(before[before.len() - 1][i]));
                }
            }
        }
    }
}

/// Trimming keeps a text free of separators and takes the white space off its ends.
proof fn lemma_trimmed(s: Seq<char>)
    ensures
        trimmed(s).len() > 0 ==> !is_white_space(trimmed(s).first()) && !is_white_space(
            trimmed(s).last(),
        ),
        (forall|i: int| 0 <= i < s.len() ==> !is_separator(#[trigger] s[i])) ==> (forall|i: int|
            0 <= i < trimmed(s).len() ==> !is_separator(#[trigger] trimmed(s)[i])),
    decreases s.len(),
{
    if s.len() > 0 && is_white_space(s.first()) {
        lemma_trimmed(s.drop_first());
    } else if s.len() > 0 && is_white_space(s.last()) {
        lemma_trimmed(s.drop_last());
    }
}

proof fn lemma_kept(list: Seq<Seq<char>>)
    requires
        forall|k: int, i: int|
            0 <= k < list.len() && 0 <= i < list[k].len() ==> !is_separator(#[trigger] list[k][i]),
    ensures
        forall|k: int| 0 <= k < kept(list).len() ==> is_pattern(#[trigger] kept(list)[k]),
    decreases list.len(),
{
    if list.len() > 0 {
        let rest = list.drop_last();
        assert forall|k: int, i: int|
            0 <= k < rest.len() && 0 <= i < rest[k].len() implies !is_separator(
            #[trigger] rest[k][i],
        ) by {
            assert(!is_separator(list[k][i]));
        }
        lemma_kept(rest);
        let last = list.last();
        assert forall|i: int| 0 <= i < last.len() implies !is_separator(#[trigger] last[i]) by {
            assert(!is_separator(list[list.len() - 1][i]));
        }
        lemma_trimmed(last);
        assert forall|k: int| 0 <= k < kept(list).len() implies is_pattern(
            #[trigger] kept(list)[k],
        ) by {
            if k < kept(rest).len() {
                assert(kept(list)[k] == kept(rest)[k]);
            }
        }
    }
}

/// Every pattern of a field is a single pattern: not blank, without white space at its ends, and
/// free of separators.
pub proof fn law_patterns_are_single(s: Seq<char>)
    ensures
        forall|k: int| 0 <= k < patterns(s).len() ==> is_pattern(#[trigger] patterns(s)[k]),
{
    lemma_pieces(s);
    lemma_kept(pieces(s));
}

/// A text with the commas turned into line feeds.
pub open spec fn one_per_line(s: Seq<char>) -> Seq<char> {
    s.map_values(|c: char| if c == ',' { '\n' } else { c })
}

/// It makes no difference whether patterns are separated by commas or stand on lines of their
/// own.
pub proof fn law_commas_are_line_feeds(s: Seq<char>)
    ensures
        patterns(one_per_line(s)) == patterns(s),
{
    lemma_pieces_one_per_line(s);
}

proof fn lemma_pieces_one_per_line(s: Seq<char>)
    ensures
        pieces(one_per_line(s)) == pieces(s),
    decreases s.len(),
{
    if s.len() > 0 {
        lemma_pieces_one_per_line(s.drop_last());
        assert(one_per_line(s).drop_last() == one_per_line(s.drop_last()));
        assert(one_per_line(s).last() == if s.last() == ',' { '\n' } else { s.last() });
    } else {
        assert(one_per_line(s) == s);
    }
}

/// The pieces of a text followed by one without separators.
proof fn lemma_pieces_append(a: Seq<char>, b: Seq<char>)
    requires
        forall|i: int| 0 <= i < b.len() ==> !is_separator(#[trigger] b[i]),
    ensures
        pieces(a).len() > 0,
        pieces(a + b) == pieces(a).drop_last().push(pieces(a).last() + b),
    decreases b.len(),
{
    lemma_pieces(a);
    if b.len() == 0 {
        assert(a + b == a);
        assert(pieces(a).last() + b == pieces(a).last());
        assert(pieces(a).drop_last().push(pieces(a).last()) == pieces(a));
    } else {
        let c = b.drop_last();
        assert forall|i: int| 0 <= i < c.len() implies !is_separator(#[trigger] c[i]) by {
            assert(!is_separator(b[i]));
        }
        lemma_pieces_append(a, c);
        assert((a + b).drop_last() == a + c);
        assert((a + b).last() == b[b.len() - 1]);
        let before = pieces(a + c);
        assert(before.drop_last() == pieces(a).drop_last());
        assert(before.last() == pieces(a).last() + c);
        assert((pieces(a).last() + c).push(b.last()) == pieces(a).last() + b);
    }
}

proof fn lemma_pieces_of_join(list: Seq<Seq<char>>)
    requires
        list.len() > 0,
        forall|k: int| 0 <= k < list.len() ==> is_pattern(#[trigger] list[k]),
    ensures
        pieces(join_texts(list, ","@)) == list,
    decreases list.len(),
{
    reveal_strlit(",");
    if list.len() == 1 {
        let empty = Seq::<char>::empty();
        lemma_pieces_append(empty, list[0]);
        assert(empty + list[0] == list[0]);
        assert(pieces(empty) == seq![empty]);
        assert(pieces(list[0]) == list);
    } else {
        let rest = list.drop_last();
        lemma_pieces_of_join(rest);
        let head = join_texts(rest, ","@) + ","@;
        assert(head.drop_last() == join_texts(rest, ","@));
        assert(head.last() == ',');
        assert(pieces(head) == rest.push(seq![]));
        let last = list[list.len() - 1];
        assert(is_pattern(last));
        lemma_pieces_append(head, last);
        assert(rest.push(seq![]).drop_last() == rest);
        assert(Seq::<char>::empty() + last == last);
        assert(rest.push(last) == list);
    }
}

proof fn lemma_kept_patterns(list: Seq<Seq<char>>)
    requires
        forall|k: int| 0 <= k < list.len() ==> is_pattern(#[trigger] list[k]),
    ensures
        kept(list) == list,
    decreases list.len(),
{
    if list.len() > 0 {
        lemma_kept_patterns(list.drop_last());
        assert(is_pattern(list[list.len() - 1]));
        assert(list.drop_last().push(list.last()) == list);
    }
}

/// A list of single patterns, written with commas between them, is read back as it was.
pub proof fn law_patterns_read_back(list: Seq<Seq<char>>)
    requires
        forall|k: int| 0 <= k < list.len() ==> is_pattern(#[trigger] list[k]),
    ensures
        patterns(join_texts(list, ","@)) == list,
{
    if list.len() == 0 {
        let empty = Seq::<char>::empty();
        assert(pieces(empty) == seq![empty]);
        assert(seq![empty].drop_last() == Seq::<Seq<char>>::empty());
        assert(seq![empty].last() == empty);
        assert(trimmed(empty) == empty);
        assert(kept(seq![empty]) == kept(Seq::<Seq<char>>::empty()));
        assert(join_texts(list, ","@) == empty);
    } else {
        lemma_pieces_of_join(list);
        lemma_kept_patterns(list);
    }
}

proof fn lemma_pieces_of_two(a: Seq<char>, sep: char, b: Seq<char>)
    requires
        sep == ',' || sep == '\n',
    ensures
        pieces(a + seq![sep] + b) == pieces(a) + pieces(b),
    decreases b.len(),
{
    let s = a + seq![sep] + b;
    lemma_pieces(a);
    lemma_pieces(b);
    if b.len() == 0 {
        assert(s.drop_last() == a);
        assert(s.last() == sep);
        assert(pieces(b) == seq![Seq::<char>::empty()]);
        assert(pieces(a).push(seq![]) == pieces(a) + pieces(b));
    } else {
        let c = b.drop_last();
        lemma_pieces_of_two(a, sep, c);
        lemma_pieces(c);
        assert(s.drop_last() == a + seq![sep] + c);
        assert(s.last() == b.last());
        let before = pieces(a) + pieces(c);
        assert(before.last() == pieces(c).last());
        assert(before.drop_last() == pieces(a) + pieces(c).drop_last());
        assert(pieces(s) == pieces(a) + pieces(b));
    }
}

proof fn lemma_kept_of_two(a: Seq<Seq<char>>, b: Seq<Seq<char>>)
    ensures
        kept(a + b) == kept(a) + kept(b),
    decreases b.len(),
{
    if b.len() == 0 {
        assert(a + b == a);
        assert(kept(a) + kept(b) == kept(a));
    } else {
        assert((a + b).drop_last() == a + b.drop_last());
        assert((a + b).last() == b.last());
        lemma_kept_of_two(a, b.drop_last());
        assert(kept(a + b) == kept(a) + kept(b));
    }
}

/// What stands on the two sides of a comma or a line feed is read on its own: the patterns of both
/// sides are those of one side, and behind them those of the other.
pub proof fn law_patterns_of_two_sides(a: Seq<char>, sep: char, b: Seq<char>)
    requires
        sep == ',' || sep == '\n',
    ensures
        patterns(a + seq![sep] + b) == patterns(a) + patterns(b),
{
    lemma_pieces_of_two(a, sep, b);
    lemma_kept_of_two(pieces(a), pieces(b));
}

/// A text without commas and line feeds is one pattern, without the white space around it, and
/// none where it holds nothing else.
pub proof fn law_a_single_side_is_one_pattern(
    before: Seq<char>,
    pattern: Seq<char>,
    after: Seq<char>,
)
    requires
        is_blank(before),
        is_blank(after),
        pattern.len() > 0 ==> !is_white_space(pattern[0]) && !is_white_space(
            pattern[pattern.len() - 1],
        ),
        !(before + pattern + after).contains(','),
        !(before + pattern + after).contains('\n'),
    ensures
        patterns(before + pattern + after) == if pattern.len() == 0 {
            seq![]
        } else {
            seq![pattern]
        },
{
    let s = before + pattern + after;
    let empty = Seq::<char>::empty();
    assert forall|i: int| 0 <= i < s.len() implies !is_separator(#[trigger] s[i]) by {
        assert(s.contains(s[i]));
    }
    lemma_pieces_append(empty, s);
    assert(pieces(empty) == seq![empty]);
    assert(empty + s == s);
    assert(pieces(s) == seq![s]);
    law_trimming_keeps_what_is_between(before, pattern, after);
    assert(seq![s].drop_last() == Seq::<Seq<char>>::empty());
    assert(seq![s].last() == s);
    assert(kept(seq![s].drop_last()) == Seq::<Seq<char>>::empty());
    if pattern.len() == 0 {
        assert(kept(seq![s]) == Seq::<Seq<char>>::empty());
    } else {
        assert(kept(seq![s]) == seq![pattern]);
    }
}

} // verus!
