//! What holds of splitting and joining.

use crate::text::{
    find_from, join, lemma_find_from, lemma_find_from_first, matches_at, split, split_from,
};
use vstd::prelude::*;

verus! {

/// Where part `k` of `parts` begins in the joined text, for a separator of
/// one character.
pub open spec fn part_start(parts: Seq<Seq<char>>, sep: Seq<char>, k: int) -> int {
    if k <= 0 {
        0
    } else {
        (join(parts.take(k), sep).len() + 1) as int
    }
}

/// The first `k` parts, joined, are the beginning of all the parts, joined.
pub proof fn lemma_join_prefix(parts: Seq<Seq<char>>, sep: Seq<char>, k: int)
    requires
        1 <= k <= parts.len(),
    ensures
        join(parts.take(k), sep).len() <= join(parts, sep).len(),
        join(parts, sep).take(join(parts.take(k), sep).len() as int) == join(parts.take(k), sep),
    decreases parts.len(),
{
    let all = join(parts, sep);
    if k == parts.len() {
        assert(parts.take(k) =~= parts);
        assert(all.take(all.len() as int) =~= all);
    } else {
        let front = parts.drop_last();
        lemma_join_prefix(front, sep, k);
        assert(front.take(k) =~= parts.take(k));
        let m = join(parts.take(k), sep).len() as int;
        assert(all == join(front, sep) + sep + parts.last());
        assert(all.take(m) =~= join(front, sep).take(m));
    }
}

/// From where part `k` begins, the joined text splits at the separator into
/// the parts from `k` on. The separator is one character that no part holds.
pub proof fn lemma_split_join_from(parts: Seq<Seq<char>>, c: char, k: int)
    requires
        0 <= k < parts.len(),
        forall|i: int| 0 <= i < parts.len() ==> !(#[trigger] parts[i]).contains(c),
    ensures
        split_from(join(parts, seq![c]), seq![c], part_start(parts, seq![c], k)) == parts.skip(k),
    decreases parts.len() - k,
{
    let sep = seq![c];
    let text = join(parts, sep);
    let start = part_start(parts, sep, k);
    let part = parts[k];
    let end = start + part.len();
    lemma_join_prefix(parts, sep, k + 1);
    let upto = join(parts.take(k + 1), sep);
    assert(parts.take(k + 1).last() == part);
    assert(parts.take(k + 1).drop_last() =~= parts.take(k));
    if k == 0 {
        assert(parts.take(1)[0] == part);
        assert(upto == part);
    } else {
        assert(upto == join(parts.take(k), sep) + sep + part);
    }
    assert(upto.len() == end);
    assert forall|j: int| 0 <= j < upto.len() implies text[j] == upto[j] by {
        assert(text.take(upto.len() as int)[j] == text[j]);
    }
    assert forall|j: int| start <= j < end implies !matches_at(text, sep, j) by {
        assert(text[j] == upto[j]);
        assert(upto[j] == part[j - start]);
        assert(part.contains(part[j - start]));
        if j + 1 <= text.len() {
            assert(text.subrange(j, j + 1)[0] == text[j]);
        }
    }
    assert(text.subrange(start, end) =~= part) by {
        assert forall|j: int| 0 <= j < part.len() implies text.subrange(start, end)[j]
            == part[j] by {
            assert(text[start + j] == upto[start + j]);
        }
    }
    if k == parts.len() - 1 {
        assert(parts.take(k + 1) =~= parts);
        assert(end == text.len());
        assert(find_from(text, sep, start) is None) by {
            lemma_find_from(text, sep, start);
            if let Some(i) = find_from(text, sep, start) {
                assert(matches_at(text, sep, i));
                assert(i + 1 <= text.len());
                assert(!matches_at(text, sep, i));
            }
        }
        assert(parts.skip(k) =~= seq![part]);
    } else {
        lemma_join_prefix(parts, sep, k + 2);
        let further = join(parts.take(k + 2), sep);
        assert(parts.take(k + 2).drop_last() =~= parts.take(k + 1));
        assert(further == upto + sep + parts.take(k + 2).last());
        assert(text[end] == c) by {
            assert(text.take(further.len() as int)[end] == text[end]);
            assert(further[end] == sep[0]);
        }
        assert(text.subrange(end, end + 1) =~= sep);
        assert(matches_at(text, sep, end));
        lemma_find_from_first(text, sep, start, end);
        lemma_split_join_from(parts, c, k + 1);
        assert(part_start(parts, sep, k + 1) == end + 1);
        assert(parts.skip(k) =~= seq![part] + parts.skip(k + 1));
        assert(split_from(text, sep, start) == seq![text.subrange(start, end)] + split_from(
            text,
            sep,
            end + 1,
        ));
    }
}

/// Parts that are joined by a separator of one character, which none of them
/// holds, are given back by splitting at that separator.
pub proof fn lemma_split_join(parts: Seq<Seq<char>>, c: char)
    requires
        parts.len() > 0,
        forall|i: int| 0 <= i < parts.len() ==> !(#[trigger] parts[i]).contains(c),
    ensures
        split(join(parts, seq![c]), seq![c]) == parts,
{
    lemma_split_join_from(parts, c, 0);
    assert(parts.skip(0) =~= parts);
}

} // verus!
