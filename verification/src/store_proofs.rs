//! What holds of the stored form of a tag set: sorting keeps the tags and puts
//! them in order, the stored text reads back as the set that was written, and
//! storing twice gives the same text.

use crate::store::{
    ascending, insert_sorted, lemma_contains_concat, lines, loaded, merged, newline, newly_seen,
    persisted, render, sort_tags, strip_cr,
};
use crate::tagset::{is_tag_list, no_tag};
use crate::text::{
    find_from, lemma_find_from_first, matches_at, split, split_from,
};
use crate::version::{at_most, lemma_at_most_total, lemma_at_most_transitive};
use vstd::prelude::*;
use vstd::seq_lib::to_multiset_build;

verus! {

/// Whether `tag` can stand on a line of its own and be read back: it holds no
/// line feed and does not end in a carriage return.
pub open spec fn line_safe(tag: Seq<char>) -> bool {
    !tag.contains('\n') && (tag.len() == 0 || tag.last() != '\r')
}

/// A tag is in `s.push(t)` exactly if it is in `s` or is `t`.
pub proof fn lemma_contains_push(s: Seq<Seq<char>>, t: Seq<char>, x: Seq<char>)
    ensures
        s.push(t).contains(x) <==> s.contains(x) || x == t,
{
    assert(s.push(t) =~= s + seq![t]);
    lemma_contains_concat(s, seq![t], x);
    if seq![t].contains(x) {
        let i = choose|i: int| 0 <= i < seq![t].len() && seq![t][i] == x;
        assert(x == t);
    }
    if x == t {
        assert(seq![t][0] == x);
    }
}

/// Pushing a tag that a list without duplicates does not hold leaves it
/// without duplicates.
pub proof fn lemma_push_no_duplicates(s: Seq<Seq<char>>, t: Seq<char>)
    requires
        s.no_duplicates(),
        !s.contains(t),
    ensures
        s.push(t).no_duplicates(),
{
    let r = s.push(t);
    assert forall|i: int, j: int| 0 <= i < r.len() && 0 <= j < r.len() && i != j implies r[i]
        != r[j] by {
        if i < s.len() && j < s.len() {
            assert(s[i] != s[j]);
        } else if i < s.len() {
            assert(s[i] != t);
        } else {
            assert(s[j] != t);
        }
    }
}

/// Putting a tag into a sorted list adds that tag and nothing else.
pub proof fn lemma_insert_sorted_contains(s: Seq<Seq<char>>, t: Seq<char>, x: Seq<char>)
    ensures
        insert_sorted(s, t).contains(x) <==> s.contains(x) || x == t,
        insert_sorted(s, t).len() == s.len() + 1,
    decreases s.len(),
{
    if s.len() == 0 {
        assert(s =~= Seq::empty());
        assert(seq![t] =~= s.push(t));
        lemma_contains_push(s, t, x);
    } else if at_most(s.last(), t) {
        lemma_contains_push(s, t, x);
    } else {
        let q = insert_sorted(s.drop_last(), t);
        lemma_insert_sorted_contains(s.drop_last(), t, x);
        lemma_contains_push(q, s.last(), x);
        assert(s =~= s.drop_last().push(s.last()));
        lemma_contains_push(s.drop_last(), s.last(), x);
    }
}

/// Putting a new tag into a list without duplicates leaves it without
/// duplicates.
pub proof fn lemma_insert_sorted_no_duplicates(s: Seq<Seq<char>>, t: Seq<char>)
    requires
        s.no_duplicates(),
        !s.contains(t),
    ensures
        insert_sorted(s, t).no_duplicates(),
    decreases s.len(),
{
    if s.len() == 0 {
        assert(seq![t] =~= s.push(t));
        lemma_push_no_duplicates(s, t);
    } else if at_most(s.last(), t) {
        lemma_push_no_duplicates(s, t);
    } else {
        let front = s.drop_last();
        let q = insert_sorted(front, t);
        assert(s =~= front.push(s.last()));
        assert(front.no_duplicates()) by {
            assert forall|i: int, j: int|
                0 <= i < front.len() && 0 <= j < front.len() && i != j implies front[i]
                != front[j] by {
                assert(s[i] != s[j]);
            }
        }
        assert(!front.contains(t)) by {
            lemma_contains_push(front, s.last(), t);
        }
        lemma_insert_sorted_no_duplicates(front, t);
        assert(!q.contains(s.last())) by {
            lemma_insert_sorted_contains(front, t, s.last());
            assert(s[s.len() - 1] == s.last());
            if front.contains(s.last()) {
                let i = choose|i: int| 0 <= i < front.len() && front[i] == s.last();
                assert(s[i] == s[s.len() - 1]);
            }
            assert(s.contains(s.last()));
        }
        lemma_push_no_duplicates(q, s.last());
    }
}

/// Putting a tag into an ascending list leaves it ascending.
pub proof fn lemma_insert_sorted_ascending(s: Seq<Seq<char>>, t: Seq<char>)
    requires
        ascending(s),
    ensures
        ascending(insert_sorted(s, t)),
    decreases s.len(),
{
    if s.len() == 0 {
    } else if at_most(s.last(), t) {
        let r = s.push(t);
        assert forall|i: int, j: int| 0 <= i < j < r.len() implies at_most(r[i], r[j]) by {
            if j < s.len() {
                assert(at_most(s[i], s[j]));
            } else if i < s.len() - 1 {
                assert(at_most(s[i], s[s.len() - 1]));
                lemma_at_most_transitive(s[i], s.last(), t);
            }
        }
    } else {
        let front = s.drop_last();
        let q = insert_sorted(front, t);
        assert(ascending(front)) by {
            assert forall|i: int, j: int| 0 <= i < j < front.len() implies at_most(
                front[i],
                front[j],
            ) by {
                assert(at_most(s[i], s[j]));
            }
        }
        lemma_insert_sorted_ascending(front, t);
        let r = q.push(s.last());
        assert forall|i: int, j: int| 0 <= i < j < r.len() implies at_most(r[i], r[j]) by {
            if j < q.len() {
                assert(at_most(q[i], q[j]));
            } else {
                lemma_insert_sorted_contains(front, t, q[i]);
                assert(q.contains(q[i]));
                if q[i] == t {
                    lemma_at_most_total(s.last(), t);
                } else {
                    let k = choose|k: int| 0 <= k < front.len() && front[k] == q[i];
                    assert(at_most(s[k], s[s.len() - 1]));
                }
            }
        }
    }
}

/// Sorting puts the tags in ascending order.
pub proof fn lemma_sort_ascending(tags: Seq<Seq<char>>)
    ensures
        ascending(sort_tags(tags)),
    decreases tags.len(),
{
    if tags.len() > 0 {
        lemma_sort_ascending(tags.drop_last());
        lemma_insert_sorted_ascending(sort_tags(tags.drop_last()), tags.last());
    }
}

/// Sorting neither adds nor drops a tag.
pub proof fn lemma_sort_contains(tags: Seq<Seq<char>>, x: Seq<char>)
    ensures
        sort_tags(tags).contains(x) <==> tags.contains(x),
        sort_tags(tags).len() == tags.len(),
    decreases tags.len(),
{
    if tags.len() > 0 {
        lemma_sort_contains(tags.drop_last(), x);
        lemma_insert_sorted_contains(sort_tags(tags.drop_last()), tags.last(), x);
        assert(tags =~= tags.drop_last().push(tags.last()));
        lemma_contains_push(tags.drop_last(), tags.last(), x);
    }
}

/// Putting a tag into a sorted list adds one occurrence of that tag.
pub proof fn lemma_insert_sorted_multiset(s: Seq<Seq<char>>, t: Seq<char>)
    ensures
        insert_sorted(s, t).to_multiset() == s.to_multiset().insert(t),
    decreases s.len(),
{
    if s.len() == 0 {
        assert(seq![t] =~= s.push(t));
        to_multiset_build(s, t);
    } else if at_most(s.last(), t) {
        to_multiset_build(s, t);
    } else {
        let front = s.drop_last();
        lemma_insert_sorted_multiset(front, t);
        to_multiset_build(insert_sorted(front, t), s.last());
        to_multiset_build(front, s.last());
        assert(s =~= front.push(s.last()));
        assert(front.to_multiset().insert(t).insert(s.last()) =~= front.to_multiset().insert(
            s.last(),
        ).insert(t));
    }
}

/// Sorting rearranges: each tag occurs in the sorted list as often as in the
/// list that was sorted.
pub proof fn lemma_sort_permutes(tags: Seq<Seq<char>>)
    ensures
        sort_tags(tags).to_multiset() == tags.to_multiset(),
    decreases tags.len(),
{
    if tags.len() == 0 {
        assert(tags =~= Seq::empty());
    } else {
        let front = tags.drop_last();
        lemma_sort_permutes(front);
        lemma_insert_sorted_multiset(sort_tags(front), tags.last());
        to_multiset_build(front, tags.last());
        assert(tags =~= front.push(tags.last()));
    }
}

/// Sorting a tag list gives a tag list: still no tag twice, and still not the
/// text for "no tag".
pub proof fn lemma_sort_tag_list(tags: Seq<Seq<char>>)
    requires
        is_tag_list(tags),
    ensures
        is_tag_list(sort_tags(tags)),
    decreases tags.len(),
{
    lemma_sort_contains(tags, no_tag());
    if tags.len() > 0 {
        let front = tags.drop_last();
        assert(tags =~= front.push(tags.last()));
        assert(front.no_duplicates()) by {
            assert forall|i: int, j: int|
                0 <= i < front.len() && 0 <= j < front.len() && i != j implies front[i]
                != front[j] by {
                assert(tags[i] != tags[j]);
            }
        }
        lemma_contains_push(front, tags.last(), no_tag());
        lemma_sort_tag_list(front);
        assert(!front.contains(tags.last())) by {
            if front.contains(tags.last()) {
                let i = choose|i: int| 0 <= i < front.len() && front[i] == tags.last();
                assert(tags[i] == tags[tags.len() - 1]);
            }
        }
        lemma_sort_contains(front, tags.last());
        lemma_insert_sorted_no_duplicates(sort_tags(front), tags.last());
    }
}

/// Sorting leaves an ascending list as it is.
pub proof fn lemma_sort_ascending_unchanged(tags: Seq<Seq<char>>)
    requires
        ascending(tags),
    ensures
        sort_tags(tags) == tags,
    decreases tags.len(),
{
    if tags.len() > 0 {
        let front = tags.drop_last();
        assert(ascending(front)) by {
            assert forall|i: int, j: int| 0 <= i < j < front.len() implies at_most(
                front[i],
                front[j],
            ) by {
                assert(at_most(tags[i], tags[j]));
            }
        }
        lemma_sort_ascending_unchanged(front);
        if front.len() > 0 {
            assert(at_most(tags[front.len() - 1], tags[tags.len() - 1]));
        }
        assert(front.push(tags.last()) =~= tags);
        assert(seq![tags.last()] =~= Seq::<Seq<char>>::empty().push(tags.last()));
    } else {
        assert(tags =~= Seq::empty());
    }
}

/// Sorting twice is sorting once.
pub proof fn lemma_sort_idempotent(tags: Seq<Seq<char>>)
    ensures
        sort_tags(sort_tags(tags)) == sort_tags(tags),
{
    lemma_sort_ascending(tags);
    lemma_sort_ascending_unchanged(sort_tags(tags));
}

/// The text of the first `k` tags is the beginning of the text of all.
pub proof fn lemma_render_prefix(tags: Seq<Seq<char>>, k: int)
    requires
        0 <= k <= tags.len(),
    ensures
        render(tags.take(k)).len() <= render(tags).len(),
        render(tags).take(render(tags.take(k)).len() as int) == render(tags.take(k)),
    decreases tags.len(),
{
    if k == tags.len() {
        assert(tags.take(k) =~= tags);
        assert(render(tags).take(render(tags).len() as int) =~= render(tags));
    } else {
        let front = tags.drop_last();
        lemma_render_prefix(front, k);
        assert(front.take(k) =~= tags.take(k));
        let m = render(tags.take(k)).len() as int;
        assert(render(tags).take(m) =~= render(front).take(m));
    }
}

/// From where the text of the first `k` tags ends, the text of all the tags
/// splits at the line feeds into the remaining tags and an empty last piece.
pub proof fn lemma_split_render(tags: Seq<Seq<char>>, k: int)
    requires
        0 <= k <= tags.len(),
        forall|i: int| 0 <= i < tags.len() ==> !(#[trigger] tags[i]).contains('\n'),
    ensures
        split_from(render(tags), newline(), render(tags.take(k)).len() as int) == tags.skip(k)
            + seq![Seq::<char>::empty()],
    decreases tags.len() - k,
{
    let text = render(tags);
    let start = render(tags.take(k)).len() as int;
    lemma_render_prefix(tags, k);
    if k == tags.len() {
        assert(tags.take(k) =~= tags);
        assert(find_from(text, newline(), start) is None);
        assert(text.subrange(start, text.len() as int) =~= Seq::<char>::empty());
        assert(tags.skip(k) + seq![Seq::<char>::empty()] =~= seq![Seq::<char>::empty()]);
    } else {
        let tag = tags[k];
        let end = start + tag.len();
        lemma_render_prefix(tags, k + 1);
        assert(tags.take(k + 1).drop_last() =~= tags.take(k));
        assert(tags.take(k + 1).last() == tag);
        let upto = render(tags.take(k + 1));
        assert(upto == render(tags.take(k)) + tag + newline());
        assert(upto.len() == end + 1);
        assert forall|j: int| 0 <= j < upto.len() implies text[j] == upto[j] by {
            assert(text.take(upto.len() as int)[j] == text[j]);
        }
        assert(text.subrange(end, end + 1) =~= newline()) by {
            assert(text[end] == upto[end]);
        }
        assert(matches_at(text, newline(), end));
        assert forall|j: int| start <= j < end implies !matches_at(text, newline(), j) by {
            assert(text[j] == upto[j]);
            assert(upto[j] == tag[j - start]);
            assert(tag.contains(tag[j - start]));
            assert(text.subrange(j, j + 1)[0] == text[j]);
        }
        lemma_find_from_first(text, newline(), start, end);
        assert(text.subrange(start, end) =~= tag) by {
            assert forall|j: int| 0 <= j < tag.len() implies text.subrange(start, end)[j]
                == tag[j] by {
                assert(text[start + j] == upto[start + j]);
            }
        }
        lemma_split_render(tags, k + 1);
        assert(tags.skip(k) =~= seq![tag] + tags.skip(k + 1));
        assert(split_from(text, newline(), start) == seq![text.subrange(start, end)] + split_from(
            text,
            newline(),
            end + 1,
        ));
        assert(seq![tag] + (tags.skip(k + 1) + seq![Seq::<char>::empty()]) =~= tags.skip(k)
            + seq![Seq::<char>::empty()]);
    }
}

/// Tags that are written one per line read back as they were written.
pub proof fn lemma_lines_of_render(tags: Seq<Seq<char>>)
    requires
        forall|i: int| 0 <= i < tags.len() ==> line_safe(#[trigger] tags[i]),
    ensures
        lines(render(tags)) == tags,
{
    lemma_split_render(tags, 0);
    assert(tags.take(0) =~= Seq::<Seq<char>>::empty());
    assert(tags.skip(0) =~= tags);
    let pieces = split(render(tags), newline());
    assert(pieces == tags + seq![Seq::<char>::empty()]);
    assert(pieces.drop_last() =~= tags);
    assert(pieces.last() =~= Seq::<char>::empty());
    assert(pieces.drop_last().map_values(|piece: Seq<char>| strip_cr(piece)) =~= tags);
}

/// The new tags among `fetched` are the fetched tags that `known` lacks,
/// without the text for "no tag", each once.
pub proof fn lemma_newly_seen(known: Seq<Seq<char>>, fetched: Seq<Seq<char>>)
    ensures
        newly_seen(known, fetched).no_duplicates(),
        forall|x: Seq<char>|
            newly_seen(known, fetched).contains(x) <==> fetched.contains(x) && x != no_tag()
                && !known.contains(x),
    decreases fetched.len(),
{
    let r = newly_seen(known, fetched);
    if fetched.len() == 0 {
        assert(r =~= Seq::empty());
    } else {
        let front = fetched.drop_last();
        let earlier = newly_seen(known, front);
        let tag = fetched.last();
        lemma_newly_seen(known, front);
        assert(fetched =~= front.push(tag));
        assert forall|x: Seq<char>|
            r.contains(x) <==> fetched.contains(x) && x != no_tag() && !known.contains(x) by {
            lemma_contains_push(front, tag, x);
            lemma_contains_push(earlier, tag, x);
        }
        if !(tag == no_tag() || known.contains(tag) || earlier.contains(tag)) {
            lemma_push_no_duplicates(earlier, tag);
        }
    }
}

/// Merging fetched tags into a tag list gives a tag list, which holds what
/// the list held and each fetched tag but the text for "no tag".
pub proof fn lemma_merged(known: Seq<Seq<char>>, fetched: Seq<Seq<char>>)
    requires
        is_tag_list(known),
    ensures
        is_tag_list(merged(known, fetched)),
        forall|x: Seq<char>|
            merged(known, fetched).contains(x) <==> known.contains(x) || (fetched.contains(x)
                && x != no_tag()),
{
    let new_tags = newly_seen(known, fetched);
    let m = merged(known, fetched);
    lemma_newly_seen(known, fetched);
    assert forall|x: Seq<char>|
        m.contains(x) <==> known.contains(x) || (fetched.contains(x) && x != no_tag()) by {
        lemma_contains_concat(known, new_tags, x);
    }
    assert forall|i: int, j: int| 0 <= i < m.len() && 0 <= j < m.len() && i != j implies m[i]
        != m[j] by {
        if i < known.len() && j < known.len() {
            assert(known[i] != known[j]);
        } else if i >= known.len() && j >= known.len() {
            assert(new_tags[i - known.len()] != new_tags[j - known.len()]);
        } else if i < known.len() {
            assert(new_tags.contains(new_tags[j - known.len()]));
            assert(known.contains(known[i]));
        } else {
            assert(new_tags.contains(new_tags[i - known.len()]));
            assert(known.contains(known[j]));
        }
    }
}

/// Merging never loses a tag that was known.
pub proof fn lemma_merged_keeps_known(
    known: Seq<Seq<char>>,
    fetched: Seq<Seq<char>>,
    tag: Seq<char>,
)
    requires
        known.contains(tag),
    ensures
        merged(known, fetched).contains(tag),
{
    lemma_contains_concat(known, newly_seen(known, fetched), tag);
}

/// Of a tag list every tag is new to the empty list, in order.
pub proof fn lemma_newly_seen_of_tag_list(tags: Seq<Seq<char>>)
    requires
        is_tag_list(tags),
    ensures
        newly_seen(Seq::empty(), tags) == tags,
    decreases tags.len(),
{
    if tags.len() == 0 {
        assert(tags =~= Seq::empty());
    } else {
        let front = tags.drop_last();
        let tag = tags.last();
        assert(tags =~= front.push(tag));
        assert(front.no_duplicates()) by {
            assert forall|i: int, j: int|
                0 <= i < front.len() && 0 <= j < front.len() && i != j implies front[i]
                != front[j] by {
                assert(tags[i] != tags[j]);
            }
        }
        lemma_contains_push(front, tag, no_tag());
        lemma_newly_seen_of_tag_list(front);
        assert(!front.contains(tag)) by {
            if front.contains(tag) {
                let i = choose|i: int| 0 <= i < front.len() && front[i] == tag;
                assert(tags[i] == tags[tags.len() - 1]);
            }
        }
        assert(tags.contains(tag)) by {
            assert(tags[tags.len() - 1] == tag);
        }
        assert(!Seq::<Seq<char>>::empty().contains(tag));
    }
}

/// Where every fetched tag is known already, or is the text for "no tag",
/// none is new.
pub proof fn lemma_newly_seen_none(known: Seq<Seq<char>>, fetched: Seq<Seq<char>>)
    requires
        forall|i: int|
            0 <= i < fetched.len() ==> #[trigger] fetched[i] == no_tag() || known.contains(
                fetched[i],
            ),
    ensures
        newly_seen(known, fetched) == Seq::<Seq<char>>::empty(),
    decreases fetched.len(),
{
    if fetched.len() > 0 {
        let front = fetched.drop_last();
        assert forall|i: int| 0 <= i < front.len() implies #[trigger] front[i] == no_tag()
            || known.contains(front[i]) by {
            assert(front[i] == fetched[i]);
        }
        lemma_newly_seen_none(known, front);
        assert(fetched.last() == fetched[fetched.len() - 1]);
    }
}

/// What is stored for a set can be read back, merged with the same fetched
/// tags and stored again, and the stored text does not change; nor does it
/// hold a line twice. This is stated for tags that can stand on a line.
pub proof fn lemma_store_round_trip(stored: Option<Seq<char>>, fetched: Seq<Seq<char>>)
    requires
        forall|tag: Seq<char>| #[trigger]
            merged(loaded(stored), fetched).contains(tag) ==> line_safe(tag),
    ensures
        persisted(merged(loaded(Some(persisted(merged(loaded(stored), fetched)))), fetched))
            == persisted(merged(loaded(stored), fetched)),
        lines(persisted(merged(loaded(stored), fetched))).no_duplicates(),
{
    let known = loaded(stored);
    assert(is_tag_list(known)) by {
        match stored {
            Some(text) => {
                lemma_merged(Seq::empty(), lines(text));
                assert(merged(Seq::empty(), lines(text)) =~= known);
            },
            None => {},
        }
    }
    let first_set = merged(known, fetched);
    lemma_merged(known, fetched);
    let sorted = sort_tags(first_set);
    lemma_sort_tag_list(first_set);
    let first = render(sorted);
    assert forall|i: int| 0 <= i < sorted.len() implies line_safe(#[trigger] sorted[i]) by {
        assert(sorted.contains(sorted[i]));
        lemma_sort_contains(first_set, sorted[i]);
    }
    lemma_lines_of_render(sorted);
    lemma_newly_seen_of_tag_list(sorted);
    assert(loaded(Some(first)) == sorted);
    assert forall|i: int| 0 <= i < fetched.len() implies #[trigger] fetched[i] == no_tag()
        || sorted.contains(fetched[i]) by {
        assert(fetched.contains(fetched[i]));
        lemma_sort_contains(first_set, fetched[i]);
    }
    lemma_newly_seen_none(sorted, fetched);
    assert(merged(sorted, fetched) =~= sorted);
    lemma_sort_idempotent(first_set);
}

} // verus!
