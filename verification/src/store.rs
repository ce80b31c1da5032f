//! The stored form of a tag set: one tag per line, in ascending order of
//! version. Reading it back, merging freshly fetched tags into a set, and
//! writing the set out again.

use crate::store_proofs::{lemma_newly_seen, lemma_sort_ascending, lemma_sort_permutes};
use crate::tagset::{is_tag_list, no_tag, texts, TagSet};
use crate::text::{chars_of, split, split_chars, string_of, views};
use crate::version::{at_most, version_at_most};
use vstd::prelude::*;

verus! {

/// The line terminator.
pub open spec fn newline() -> Seq<char> {
    seq!['\n']
}

/// `line` without one carriage return at its end.
pub open spec fn strip_cr(line: Seq<char>) -> Seq<char> {
    if line.len() > 0 && line.last() == '\r' {
        line.drop_last()
    } else {
        line
    }
}

/// The lines of `text`. A line ends at a line feed; the line feed, and a
/// carriage return just before it, are no part of the line. What follows the
/// last line feed is a line too, unless it is empty.
pub open spec fn lines(text: Seq<char>) -> Seq<Seq<char>> {
    let pieces = split(text, newline());
    let ended = pieces.drop_last().map_values(|piece: Seq<char>| strip_cr(piece));
    if pieces.last().len() == 0 {
        ended
    } else {
        ended.push(pieces.last())
    }
}

/// The text with each of `tags` on a line of its own.
pub open spec fn render(tags: Seq<Seq<char>>) -> Seq<char>
    decreases tags.len(),
{
    if tags.len() == 0 {
        Seq::empty()
    } else {
        render(tags.drop_last()) + tags.last() + newline()
    }
}

/// `sorted` with `tag` put in behind the last tag that is at most `tag`.
pub open spec fn insert_sorted(sorted: Seq<Seq<char>>, tag: Seq<char>) -> Seq<Seq<char>>
    decreases sorted.len(),
{
    if sorted.len() == 0 {
        seq![tag]
    } else if at_most(sorted.last(), tag) {
        sorted.push(tag)
    } else {
        insert_sorted(sorted.drop_last(), tag).push(sorted.last())
    }
}

/// `tags` in ascending order of version; tags of equal rank keep the order
/// that they have in `tags`.
pub open spec fn sort_tags(tags: Seq<Seq<char>>) -> Seq<Seq<char>>
    decreases tags.len(),
{
    if tags.len() == 0 {
        Seq::empty()
    } else {
        insert_sorted(sort_tags(tags.drop_last()), tags.last())
    }
}

/// Whether `tags` ascends by version.
pub open spec fn ascending(tags: Seq<Seq<char>>) -> bool {
    forall|i: int, j: int| 0 <= i < j < tags.len() ==> at_most(tags[i], tags[j])
}

/// The tags of `fetched` that are new to `known`, in the order of `fetched`:
/// each tag that `known` does not hold, that did not come earlier in
/// `fetched`, and that is not the text for "no tag".
pub open spec fn newly_seen(known: Seq<Seq<char>>, fetched: Seq<Seq<char>>) -> Seq<Seq<char>>
    decreases fetched.len(),
{
    if fetched.len() == 0 {
        Seq::empty()
    } else {
        let earlier = newly_seen(known, fetched.drop_last());
        let tag = fetched.last();
        if tag == no_tag() || known.contains(tag) || earlier.contains(tag) {
            earlier
        } else {
            earlier.push(tag)
        }
    }
}

/// `known` with the new tags of `fetched` behind it.
pub open spec fn merged(known: Seq<Seq<char>>, fetched: Seq<Seq<char>>) -> Seq<Seq<char>> {
    known + newly_seen(known, fetched)
}

/// The tag set that the stored text `stored` stands for: its lines, each
/// taken once. Storage that is absent or unreadable stands for the empty set.
pub open spec fn loaded(stored: Option<Seq<char>>) -> Seq<Seq<char>> {
    match stored {
        Some(text) => newly_seen(Seq::empty(), lines(text)),
        None => Seq::empty(),
    }
}

/// The text that is stored for the tag set `tags`.
pub open spec fn persisted(tags: Seq<Seq<char>>) -> Seq<char> {
    render(sort_tags(tags))
}

/// The lines of `text`.
pub fn lines_of(text: &str) -> (r: Vec<String>)
    ensures
        texts(r@) == lines(text@),
{
    let chars = chars_of(text);
    let mut separator: Vec<char> = Vec::new();
    separator.push('\n');
    assert(separator@ =~= newline());
    let pieces = split_chars(&chars, &separator);
    let ghost all = views(pieces@);
    let ghost ended = all.drop_last().map_values(|piece: Seq<char>| strip_cr(piece));
    let mut r: Vec<String> = Vec::new();
    let last: usize = pieces.len() - 1;
    let mut i: usize = 0;
    while i < last
        invariant
            i <= last,
            last == pieces.len() - 1,
            all == views(pieces@),
            ended == all.drop_last().map_values(|piece: Seq<char>| strip_cr(piece)),
            texts(r@) == ended.take(i as int),
        decreases last - i,
    {
        let piece = &pieces[i];
        let n = piece.len();
        let end: usize = if n > 0 && piece[n - 1] == '\r' {
            n - 1
        } else {
            n
        };
        let line = string_of(piece, 0, end);
        assert(all[i as int] == piece@);
        assert(line@ =~= strip_cr(piece@));
        let ghost before = texts(r@);
        r.push(line);
        assert(texts(r@) =~= before.push(line@));
        assert(ended.take(i + 1) =~= ended.take(i as int).push(ended[i as int]));
        i += 1;
    }
    assert(ended.take(i as int) =~= ended);
    assert(all[last as int] == pieces@[last as int]@);
    if pieces[last].len() > 0 {
        let line = string_of(&pieces[last], 0, pieces[last].len());
        assert(line@ =~= pieces@[last as int]@);
        let ghost before = texts(r@);
        r.push(line);
        assert(texts(r@) =~= before.push(line@));
    }
    r
}

/// `tags` in ascending order of version; tags of equal rank keep their order.
pub fn sort_by_version(tags: &Vec<String>) -> (sorted: Vec<String>)
    ensures
        texts(sorted@) == sort_tags(texts(tags@)),
        ascending(texts(sorted@)),
        texts(sorted@).to_multiset() == texts(tags@).to_multiset(),
{
    let mut sorted: Vec<String> = Vec::new();
    let mut i: usize = 0;
    assert(texts(tags@).take(0) =~= Seq::<Seq<char>>::empty());
    assert(texts(sorted@) =~= Seq::<Seq<char>>::empty());
    while i < tags.len()
        invariant
            i <= tags.len(),
            sorted.len() == i,
            texts(sorted@) == sort_tags(texts(tags@).take(i as int)),
        decreases tags.len() - i,
    {
        let tag = tags[i].clone();
        let ghost done = texts(sorted@);
        let mut p: usize = sorted.len();
        assert(done.take(p as int) =~= done);
        assert(done.skip(p as int) =~= Seq::<Seq<char>>::empty());
        while p > 0 && !version_at_most(sorted[p - 1].as_str(), tag.as_str())
            invariant
                p <= sorted.len(),
                done == texts(sorted@),
                insert_sorted(done, tag@) == insert_sorted(done.take(p as int), tag@) + done.skip(
                    p as int,
                ),
            decreases p,
        {
            assert(done.take(p as int).last() == sorted@[p - 1]@);
            assert(done.take(p as int).drop_last() =~= done.take(p - 1));
            assert(insert_sorted(done.take(p - 1), tag@).push(done[p - 1]) + done.skip(p as int)
                =~= insert_sorted(done.take(p - 1), tag@) + done.skip(p - 1));
            p -= 1;
        }
        proof {
            if p > 0 {
                assert(done.take(p as int).last() == sorted@[p - 1]@);
            }
            assert(insert_sorted(done.take(p as int), tag@) =~= done.take(p as int).push(tag@));
        }
        sorted.insert(p, tag);
        assert(texts(sorted@) =~= done.take(p as int).push(tag@) + done.skip(p as int));
        assert(texts(tags@).take(i + 1).drop_last() =~= texts(tags@).take(i as int));
        i += 1;
    }
    assert(texts(tags@).take(i as int) =~= texts(tags@));
    proof {
        lemma_sort_ascending(texts(tags@));
        lemma_sort_permutes(texts(tags@));
    }
    sorted
}

impl TagSet {
    /// Merges freshly fetched tags into the set and returns the ones that are
    /// new, in the order in which they were fetched. No tag leaves the set.
    pub fn diff_and_merge(&mut self, fetched: &Vec<String>) -> (new_tags: Vec<String>)
        ensures
            texts(new_tags@) == newly_seen(old(self)@, texts(fetched@)),
            final(self)@ == merged(old(self)@, texts(fetched@)),
            forall|tag: Seq<char>| old(self)@.contains(tag) ==> final(self)@.contains(tag),
            forall|tag: Seq<char>|
                texts(new_tags@).contains(tag) <==> texts(fetched@).contains(tag) && tag
                    != no_tag() && !old(self)@.contains(tag),
            texts(new_tags@).no_duplicates(),
            is_tag_list(final(self)@),
    {
        let ghost known = self@;
        let ghost all = texts(fetched@);
        let mut new_tags: Vec<String> = Vec::new();
        let mut i: usize = 0;
        assert(all.take(0) =~= Seq::<Seq<char>>::empty());
        assert(texts(new_tags@) =~= Seq::<Seq<char>>::empty());
        assert(self@ =~= known + Seq::<Seq<char>>::empty());
        proof {
            use_type_invariant(&*self);
        }
        while i < fetched.len()
            invariant
                i <= fetched.len(),
                all == texts(fetched@),
                texts(new_tags@) == newly_seen(known, all.take(i as int)),
                self@ == known + texts(new_tags@),
                is_tag_list(self@),
            decreases fetched.len() - i,
        {
            let ghost earlier = texts(new_tags@);
            let tag = fetched[i].clone();
            assert(all.take(i + 1).drop_last() =~= all.take(i as int));
            assert(all.take(i + 1).last() == tag@);
            proof {
                lemma_contains_concat(known, earlier, tag@);
            }
            if self.insert(tag) {
                new_tags.push(fetched[i].clone());
                assert(texts(new_tags@) =~= earlier.push(fetched@[i as int]@));
                assert(self@ =~= known + texts(new_tags@));
            }
            i += 1;
        }
        assert(all.take(i as int) =~= all);
        assert forall|tag: Seq<char>| known.contains(tag) implies self@.contains(tag) by {
            lemma_contains_concat(known, texts(new_tags@), tag);
        }
        proof {
            lemma_newly_seen(known, all);
        }
        new_tags
    }
}

/// The text of an optional string.
pub open spec fn text_of(stored: Option<&str>) -> Option<Seq<char>> {
    match stored {
        Some(text) => Some(text@),
        None => None,
    }
}

impl TagSet {
    /// The tag set that storage holds: one tag per line of `stored`. Storage
    /// that is absent or cannot be read is passed as `None` and gives the
    /// empty set.
    pub fn load(stored: Option<&str>) -> (set: TagSet)
        ensures
            set@ == loaded(text_of(stored)),
    {
        let mut set = TagSet::new();
        match stored {
            Some(text) => {
                let all = lines_of(text);
                let _ = set.diff_and_merge(&all);
                assert(set@ =~= newly_seen(Seq::empty(), lines(text@)));
            },
            None => {},
        }
        set
    }

    /// The tags in ascending order of version.
    pub fn sorted(&self) -> (tags: Vec<String>)
        ensures
            texts(tags@) == sort_tags(self@),
            ascending(texts(tags@)),
            texts(tags@).to_multiset() == self@.to_multiset(),
    {
        sort_by_version(&self.to_vec())
    }

    /// The text to store for this set, which replaces what storage held
    /// before: every tag on a line of its own, in ascending order of version.
    pub fn persist(&self) -> (text: String)
        ensures
            text@ == persisted(self@),
    {
        let sorted = self.sorted();
        let ghost all = texts(sorted@);
        let mut text = String::new();
        let mut i: usize = 0;
        assert(all.take(0) =~= Seq::<Seq<char>>::empty());
        while i < sorted.len()
            invariant
                i <= sorted.len(),
                all == texts(sorted@),
                text@ == render(all.take(i as int)),
            decreases sorted.len() - i,
        {
            proof {
                reveal_strlit("\n");
                assert(all.take(i + 1).drop_last() =~= all.take(i as int));
                assert(all.take(i + 1).last() == sorted@[i as int]@);
                assert("\n"@ =~= newline());
            }
            text.append(sorted[i].as_str());
            text.append("\n");
            i += 1;
        }
        assert(all.take(i as int) =~= all);
        text
    }
}

/// A tag is in `a + b` exactly if it is in `a` or in `b`.
pub proof fn lemma_contains_concat(a: Seq<Seq<char>>, b: Seq<Seq<char>>, tag: Seq<char>)
    ensures
        (a + b).contains(tag) <==> a.contains(tag) || b.contains(tag),
{
    if (a + b).contains(tag) {
        let i = choose|i: int| 0 <= i < (a + b).len() && (a + b)[i] == tag;
        if i < a.len() {
            assert(a[i] == tag);
        } else {
            assert(b[i - a.len()] == tag);
        }
    }
    if a.contains(tag) {
        let i = choose|i: int| 0 <= i < a.len() && a[i] == tag;
        assert((a + b)[i] == tag);
    }
    if b.contains(tag) {
        let i = choose|i: int| 0 <= i < b.len() && b[i] == tag;
        assert((a + b)[a.len() + i] == tag);
    }
}

} // verus!
