//! Sets of tags: the tags known of a repository, and the tags whose pipeline
//! is under way.

use vstd::prelude::*;

verus! {

/// The texts of a sequence of strings.
pub open spec fn texts(v: Seq<String>) -> Seq<Seq<char>> {
    v.map_values(|s: String| s@)
}

/// The texts of a sequence of optional strings.
pub open spec fn option_texts(v: Seq<Option<String>>) -> Seq<Option<Seq<char>>> {
    v.map_values(
        |s: Option<String>|
            match s {
                Some(s) => Some(s@),
                None => None,
            },
    )
}

/// The text that stands for "no tag": the empty one. No tag set holds it.
pub open spec fn no_tag() -> Seq<char> {
    Seq::empty()
}

/// Whether `tags` can be the content of a tag set: no tag twice, and nowhere
/// the text that stands for "no tag".
pub open spec fn is_tag_list(tags: Seq<Seq<char>>) -> bool {
    tags.no_duplicates() && !tags.contains(no_tag())
}

/// Where `tag` stands first in `tags`, if it stands there at all.
pub fn position(tags: &Vec<String>, tag: &String) -> (r: Option<usize>)
    ensures
        match r {
            Some(i) => i < tags.len() && tags@[i as int]@ == tag@ && forall|j: int|
                0 <= j < i ==> tags@[j]@ != tag@,
            None => !texts(tags@).contains(tag@),
        },
{
    let mut i: usize = 0;
    while i < tags.len()
        invariant
            i <= tags.len(),
            forall|j: int| 0 <= j < i ==> tags@[j]@ != tag@,
        decreases tags.len() - i,
    {
        if tags[i] == *tag {
            return Some(i);
        }
        i += 1;
    }
    assert forall|j: int| 0 <= j < texts(tags@).len() implies texts(tags@)[j] != tag@ by {
        assert(texts(tags@)[j] == tags@[j]@);
    }
    None
}

/// The tags known of one repository, in the order in which they came to be
/// known. Tags are added and never taken out.
pub struct TagSet {
    tags: Vec<String>,
}

impl View for TagSet {
    type V = Seq<Seq<char>>;

    /// The tags, first known first.
    closed spec fn view(&self) -> Seq<Seq<char>> {
        texts(self.tags@)
    }
}

impl TagSet {
    /// What holds of every tag set: no tag occurs twice, and none is the text
    /// for "no tag".
    #[verifier::type_invariant]
    pub open spec fn valid(&self) -> bool {
        is_tag_list(self@)
    }

    /// The empty set.
    pub fn new() -> (set: TagSet)
        ensures
            set@ == Seq::<Seq<char>>::empty(),
    {
        let set = TagSet { tags: Vec::new() };
        assert(texts(set.tags@) =~= Seq::<Seq<char>>::empty());
        set
    }

    /// How many tags the set holds.
    pub fn len(&self) -> (n: usize)
        ensures
            n == self@.len(),
    {
        self.tags.len()
    }

    /// Whether the set holds no tag.
    pub fn is_empty(&self) -> (r: bool)
        ensures
            r == (self@.len() == 0),
    {
        self.tags.len() == 0
    }

    /// Whether the set holds `tag`.
    pub fn contains(&self, tag: &str) -> (r: bool)
        ensures
            r == self@.contains(tag@),
    {
        let owned = tag.to_owned();
        match position(&self.tags, &owned) {
            Some(i) => {
                assert(texts(self.tags@)[i as int] == tag@);
                true
            },
            None => false,
        }
    }

    /// Adds `tag` unless the set holds it already or it is the text for "no
    /// tag"; says whether it was added.
    pub fn insert(&mut self, tag: String) -> (added: bool)
        ensures
            added == (tag@ != no_tag() && !old(self)@.contains(tag@)),
            final(self)@ == if added {
                old(self)@.push(tag@)
            } else {
                old(self)@
            },
            is_tag_list(old(self)@),
            is_tag_list(final(self)@),
    {
        proof {
            use_type_invariant(&*self);
        }
        if tag.as_str().is_empty() {
            assert(tag@ =~= no_tag());
            return false;
        }
        if let Some(i) = position(&self.tags, &tag) {
            assert(texts(self.tags@)[i as int] == tag@);
            return false;
        }
        let ghost before = texts(self.tags@);
        let mut tags: Vec<String> = Vec::new();
        assert(texts(tags@) =~= Seq::<Seq<char>>::empty());
        core::mem::swap(&mut self.tags, &mut tags);
        tags.push(tag);
        assert(texts(tags@) =~= before.push(tag@));
        core::mem::swap(&mut self.tags, &mut tags);
        true
    }

    /// The tags, first known first.
    pub fn to_vec(&self) -> (v: Vec<String>)
        ensures
            texts(v@) == self@,
            is_tag_list(self@),
    {
        proof {
            use_type_invariant(self);
        }
        let mut v: Vec<String> = Vec::new();
        let mut i: usize = 0;
        while i < self.tags.len()
            invariant
                i <= self.tags.len(),
                texts(v@) == texts(self.tags@).take(i as int),
            decreases self.tags.len() - i,
        {
            let ghost before = texts(v@);
            v.push(self.tags[i].clone());
            assert(texts(v@) =~= before.push(self.tags@[i as int]@));
            assert(texts(self.tags@).take(i + 1) =~= texts(self.tags@).take(i as int).push(
                self.tags@[i as int]@,
            ));
            i += 1;
        }
        assert(texts(self.tags@).take(i as int) =~= texts(self.tags@));
        v
    }
}

/// The tags that were built and attested without code signatures and now wait
/// for their detached signatures.
pub struct InProgressSet {
    tags: Vec<String>,
}

impl View for InProgressSet {
    type V = Set<Seq<char>>;

    closed spec fn view(&self) -> Set<Seq<char>> {
        texts(self.tags@).to_set()
    }
}

impl InProgressSet {
    /// What holds of every such set: it is finite.
    #[verifier::type_invariant]
    spec fn valid(&self) -> bool {
        texts(self.tags@).no_duplicates()
    }

    /// The empty set.
    pub fn new() -> (set: InProgressSet)
        ensures
            set@ == Set::<Seq<char>>::empty(),
    {
        let set = InProgressSet { tags: Vec::new() };
        assert(texts(set.tags@).to_set() =~= Set::<Seq<char>>::empty());
        set
    }

    /// How many tags wait.
    pub fn len(&self) -> (n: usize)
        ensures
            n == self@.len(),
            self@.finite(),
    {
        proof {
            use_type_invariant(self);
            texts(self.tags@).unique_seq_to_set();
        }
        self.tags.len()
    }

    /// Whether `tag` waits.
    pub fn contains(&self, tag: &str) -> (r: bool)
        ensures
            r == self@.contains(tag@),
    {
        let owned = tag.to_owned();
        match position(&self.tags, &owned) {
            Some(i) => {
                assert(texts(self.tags@)[i as int] == tag@);
                true
            },
            None => false,
        }
    }

    /// Adds `tag`; says whether it was not there before.
    pub fn insert(&mut self, tag: String) -> (added: bool)
        ensures
            added == !old(self)@.contains(tag@),
            final(self)@ == old(self)@.insert(tag@),
    {
        proof {
            use_type_invariant(&*self);
        }
        if let Some(i) = position(&self.tags, &tag) {
            assert(texts(self.tags@)[i as int] == tag@);
            assert(self@ =~= self@.insert(tag@));
            return false;
        }
        let ghost before = texts(self.tags@);
        let mut tags: Vec<String> = Vec::new();
        assert(texts(tags@) =~= Seq::<Seq<char>>::empty());
        core::mem::swap(&mut self.tags, &mut tags);
        tags.push(tag);
        assert(texts(tags@) =~= before.push(tag@));
        core::mem::swap(&mut self.tags, &mut tags);
        assert(texts(self.tags@).to_set() =~= before.to_set().insert(tag@)) by {
            assert forall|t: Seq<char>| before.push(tag@).contains(t) <==> before.contains(t) || t
                == tag@ by {
                if before.push(tag@).contains(t) {
                    let i = choose|i: int|
                        0 <= i < before.push(tag@).len() && before.push(tag@)[i] == t;
                    if i < before.len() {
                        assert(before[i] == t);
                    }
                }
                if before.contains(t) {
                    let i = choose|i: int| 0 <= i < before.len() && before[i] == t;
                    assert(before.push(tag@)[i] == t);
                }
                if t == tag@ {
                    assert(before.push(tag@)[before.len() as int] == t);
                }
            }
        }
        true
    }

    /// Takes `tag` out; says whether it was there.
    pub fn remove(&mut self, tag: &str) -> (removed: bool)
        ensures
            removed == old(self)@.contains(tag@),
            final(self)@ == old(self)@.remove(tag@),
    {
        proof {
            use_type_invariant(&*self);
        }
        let owned = tag.to_owned();
        match position(&self.tags, &owned) {
            None => {
                assert(self@ =~= self@.remove(tag@));
                false
            },
            Some(i) => {
                let ghost before = texts(self.tags@);
                assert(before[i as int] == tag@);
                let mut tags: Vec<String> = Vec::new();
                assert(texts(tags@) =~= Seq::<Seq<char>>::empty());
                core::mem::swap(&mut self.tags, &mut tags);
                tags.remove(i);
                let ghost after = texts(tags@);
                assert(after =~= before.remove(i as int));
                assert forall|t: Seq<char>| after.contains(t) <==> before.contains(t) && t
                    != tag@ by {
                    if after.contains(t) {
                        let j = choose|j: int| 0 <= j < after.len() && after[j] == t;
                        if j < i {
                            assert(before[j] == t);
                        } else {
                            assert(before[j + 1] == t);
                        }
                    }
                    if before.contains(t) && t != tag@ {
                        let j = choose|j: int| 0 <= j < before.len() && before[j] == t;
                        if j < i {
                            assert(after[j] == t);
                        } else {
                            assert(after[j - 1] == t);
                        }
                    }
                }
                assert(after.to_set() =~= before.to_set().remove(tag@));
                core::mem::swap(&mut self.tags, &mut tags);
                true
            },
        }
    }

    /// The tags that wait, in the order in which they were added.
    pub fn to_vec(&self) -> (v: Vec<String>)
        ensures
            texts(v@).to_set() == self@,
            texts(v@).no_duplicates(),
    {
        proof {
            use_type_invariant(self);
        }
        let mut v: Vec<String> = Vec::new();
        let mut i: usize = 0;
        while i < self.tags.len()
            invariant
                i <= self.tags.len(),
                texts(v@) == texts(self.tags@).take(i as int),
            decreases self.tags.len() - i,
        {
            let ghost before = texts(v@);
            v.push(self.tags[i].clone());
            assert(texts(v@) =~= before.push(self.tags@[i as int]@));
            assert(texts(self.tags@).take(i + 1) =~= texts(self.tags@).take(i as int).push(
                self.tags@[i as int]@,
            ));
            i += 1;
        }
        assert(texts(self.tags@).take(i as int) =~= texts(self.tags@));
        v
    }
}

} // verus!
