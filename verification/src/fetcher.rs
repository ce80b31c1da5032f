//! The tags that a repository lists: reading them out of the response of the
//! hosting service, and finding the ones that are new.

use crate::store::{loaded, merged, newly_seen, persisted, text_of};
use crate::tagset::{option_texts, texts, TagSet};
use crate::text::{chars_of, has_prefix, occurs_at, string_of};
use vstd::prelude::*;

verus! {

/// `serde_json::Error`: why a text could not be read as JSON. It is passed
/// on as it comes; nothing is said of what it holds.
#[verifier::external_type_specification]
#[verifier::external_body]
pub struct ExJsonError(serde_json::Error);

/// Why the tags of a repository could not be read out of a response.
#[derive(Debug)]
pub enum FetchError {
    /// The response is not the JSON text of an array.
    Malformed(serde_json::Error),
    /// The entry at this position of the array has no member `ref` that is a
    /// string.
    MissingRef(usize),
}

/// What a repository is known to hold once its tags were fetched for the
/// first time in a run.
pub struct KnownTags {
    /// Every tag known of the repository.
    pub tags: TagSet,
    /// The tags that storage did not hold yet, in the order of the response.
    pub new_tags: Vec<String>,
    /// The text to store for the repository.
    pub file: String,
}

/// What `serde_json` reads out of `body`: where `body` is the JSON text of an
/// array, for each entry the string under its member `ref`, if the entry is
/// an object that has such a member and the member is a string; `None` where
/// `body` is not the JSON text of an array.
pub uninterp spec fn ref_members(body: Seq<u8>) -> Option<Seq<Option<Seq<char>>>>;

/// `serde_json::from_slice`, on `body`, for a vector of `serde_json::Value`,
/// and then of each value `Value::get` with `"ref"` and `Value::as_str`. The
/// result is what `ref_members` names; the error is the one of `from_slice`.
#[verifier::external_body]
fn read_ref_members(body: &[u8]) -> (r: Result<Vec<Option<String>>, serde_json::Error>)
    ensures
        match r {
            Ok(refs) => ref_members(body@) == Some(option_texts(refs@)),
            Err(_) => ref_members(body@) is None,
        },
{
    let values: Vec<serde_json::Value> = serde_json::from_slice(body)?;
    Ok(values.iter().map(|v| v.get("ref").and_then(|r| r.as_str()).map(|s| s.to_owned())).collect())
}

/// What a ref starts with when it names a tag.
pub open spec fn ref_prefix() -> Seq<char> {
    seq!['r', 'e', 'f', 's', '/', 't', 'a', 'g', 's', '/']
}

/// `s` without every `prefix` at its beginning, one after the other.
pub open spec fn strip_all(s: Seq<char>, prefix: Seq<char>) -> Seq<char>
    decreases s.len(),
{
    if prefix.len() > 0 && has_prefix(s, prefix) {
        strip_all(s.subrange(prefix.len() as int, s.len() as int), prefix)
    } else {
        s
    }
}

/// The name of the tag that the ref `reference` stands for.
pub open spec fn tag_name(reference: Seq<char>) -> Seq<char> {
    strip_all(reference, ref_prefix())
}

/// Whether every entry has a ref.
pub open spec fn all_named(refs: Seq<Option<Seq<char>>>) -> bool {
    forall|i: int| 0 <= i < refs.len() ==> (#[trigger] refs[i]) is Some
}

/// The tag names of entries that all have a ref.
pub open spec fn names_of(refs: Seq<Option<Seq<char>>>) -> Seq<Seq<char>> {
    refs.map_values(|r: Option<Seq<char>>| tag_name(r.unwrap()))
}

/// The tag names of the entries that have a ref, in order.
pub open spec fn present_names(refs: Seq<Option<Seq<char>>>) -> Seq<Seq<char>>
    decreases refs.len(),
{
    if refs.len() == 0 {
        Seq::empty()
    } else {
        match refs.last() {
            Some(r) => present_names(refs.drop_last()).push(tag_name(r)),
            None => present_names(refs.drop_last()),
        }
    }
}

/// The tags that the response `body` lists, where it is an array whose
/// entries all have a ref.
pub open spec fn listed(body: Seq<u8>) -> Option<Seq<Seq<char>>> {
    match ref_members(body) {
        Some(refs) if all_named(refs) => Some(names_of(refs)),
        _ => None,
    }
}

/// The name of the tag that the ref `reference` stands for: `reference`
/// without `refs/tags/` at its beginning, however often it stands there.
pub fn tag_name_of(reference: &str) -> (name: String)
    ensures
        name@ == tag_name(reference@),
{
    let chars = chars_of(reference);
    let prefix = chars_of("refs/tags/");
    proof {
        reveal_strlit("refs/tags/");
        assert(prefix@ =~= ref_prefix());
    }
    let mut pos: usize = 0;
    assert(chars@.subrange(0, chars.len() as int) =~= chars@);
    while occurs_at(&chars, &prefix, pos)
        invariant
            pos <= chars.len(),
            prefix@ == ref_prefix(),
            tag_name(reference@) == strip_all(
                chars@.subrange(pos as int, chars.len() as int),
                prefix@,
            ),
        decreases chars.len() - pos,
    {
        let ghost rest = chars@.subrange(pos as int, chars.len() as int);
        assert(rest.subrange(0, prefix.len() as int) =~= chars@.subrange(
            pos as int,
            pos + prefix.len(),
        ));
        assert(rest.subrange(prefix.len() as int, rest.len() as int) =~= chars@.subrange(
            pos + prefix.len(),
            chars.len() as int,
        ));
        pos += prefix.len();
    }
    proof {
        let rest = chars@.subrange(pos as int, chars.len() as int);
        if pos + prefix.len() <= chars.len() {
            assert(rest.subrange(0, prefix.len() as int) =~= chars@.subrange(
                pos as int,
                pos + prefix.len(),
            ));
        }
        assert(!has_prefix(rest, prefix@));
    }
    string_of(&chars, pos, chars.len())
}

/// The tag names of `refs`, where every entry has a ref; otherwise the
/// position of the first entry that has none.
pub fn tag_names(refs: &Vec<Option<String>>) -> (r: Result<Vec<String>, FetchError>)
    ensures
        match r {
            Ok(names) => all_named(option_texts(refs@)) && texts(names@) == names_of(
                option_texts(refs@),
            ),
            Err(FetchError::MissingRef(i)) => i < refs.len() && refs@[i as int] is None
                && forall|j: int| 0 <= j < i ==> (#[trigger] refs@[j]) is Some,
            Err(FetchError::Malformed(_)) => false,
        },
        r is Ok <==> all_named(option_texts(refs@)),
{
    let ghost all = option_texts(refs@);
    let mut names: Vec<String> = Vec::new();
    let mut i: usize = 0;
    assert(texts(names@) =~= names_of(all.take(0)));
    while i < refs.len()
        invariant
            i <= refs.len(),
            all == option_texts(refs@),
            all_named(all.take(i as int)),
            texts(names@) == names_of(all.take(i as int)),
        decreases refs.len() - i,
    {
        match &refs[i] {
            Some(reference) => {
                let ghost before = texts(names@);
                names.push(tag_name_of(reference.as_str()));
                assert(all[i as int] == Some(reference@));
                assert(texts(names@) =~= before.push(tag_name(reference@)));
                assert(names_of(all.take(i + 1)) =~= names_of(all.take(i as int)).push(
                    tag_name(reference@),
                ));
                assert forall|j: int| 0 <= j < all.take(i + 1).len() implies (
                #[trigger] all.take(i + 1)[j]) is Some by {
                    if j < i {
                        assert(all.take(i as int)[j] is Some);
                    }
                }
            },
            None => {
                assert(all[i as int] is None);
                assert forall|j: int| 0 <= j < i implies (#[trigger] refs@[j]) is Some by {
                    assert(all.take(i as int)[j] is Some);
                }
                return Err(FetchError::MissingRef(i));
            },
        }
        i += 1;
    }
    assert(all.take(i as int) =~= all);
    Ok(names)
}

/// The tag names of the entries of `refs` that have a ref, in order.
pub fn present_tag_names(refs: &Vec<Option<String>>) -> (names: Vec<String>)
    ensures
        texts(names@) == present_names(option_texts(refs@)),
{
    let ghost all = option_texts(refs@);
    let mut names: Vec<String> = Vec::new();
    let mut i: usize = 0;
    assert(all.take(0) =~= Seq::<Option<Seq<char>>>::empty());
    assert(texts(names@) =~= Seq::<Seq<char>>::empty());
    while i < refs.len()
        invariant
            i <= refs.len(),
            all == option_texts(refs@),
            texts(names@) == present_names(all.take(i as int)),
        decreases refs.len() - i,
    {
        assert(all.take(i + 1).drop_last() =~= all.take(i as int));
        assert(all.take(i + 1).last() == all[i as int]);
        match &refs[i] {
            Some(reference) => {
                let ghost before = texts(names@);
                names.push(tag_name_of(reference.as_str()));
                assert(all[i as int] == Some(reference@));
                assert(texts(names@) =~= before.push(tag_name(reference@)));
            },
            None => {
                assert(all[i as int] is None);
            },
        }
        i += 1;
    }
    assert(all.take(i as int) =~= all);
    names
}

/// The tags that the response `body` lists, in its order. The response must
/// be the JSON text of an array whose entries each have a ref.
pub fn list_tags(body: &[u8]) -> (r: Result<Vec<String>, FetchError>)
    ensures
        match r {
            Ok(tags) => listed(body@) == Some(texts(tags@)),
            Err(FetchError::Malformed(_)) => ref_members(body@) is None,
            Err(FetchError::MissingRef(i)) => ref_members(body@) matches Some(refs) && i
                < refs.len() && refs[i as int] is None && forall|j: int|
                0 <= j < i ==> (#[trigger] refs[j]) is Some,
        },
        r is Ok <==> listed(body@) is Some,
{
    match read_ref_members(body) {
        Err(e) => Err(FetchError::Malformed(e)),
        Ok(refs) => {
            let r = tag_names(&refs);
            proof {
                let all = option_texts(refs@);
                if let Err(FetchError::MissingRef(i)) = r {
                    assert(all[i as int] is None);
                    assert forall|j: int| 0 <= j < i implies (#[trigger] all[j]) is Some by {
                        assert(refs@[j] is Some);
                    }
                }
            }
            r
        },
    }
}

/// Fetches the tags that `body` lists into `seen_tags` and returns the new
/// ones, in the order of the response. Where the response cannot be read,
/// `seen_tags` stays as it is.
pub fn check_for_new_tags(seen_tags: &mut TagSet, body: &[u8]) -> (r: Result<
    Vec<String>,
    FetchError,
>)
    ensures
        match r {
            Ok(new_tags) => listed(body@) matches Some(tags) && texts(new_tags@) == newly_seen(
                old(seen_tags)@,
                tags,
            ) && final(seen_tags)@ == merged(old(seen_tags)@, tags),
            Err(_) => listed(body@) is None && final(seen_tags)@ == old(seen_tags)@,
        },
{
    match list_tags(body) {
        Ok(tags) => Ok(seen_tags.diff_and_merge(&tags)),
        Err(e) => Err(e),
    }
}

/// What is known of a repository at the start of a run: the tags that
/// storage holds, with the tags that the response `body` lists merged in.
/// Entries of the response without a ref are passed over.
pub fn fetch_all_tags(stored: Option<&str>, body: &[u8]) -> (r: Result<KnownTags, FetchError>)
    ensures
        match r {
            Ok(known) => ref_members(body@) matches Some(refs) && known.tags@ == merged(
                loaded(text_of(stored)),
                present_names(refs),
            ) && texts(known.new_tags@) == newly_seen(
                loaded(text_of(stored)),
                present_names(refs),
            ) && known.file@ == persisted(known.tags@),
            Err(FetchError::Malformed(_)) => ref_members(body@) is None,
            Err(FetchError::MissingRef(_)) => false,
        },
{
    let mut tags = TagSet::load(stored);
    match read_ref_members(body) {
        Err(e) => Err(FetchError::Malformed(e)),
        Ok(refs) => {
            let fetched = present_tag_names(&refs);
            let new_tags = tags.diff_and_merge(&fetched);
            let file = tags.persist();
            Ok(KnownTags { tags, new_tags, file })
        },
    }
}

} // verus!
