//! Version tags and their order.
//!
//! A tag such as `v0.28.0rc1` is read as a dotted list of numbers, optionally
//! followed by a release-candidate number. Tags are ordered by their first
//! three numbers, and a release candidate comes before the release it leads to.

use crate::decimal::{parse_decimal, parse_unsigned};
use crate::text::{chars_of, slice_of, split, split_chars, views};
use std::cmp::Ordering;
use vstd::prelude::*;

verus! {

/// The marker that separates the version from the release-candidate number.
pub open spec fn rc_marker() -> Seq<char> {
    seq!['r', 'c']
}

/// The separator of the numbers of a version.
pub open spec fn dot() -> Seq<char> {
    seq!['.']
}

/// `tag` without one leading `v`.
pub open spec fn strip_v(tag: Seq<char>) -> Seq<char> {
    if tag.len() > 0 && tag[0] == 'v' {
        tag.subrange(1, tag.len() as int)
    } else {
        tag
    }
}

/// The number that one dotted field stands for: what it spells, or 0 where it
/// spells no number.
pub open spec fn component(field: Seq<char>) -> u32 {
    match parse_unsigned(field, u32::MAX) {
        Some(n) => n,
        None => 0,
    }
}

/// The pieces of a tag, without its leading `v`, around the release-candidate
/// marker.
pub open spec fn rc_pieces(tag: Seq<char>) -> Seq<Seq<char>> {
    split(strip_v(tag), rc_marker())
}

/// The numbers of the dotted version of `tag`: the text before the first
/// release-candidate marker, split at the dots.
pub open spec fn version_parts(tag: Seq<char>) -> Seq<u32> {
    split(rc_pieces(tag)[0], dot()).map_values(|field: Seq<char>| component(field))
}

/// The release-candidate number of `tag`: what stands between the first
/// marker and the next one (or the end), where that spells a number.
pub open spec fn version_rc(tag: Seq<char>) -> Option<u32> {
    if rc_pieces(tag).len() > 1 {
        parse_unsigned(rc_pieces(tag)[1], u32::MAX)
    } else {
        None
    }
}

/// The number at position `i` of `parts`, if there is one.
pub open spec fn part(parts: Seq<u32>, i: int) -> Option<u32> {
    if 0 <= i < parts.len() {
        Some(parts[i])
    } else {
        None
    }
}

/// The order of two numbers.
pub open spec fn number_order(a: u32, b: u32) -> Ordering {
    if a < b {
        Ordering::Less
    } else if a == b {
        Ordering::Equal
    } else {
        Ordering::Greater
    }
}

/// The order of two version numbers at one position: a missing number comes
/// before any number.
pub open spec fn part_order(a: Option<u32>, b: Option<u32>) -> Ordering {
    match (a, b) {
        (None, None) => Ordering::Equal,
        (None, Some(_)) => Ordering::Less,
        (Some(_), None) => Ordering::Greater,
        (Some(x), Some(y)) => number_order(x, y),
    }
}

/// The order of two release-candidate numbers: a release, which has none,
/// comes after each of its candidates.
pub open spec fn rc_order(a: Option<u32>, b: Option<u32>) -> Ordering {
    match (a, b) {
        (None, None) => Ordering::Equal,
        (Some(_), None) => Ordering::Less,
        (None, Some(_)) => Ordering::Greater,
        (Some(x), Some(y)) => number_order(x, y),
    }
}

/// `first`, unless it is `Equal`: then `second` decides.
pub open spec fn or_else(first: Ordering, second: Ordering) -> Ordering {
    if first == Ordering::Equal {
        second
    } else {
        first
    }
}

/// The order of two parsed versions: by the first, second and third number,
/// then by the release-candidate number. Numbers after the third do not count.
pub open spec fn parsed_order(
    pa: Seq<u32>,
    rc_a: Option<u32>,
    pb: Seq<u32>,
    rc_b: Option<u32>,
) -> Ordering {
    or_else(
        or_else(
            or_else(part_order(part(pa, 0), part(pb, 0)), part_order(part(pa, 1), part(pb, 1))),
            part_order(part(pa, 2), part(pb, 2)),
        ),
        rc_order(rc_a, rc_b),
    )
}

/// The order of two tags.
pub open spec fn version_order(a: Seq<char>, b: Seq<char>) -> Ordering {
    parsed_order(version_parts(a), version_rc(a), version_parts(b), version_rc(b))
}

/// Whether tag `a` comes before tag `b` or ranks equal to it.
pub open spec fn at_most(a: Seq<char>, b: Seq<char>) -> bool {
    version_order(a, b) != Ordering::Greater
}

/// Every tag ranks equal to itself.
pub proof fn lemma_order_reflexive(a: Seq<char>)
    ensures
        version_order(a, a) == Ordering::Equal,
{
}

/// Swapping the two tags turns `Less` into `Greater` and back, and keeps
/// `Equal`: of "`a` before `b`", "`a` equal to `b`" and "`b` before `a`"
/// exactly one holds.
pub proof fn lemma_order_total(a: Seq<char>, b: Seq<char>)
    ensures
        (version_order(a, b) == Ordering::Less) == (version_order(b, a) == Ordering::Greater),
        (version_order(a, b) == Ordering::Equal) == (version_order(b, a) == Ordering::Equal),
        (version_order(a, b) == Ordering::Greater) == (version_order(b, a) == Ordering::Less),
{
}

/// The order is transitive: where `a` is at most `b` and `b` at most `c`, `a`
/// is at most `c`; it is strictly before `c` as soon as one of the two steps
/// is strict.
pub proof fn lemma_order_transitive(a: Seq<char>, b: Seq<char>, c: Seq<char>)
    requires
        version_order(a, b) != Ordering::Greater,
        version_order(b, c) != Ordering::Greater,
    ensures
        version_order(a, c) != Ordering::Greater,
        version_order(a, c) == Ordering::Equal <==> version_order(a, b) == Ordering::Equal
            && version_order(b, c) == Ordering::Equal,
{
}

/// Of two tags, one is at most the other.
pub proof fn lemma_at_most_total(a: Seq<char>, b: Seq<char>)
    ensures
        at_most(a, b) || at_most(b, a),
{
    lemma_order_total(a, b);
}

/// Where `a` is at most `b` and `b` at most `c`, `a` is at most `c`.
pub proof fn lemma_at_most_transitive(a: Seq<char>, b: Seq<char>, c: Seq<char>)
    requires
        at_most(a, b),
        at_most(b, c),
    ensures
        at_most(a, c),
{
    lemma_order_transitive(a, b, c);
}

/// Reads a tag: the numbers of its dotted version, and its release-candidate
/// number if it has one.
pub fn parse_version(v: &str) -> (r: (Vec<u32>, Option<u32>))
    ensures
        r.0@ == version_parts(v@),
        r.1 == version_rc(v@),
        r.0@.len() >= 1,
{
    let chars = chars_of(v);
    let body = if chars.len() > 0 && chars[0] == 'v' {
        slice_of(&chars, 1, chars.len())
    } else {
        chars
    };
    let mut marker: Vec<char> = Vec::new();
    marker.push('r');
    marker.push('c');
    assert(marker@ =~= rc_marker());
    let mut separator: Vec<char> = Vec::new();
    separator.push('.');
    assert(separator@ =~= dot());
    let pieces = split_chars(&body, &marker);
    assert(views(pieces@)[0] == pieces@[0]@);
    let fields = split_chars(&pieces[0], &separator);
    let mut parts: Vec<u32> = Vec::new();
    let mut i: usize = 0;
    while i < fields.len()
        invariant
            i <= fields.len(),
            parts@ == views(fields@).take(i as int).map_values(|field: Seq<char>| component(field)),
        decreases fields.len() - i,
    {
        let n = match parse_decimal(&fields[i], u32::MAX) {
            Some(n) => n,
            None => 0,
        };
        parts.push(n);
        assert(views(fields@)[i as int] == fields@[i as int]@);
        assert(parts@ =~= views(fields@).take(i + 1).map_values(
            |field: Seq<char>| component(field),
        ));
        i += 1;
    }
    assert(views(fields@).take(i as int) =~= views(fields@));
    let rc = if pieces.len() > 1 {
        assert(views(pieces@)[1] == pieces@[1]@);
        parse_decimal(&pieces[1], u32::MAX)
    } else {
        None
    };
    (parts, rc)
}

/// The number at position `i` of `parts`, if there is one.
fn part_at(parts: &Vec<u32>, i: usize) -> (r: Option<u32>)
    ensures
        r == part(parts@, i as int),
{
    if i < parts.len() {
        Some(parts[i])
    } else {
        None
    }
}

/// Compares two numbers.
fn order_numbers(a: u32, b: u32) -> (r: Ordering)
    ensures
        r == number_order(a, b),
{
    if a < b {
        Ordering::Less
    } else if a == b {
        Ordering::Equal
    } else {
        Ordering::Greater
    }
}

/// Compares two version numbers at one position.
fn order_parts(a: Option<u32>, b: Option<u32>) -> (r: Ordering)
    ensures
        r == part_order(a, b),
{
    match (a, b) {
        (None, None) => Ordering::Equal,
        (None, Some(_)) => Ordering::Less,
        (Some(_), None) => Ordering::Greater,
        (Some(x), Some(y)) => order_numbers(x, y),
    }
}

/// Compares two release-candidate numbers.
fn order_rcs(a: Option<u32>, b: Option<u32>) -> (r: Ordering)
    ensures
        r == rc_order(a, b),
{
    match (a, b) {
        (None, None) => Ordering::Equal,
        (Some(_), None) => Ordering::Less,
        (None, Some(_)) => Ordering::Greater,
        (Some(x), Some(y)) => order_numbers(x, y),
    }
}

/// Compares two tags by version.
pub fn compare_versions(a: &str, b: &str) -> (r: Ordering)
    ensures
        r == version_order(a@, b@),
{
    let (va, rc_a) = parse_version(a);
    let (vb, rc_b) = parse_version(b);
    match order_parts(part_at(&va, 0), part_at(&vb, 0)) {
        Ordering::Equal => match order_parts(part_at(&va, 1), part_at(&vb, 1)) {
            Ordering::Equal => match order_parts(part_at(&va, 2), part_at(&vb, 2)) {
                Ordering::Equal => order_rcs(rc_a, rc_b),
                other => other,
            },
            other => other,
        },
        other => other,
    }
}

/// Whether tag `a` comes before tag `b` or ranks equal to it.
pub fn version_at_most(a: &str, b: &str) -> (r: bool)
    ensures
        r == at_most(a@, b@),
{
    match compare_versions(a, b) {
        Ordering::Greater => false,
        _ => true,
    }
}

} // verus!
