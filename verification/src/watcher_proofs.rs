//! What holds of the coordinator in every state.

use crate::builder::BuildAction;
use crate::store::{lemma_contains_concat, merged, newly_seen};
use crate::store_proofs::{lemma_merged, lemma_newly_seen};
use crate::tagset::is_tag_list;
use crate::watcher::{
    fetched, finish, in_queue, initial, next, sigs_at, source_at, stage_finished, ActionView,
    EventView, Phase, Repo, State,
};
use vstd::prelude::*;

verus! {

/// Whether every tag of `queue` is one of `known`.
pub open spec fn all_known(queue: Seq<Seq<char>>, known: Seq<Seq<char>>) -> bool {
    forall|j: int| 0 <= j < queue.len() ==> known.contains(#[trigger] queue[j])
}

/// What holds of every state that the coordinator reaches. The known tags of
/// each repository form a tag list. The queue holds no tag twice and no more
/// tags than a vector can hold, and each of its tags is known of the
/// repository whose cycle is under way. The tag that
/// a stage runs for is in progress; the tag that a warning is given about is
/// not. Between cycles the queue is empty.
pub open spec fn well_formed(s: State) -> bool {
    &&& is_tag_list(s.source_tags)
    &&& is_tag_list(s.sigs_tags)
    &&& s.in_progress.finite()
    &&& s.queue.no_duplicates()
    &&& s.queue.len() <= usize::MAX
    &&& in_queue(s.phase, s.queue.len())
    &&& match s.phase {
        Phase::Building(i) => s.in_progress.contains(s.queue[i as int]) && all_known(
            s.queue,
            s.source_tags,
        ),
        Phase::Attesting(i) => s.in_progress.contains(s.queue[i as int]) && all_known(
            s.queue,
            s.source_tags,
        ),
        Phase::Codesigning(i) => s.in_progress.contains(s.queue[i as int]) && all_known(
            s.queue,
            s.sigs_tags,
        ),
        Phase::Warning(i) => !s.in_progress.contains(s.queue[i as int]) && all_known(
            s.queue,
            s.sigs_tags,
        ),
        Phase::Persisting(Repo::Source) => all_known(s.queue, s.source_tags),
        Phase::Persisting(Repo::DetachedSigs) => all_known(s.queue, s.sigs_tags),
        Phase::Idle => s.queue.len() == 0,
        Phase::Fetching(_) => s.queue.len() == 0,
        Phase::Stopped => s.queue.len() == 0,
    }
}

/// How far a cycle has come: twice the position in the queue, and one more
/// once the build at that position is done; past every position when the
/// tags are being stored.
pub open spec fn progress(s: State) -> int {
    match s.phase {
        Phase::Building(i) => 2 * i,
        Phase::Attesting(i) => 2 * i + 1,
        Phase::Codesigning(i) => 2 * i,
        Phase::Warning(i) => 2 * i,
        Phase::Persisting(_) => 2 * (s.queue.len() as int),
        _ => -1,
    }
}

/// The coordinator starts in a well-formed state.
pub proof fn lemma_initial_well_formed(source_tags: Seq<Seq<char>>, sigs_tags: Seq<Seq<char>>)
    requires
        is_tag_list(source_tags),
        is_tag_list(sigs_tags),
    ensures
        well_formed(initial(source_tags, sigs_tags)),
{
}

/// The new tags among `fetched` are no more than `fetched` holds.
pub proof fn lemma_newly_seen_len(known: Seq<Seq<char>>, fetched: Seq<Seq<char>>)
    ensures
        newly_seen(known, fetched).len() <= fetched.len(),
    decreases fetched.len(),
{
    if fetched.len() > 0 {
        lemma_newly_seen_len(known, fetched.drop_last());
    }
}

/// The queue of a cycle that has just fetched holds no tag twice, and each
/// of its tags is known from then on.
proof fn lemma_queue(known: Seq<Seq<char>>, tags: Seq<Seq<char>>)
    requires
        is_tag_list(known),
    ensures
        is_tag_list(merged(known, tags)),
        newly_seen(known, tags).no_duplicates(),
        newly_seen(known, tags).len() <= tags.len(),
        all_known(newly_seen(known, tags), merged(known, tags)),
{
    lemma_merged(known, tags);
    lemma_newly_seen(known, tags);
    lemma_newly_seen_len(known, tags);
    let queue = newly_seen(known, tags);
    assert forall|j: int| 0 <= j < queue.len() implies merged(known, tags).contains(
        #[trigger] queue[j],
    ) by {
        assert(queue.contains(queue[j]));
        lemma_contains_concat(known, queue, queue[j]);
    }
}

/// What holds of a state whatever its phase.
spec fn sound(s: State) -> bool {
    &&& is_tag_list(s.source_tags)
    &&& is_tag_list(s.sigs_tags)
    &&& s.in_progress.finite()
    &&& s.queue.no_duplicates()
    &&& s.queue.len() <= usize::MAX
}

/// The end of a cycle leaves a well-formed state.
proof fn lemma_finish_well_formed(s: State)
    requires
        sound(s),
    ensures
        well_formed(finish(s).0),
{
    assert(Seq::<Seq<char>>::empty().no_duplicates());
}

/// Going on with the source cycle leaves a well-formed state.
proof fn lemma_source_at_well_formed(s: State, i: int)
    requires
        sound(s),
        all_known(s.queue, s.source_tags),
        0 <= i <= s.queue.len(),
    ensures
        well_formed(source_at(s, i).0),
{
}

/// Going on with the cycle of the detached signatures leaves a well-formed
/// state.
proof fn lemma_sigs_at_well_formed(s: State, i: int)
    requires
        sound(s),
        all_known(s.queue, s.sigs_tags),
        0 <= i <= s.queue.len(),
    ensures
        well_formed(sigs_at(s, i).0),
{
}

/// Every event leads from a well-formed state to a well-formed state.
pub proof fn lemma_next_well_formed(s: State, e: EventView)
    requires
        well_formed(s),
        e matches EventView::Fetched(tags) ==> tags.len() <= usize::MAX,
    ensures
        well_formed(next(s, e).0),
{
    assert(sound(s));
    match e {
        EventView::Interrupt => {},
        EventView::Terminate => {},
        EventView::TimerElapsed(_) => {},
        EventView::FetchFailed => {
            if s.phase is Fetching {
                lemma_finish_well_formed(s);
            }
        },
        EventView::Fetched(tags) => {
            match s.phase {
                Phase::Fetching(Repo::Source) => {
                    lemma_queue(s.source_tags, tags);
                    lemma_source_at_well_formed(
                        State {
                            source_tags: merged(s.source_tags, tags),
                            queue: newly_seen(s.source_tags, tags),
                            ..s
                        },
                        0,
                    );
                },
                Phase::Fetching(Repo::DetachedSigs) => {
                    lemma_queue(s.sigs_tags, tags);
                    lemma_sigs_at_well_formed(
                        State {
                            sigs_tags: merged(s.sigs_tags, tags),
                            queue: newly_seen(s.sigs_tags, tags),
                            ..s
                        },
                        0,
                    );
                },
                _ => {},
            }
        },
        EventView::StageFinished(ok) => {
            match s.phase {
                Phase::Building(i) => {
                    if !ok {
                        lemma_source_at_well_formed(s, i + 1);
                    }
                },
                Phase::Attesting(i) => {
                    lemma_source_at_well_formed(s, i + 1);
                },
                Phase::Codesigning(i) => {
                    if ok {
                        lemma_sigs_at_well_formed(
                            State { in_progress: s.in_progress.remove(s.queue[i as int]), ..s },
                            i + 1,
                        );
                    } else {
                        lemma_sigs_at_well_formed(s, i + 1);
                    }
                },
                _ => {},
            }
        },
        EventView::Done => {
            match s.phase {
                Phase::Warning(i) => {
                    lemma_sigs_at_well_formed(s, i + 1);
                },
                Phase::Persisting(_) => {
                    lemma_finish_well_formed(s);
                },
                _ => {},
            }
        },
    }
}

/// A cycle only moves forward: an event that asks for a stage or a warning
/// leaves the coordinator further on in the queue than it was, so that no
/// position of the queue is worked on twice.
pub proof fn lemma_cycle_moves_forward(s: State, e: EventView)
    requires
        s.queue.len() <= usize::MAX,
        e matches EventView::Fetched(tags) ==> tags.len() <= usize::MAX,
        next(s, e).1 is Run || next(s, e).1 is Warn,
    ensures
        progress(next(s, e).0) > progress(s),
        next(s, e).0.queue == s.queue || s.phase is Fetching,
{
    if let EventView::Fetched(tags) = e {
        lemma_newly_seen_len(s.source_tags, tags);
        lemma_newly_seen_len(s.sigs_tags, tags);
    }
}

/// A code-signed attestation is asked for only of a tag that is in progress,
/// and a warning is given only about a tag that is not; a warning leaves the
/// tags in progress as they are.
pub proof fn lemma_codesign_only_in_progress(s: State, e: EventView)
    ensures
        match next(s, e).1 {
            ActionView::Run { stage: BuildAction::CodeSigned, tag } => next(
                s,
                e,
            ).0.in_progress.contains(tag),
            ActionView::Warn { tag } => !next(s, e).0.in_progress.contains(tag),
            _ => true,
        },
{
}

/// In the cycle of the detached signatures, a new tag that is in progress
/// gets its code-signed attestation, and when that has gone well the tag is
/// no longer in progress.
pub proof fn lemma_codesign_completes(s: State, i: int)
    requires
        0 <= i < s.queue.len(),
        s.queue.len() <= usize::MAX,
        s.in_progress.contains(s.queue[i]),
    ensures
        sigs_at(s, i).1 == (ActionView::Run { stage: BuildAction::CodeSigned, tag: s.queue[i] }),
        sigs_at(s, i).0.phase == Phase::Codesigning(i as usize),
        !stage_finished(sigs_at(s, i).0, true).0.in_progress.contains(s.queue[i]),
        stage_finished(sigs_at(s, i).0, false).0.in_progress.contains(s.queue[i]),
{
}

/// In the cycle of the detached signatures, a new tag that is not in
/// progress gets a warning and no stage, and nothing changes about the tags
/// in progress.
pub proof fn lemma_not_in_progress_warns(s: State, i: int)
    requires
        0 <= i < s.queue.len(),
        s.queue.len() <= usize::MAX,
        !s.in_progress.contains(s.queue[i]),
    ensures
        sigs_at(s, i).1 == (ActionView::Warn { tag: s.queue[i] }),
        sigs_at(s, i).0.in_progress == s.in_progress,
{
}

/// A tag leaves the tags in progress in one way only: its code-signed
/// attestation has gone well. Every other event leaves each tag in progress
/// that was in progress.
pub proof fn lemma_in_progress_kept(s: State, e: EventView, tag: Seq<char>)
    requires
        s.in_progress.contains(tag),
        !next(s, e).0.in_progress.contains(tag),
    ensures
        e == EventView::StageFinished(true),
        s.phase matches Phase::Codesigning(i) && s.queue[i as int] == tag,
{
}

/// In the source cycle every new tag is put in progress before it is built,
/// and neither a failed build nor a failed attestation takes it out.
pub proof fn lemma_source_tag_in_progress(s: State, i: int, ok: bool)
    requires
        0 <= i < s.queue.len(),
        s.queue.len() <= usize::MAX,
    ensures
        source_at(s, i).1 == (ActionView::Run { stage: BuildAction::Build, tag: s.queue[i] }),
        source_at(s, i).0.in_progress.contains(s.queue[i]),
        stage_finished(source_at(s, i).0, ok).0.in_progress.contains(s.queue[i]),
        stage_finished(source_at(s, i).0, true).1 == (ActionView::Run {
            stage: BuildAction::NonCodeSigned,
            tag: s.queue[i],
        }),
        stage_finished(stage_finished(source_at(s, i).0, true).0, ok).0.in_progress.contains(
            s.queue[i],
        ),
{
}

/// Where the tags of a repository cannot be fetched, the cycle ends there:
/// nothing is stored, nothing changes about the known tags or the tags in
/// progress, and the timer of either repository starts its next cycle as
/// ever.
pub proof fn lemma_fetch_failure(s: State, repo: Repo, other: Repo)
    requires
        s.phase == Phase::Fetching(repo),
    ensures
        next(s, EventView::FetchFailed).1 == if s.stopping {
            ActionView::Stop
        } else {
            ActionView::Wait
        },
        next(s, EventView::FetchFailed).0.source_tags == s.source_tags,
        next(s, EventView::FetchFailed).0.sigs_tags == s.sigs_tags,
        next(s, EventView::FetchFailed).0.in_progress == s.in_progress,
        !s.stopping ==> next(next(s, EventView::FetchFailed).0, EventView::TimerElapsed(other)).1
            == ActionView::Fetch(other),
{
}

/// A tag is found new once: after a merge, no later fetch finds it new
/// again.
pub proof fn lemma_new_only_once(
    known: Seq<Seq<char>>,
    first: Seq<Seq<char>>,
    later: Seq<Seq<char>>,
    tag: Seq<char>,
)
    requires
        newly_seen(known, first).contains(tag),
    ensures
        !newly_seen(merged(known, first), later).contains(tag),
{
    lemma_newly_seen(merged(known, first), later);
    lemma_contains_concat(known, newly_seen(known, first), tag);
}

/// The events of the scheduler are answered in every state: after the loop
/// has ended by `Stop`, and otherwise a timer starts a cycle only between
/// cycles.
pub proof fn lemma_one_cycle_at_a_time(s: State, repo: Repo)
    ensures
        next(s, EventView::TimerElapsed(repo)).1 is Fetch <==> s.phase is Idle,
        !(s.phase is Idle) ==> next(s, EventView::TimerElapsed(repo)).0 == s,
{
}

/// The state after the events `events`, one after the other.
pub open spec fn run(s: State, events: Seq<EventView>) -> State
    decreases events.len(),
{
    if events.len() == 0 {
        s
    } else {
        next(run(s, events.drop_last()), events.last()).0
    }
}

/// How often the stage `stage` is asked for the tag `tag` while the events
/// `events` come in, one after the other.
pub open spec fn dispatches(
    s: State,
    events: Seq<EventView>,
    stage: BuildAction,
    tag: Seq<char>,
) -> nat
    decreases events.len(),
{
    if events.len() == 0 {
        0
    } else {
        let before = dispatches(s, events.drop_last(), stage, tag);
        if next(run(s, events.drop_last()), events.last()).1 == (ActionView::Run { stage, tag }) {
            before + 1
        } else {
            before
        }
    }
}

/// Whether each list of tags among `events` is one that a vector can hold.
pub open spec fn fetches_fit(events: Seq<EventView>) -> bool {
    forall|i: int|
        0 <= i < events.len() ==> (#[trigger] events[i] matches EventView::Fetched(tags)
            ==> tags.len() <= usize::MAX)
}

/// Whether `tag` stands nowhere in `queue` from position `from` on.
pub open spec fn rest_free(queue: Seq<Seq<char>>, from: int, tag: Seq<char>) -> bool {
    forall|j: int| from <= j < queue.len() ==> #[trigger] queue[j] != tag
}

/// Whether the stage `stage` is over and done with for `tag`: the tag is
/// known of the repository whose cycle runs the stage, and it does not lie
/// ahead in the queue of that cycle.
pub open spec fn settled(s: State, stage: BuildAction, tag: Seq<char>) -> bool {
    match stage {
        BuildAction::Build => s.source_tags.contains(tag) && match s.phase {
            Phase::Building(i) => rest_free(s.queue, i + 1, tag),
            Phase::Attesting(i) => rest_free(s.queue, i + 1, tag),
            _ => true,
        },
        BuildAction::NonCodeSigned => s.source_tags.contains(tag) && match s.phase {
            Phase::Building(i) => rest_free(s.queue, i as int, tag),
            Phase::Attesting(i) => rest_free(s.queue, i + 1, tag),
            _ => true,
        },
        BuildAction::CodeSigned => s.sigs_tags.contains(tag) && match s.phase {
            Phase::Codesigning(i) => rest_free(s.queue, i + 1, tag),
            Phase::Warning(i) => rest_free(s.queue, i + 1, tag),
            _ => true,
        },
        _ => true,
    }
}

/// A tag that is known is not in the queue of a fetch.
proof fn lemma_known_not_queued(known: Seq<Seq<char>>, tags: Seq<Seq<char>>, tag: Seq<char>)
    requires
        known.contains(tag),
    ensures
        rest_free(newly_seen(known, tags), 0, tag),
        merged(known, tags).contains(tag),
{
    lemma_newly_seen(known, tags);
    let queue = newly_seen(known, tags);
    assert forall|j: int| 0 <= j < queue.len() implies #[trigger] queue[j] != tag by {
        assert(queue.contains(queue[j]));
    }
    lemma_contains_concat(known, queue, tag);
}

/// A stage that is asked for a tag was not settled for it before and is
/// settled for it after; and what is settled stays settled.
pub proof fn lemma_settled(s: State, e: EventView, stage: BuildAction, tag: Seq<char>)
    requires
        well_formed(s),
        e matches EventView::Fetched(tags) ==> tags.len() <= usize::MAX,
    ensures
        next(s, e).1 == (ActionView::Run { stage, tag }) ==> !settled(s, stage, tag) && settled(
            next(s, e).0,
            stage,
            tag,
        ),
        settled(s, stage, tag) ==> settled(next(s, e).0, stage, tag),
{
    let t = next(s, e).0;
    lemma_next_well_formed(s, e);
    assert(t.queue.no_duplicates());
    match e {
        EventView::Fetched(tags) => {
            match s.phase {
                Phase::Fetching(Repo::Source) => {
                    lemma_queue(s.source_tags, tags);
                    if s.source_tags.contains(tag) {
                        lemma_known_not_queued(s.source_tags, tags, tag);
                    }
                    let queue = newly_seen(s.source_tags, tags);
                    if queue.len() > 0 {
                        assert(merged(s.source_tags, tags).contains(queue[0]));
                    }
                },
                Phase::Fetching(Repo::DetachedSigs) => {
                    lemma_queue(s.sigs_tags, tags);
                    if s.sigs_tags.contains(tag) {
                        lemma_known_not_queued(s.sigs_tags, tags, tag);
                    }
                    let queue = newly_seen(s.sigs_tags, tags);
                    if queue.len() > 0 {
                        assert(merged(s.sigs_tags, tags).contains(queue[0]));
                    }
                },
                _ => {},
            }
        },
        EventView::StageFinished(ok) => {
            match s.phase {
                Phase::Building(i) => {
                    assert(s.source_tags.contains(s.queue[i as int]));
                    if i + 1 < s.queue.len() {
                        assert(s.source_tags.contains(s.queue[i + 1]));
                    }
                },
                Phase::Attesting(i) => {
                    if i + 1 < s.queue.len() {
                        assert(s.source_tags.contains(s.queue[i + 1]));
                    }
                },
                Phase::Codesigning(i) => {
                    if i + 1 < s.queue.len() {
                        assert(s.sigs_tags.contains(s.queue[i + 1]));
                    }
                },
                _ => {},
            }
        },
        EventView::Done => {
            match s.phase {
                Phase::Warning(i) => {
                    if i + 1 < s.queue.len() {
                        assert(s.sigs_tags.contains(s.queue[i + 1]));
                    }
                },
                _ => {},
            }
        },
        _ => {},
    }
}

/// Whatever happens, no stage is asked for twice for the same tag: from a
/// well-formed state on, and through any events, each stage is asked for at
/// most once for each tag, and once it was asked for, it is settled.
pub proof fn lemma_dispatched_at_most_once(
    s: State,
    events: Seq<EventView>,
    stage: BuildAction,
    tag: Seq<char>,
)
    requires
        well_formed(s),
        fetches_fit(events),
    ensures
        well_formed(run(s, events)),
        dispatches(s, events, stage, tag) <= 1,
        dispatches(s, events, stage, tag) == 1 ==> settled(run(s, events), stage, tag),
    decreases events.len(),
{
    if events.len() > 0 {
        let earlier = events.drop_last();
        assert(fetches_fit(earlier)) by {
            assert forall|i: int| 0 <= i < earlier.len() implies (#[trigger] earlier[i] matches EventView::Fetched(
                tags,
            ) ==> tags.len() <= usize::MAX) by {
                assert(earlier[i] == events[i]);
            }
        }
        lemma_dispatched_at_most_once(s, earlier, stage, tag);
        assert(events.last() == events[events.len() - 1]);
        lemma_next_well_formed(run(s, earlier), events.last());
        lemma_settled(run(s, earlier), events.last(), stage, tag);
    }
}

} // verus!
