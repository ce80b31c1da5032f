//! The coordinator of the pipeline.
//!
//! Two repositories are polled, each in a cycle of its own. A tag that is new
//! in the source repository is built and attested without code signatures;
//! from then on it is in progress. When the same tag appears in the
//! repository of detached signatures, the code-signed attestation is made and
//! the tag is no longer in progress.
//!
//! The coordinator decides and never acts: `Coordinator::step` takes what
//! happened and says what to do next. Whoever drives it carries the action
//! out and reports the outcome as the next event. One cycle runs from its
//! timer to the end before the next one starts; a request to shut down that
//! arrives in the middle of a cycle takes effect when the cycle has ended, so
//! a stage that is running is left to finish.

use crate::builder::BuildAction;
use crate::store::{merged, newly_seen, persisted};
use crate::tagset::{texts, InProgressSet, TagSet};
use vstd::prelude::*;

verus! {

/// The two repositories that are watched.
#[derive(Debug, Clone, Copy, PartialEq, Eq)]
pub enum Repo {
    /// The repository whose tags set off builds.
    Source,
    /// The repository that receives the detached code signatures later.
    DetachedSigs,
}

/// What can happen to the coordinator.
#[derive(Debug)]
pub enum Event {
    /// The poll timer of a repository has run out.
    TimerElapsed(Repo),
    /// The process was interrupted.
    Interrupt,
    /// The process was asked to terminate.
    Terminate,
    /// The repository that was asked has listed these tags.
    Fetched(Vec<String>),
    /// The tags of the repository that was asked could not be had.
    FetchFailed,
    /// The stage that was run has ended, successfully or not.
    StageFinished(bool),
    /// The warning was given, or the text was stored.
    Done,
}

/// What the coordinator asks for.
#[derive(Debug, PartialEq, Eq)]
pub enum Action {
    /// Wait for the next timer or signal.
    Wait,
    /// Leave the loop.
    Stop,
    /// Nothing new: the event changed nothing that is asked for.
    Nothing,
    /// List the tags of a repository, and report `Fetched` or `FetchFailed`.
    Fetch(Repo),
    /// Run a stage for a tag, and report `StageFinished`.
    Run { stage: BuildAction, tag: String },
    /// Warn that a tag with detached signatures is not in progress and is
    /// left alone, and report `Done`.
    Warn { tag: String },
    /// Replace what is stored for a repository by this text, and report
    /// `Done`.
    Persist { repo: Repo, text: String },
}

/// Where the coordinator stands.
#[derive(Debug, Clone, Copy, PartialEq, Eq)]
pub enum Phase {
    /// Between two cycles.
    Idle,
    /// The tags of a repository were asked for.
    Fetching(Repo),
    /// Source cycle: the build of the new tag at this position runs.
    Building(usize),
    /// Source cycle: the attestation without code signatures of the new tag
    /// at this position runs.
    Attesting(usize),
    /// Cycle of the detached signatures: the code-signed attestation of the
    /// new tag at this position runs.
    Codesigning(usize),
    /// Cycle of the detached signatures: the warning about the new tag at
    /// this position is being given.
    Warning(usize),
    /// The tags of a repository are being stored.
    Persisting(Repo),
    /// The loop has ended.
    Stopped,
}

/// An event, with texts in place of strings.
pub enum EventView {
    TimerElapsed(Repo),
    Interrupt,
    Terminate,
    Fetched(Seq<Seq<char>>),
    FetchFailed,
    StageFinished(bool),
    Done,
}

/// An action, with texts in place of strings.
pub enum ActionView {
    Wait,
    Stop,
    Nothing,
    Fetch(Repo),
    Run { stage: BuildAction, tag: Seq<char> },
    Warn { tag: Seq<char> },
    Persist { repo: Repo, text: Seq<char> },
}

impl View for Event {
    type V = EventView;

    open spec fn view(&self) -> EventView {
        match self {
            Event::TimerElapsed(repo) => EventView::TimerElapsed(*repo),
            Event::Interrupt => EventView::Interrupt,
            Event::Terminate => EventView::Terminate,
            Event::Fetched(tags) => EventView::Fetched(texts(tags@)),
            Event::FetchFailed => EventView::FetchFailed,
            Event::StageFinished(ok) => EventView::StageFinished(*ok),
            Event::Done => EventView::Done,
        }
    }
}

impl View for Action {
    type V = ActionView;

    open spec fn view(&self) -> ActionView {
        match self {
            Action::Wait => ActionView::Wait,
            Action::Stop => ActionView::Stop,
            Action::Nothing => ActionView::Nothing,
            Action::Fetch(repo) => ActionView::Fetch(*repo),
            Action::Run { stage, tag } => ActionView::Run { stage: *stage, tag: tag@ },
            Action::Warn { tag } => ActionView::Warn { tag: tag@ },
            Action::Persist { repo, text } => ActionView::Persist { repo: *repo, text: text@ },
        }
    }
}

/// The state of the coordinator.
pub struct State {
    /// The tags known of the source repository.
    pub source_tags: Seq<Seq<char>>,
    /// The tags known of the repository of detached signatures.
    pub sigs_tags: Seq<Seq<char>>,
    /// The tags in progress.
    pub in_progress: Set<Seq<char>>,
    /// The new tags of the cycle that is under way, in the order in which
    /// they were fetched.
    pub queue: Seq<Seq<char>>,
    /// Where the coordinator stands.
    pub phase: Phase,
    /// Whether the loop is to end with the cycle that is under way.
    pub stopping: bool,
}

/// The state in which the coordinator starts: nothing is in progress.
pub open spec fn initial(source_tags: Seq<Seq<char>>, sigs_tags: Seq<Seq<char>>) -> State {
    State {
        source_tags,
        sigs_tags,
        in_progress: Set::empty(),
        queue: Seq::empty(),
        phase: Phase::Idle,
        stopping: false,
    }
}

/// The end of a cycle: back to waiting, or out of the loop where that was
/// asked for.
pub open spec fn finish(s: State) -> (State, ActionView) {
    if s.stopping {
        (State { queue: Seq::empty(), phase: Phase::Stopped, ..s }, ActionView::Stop)
    } else {
        (State { queue: Seq::empty(), phase: Phase::Idle, ..s }, ActionView::Wait)
    }
}

/// Source cycle, at position `i` of the new tags: the tag there is put in
/// progress and built; past the last tag, the known tags are stored.
pub open spec fn source_at(s: State, i: int) -> (State, ActionView) {
    if 0 <= i < s.queue.len() {
        (
            State {
                in_progress: s.in_progress.insert(s.queue[i]),
                phase: Phase::Building(i as usize),
                ..s
            },
            ActionView::Run { stage: BuildAction::Build, tag: s.queue[i] },
        )
    } else {
        (
            State { phase: Phase::Persisting(Repo::Source), ..s },
            ActionView::Persist { repo: Repo::Source, text: persisted(s.source_tags) },
        )
    }
}

/// Cycle of the detached signatures, at position `i` of the new tags: the
/// tag there gets its code-signed attestation if it is in progress, and a
/// warning if it is not; past the last tag, the known tags are stored.
pub open spec fn sigs_at(s: State, i: int) -> (State, ActionView) {
    if 0 <= i < s.queue.len() {
        if s.in_progress.contains(s.queue[i]) {
            (
                State { phase: Phase::Codesigning(i as usize), ..s },
                ActionView::Run { stage: BuildAction::CodeSigned, tag: s.queue[i] },
            )
        } else {
            (State { phase: Phase::Warning(i as usize), ..s }, ActionView::Warn { tag: s.queue[i] })
        }
    } else {
        (
            State { phase: Phase::Persisting(Repo::DetachedSigs), ..s },
            ActionView::Persist { repo: Repo::DetachedSigs, text: persisted(s.sigs_tags) },
        )
    }
}

/// What a request to shut down does: between cycles the loop ends at once;
/// within a cycle it ends when the cycle does.
pub open spec fn shut_down(s: State) -> (State, ActionView) {
    match s.phase {
        Phase::Idle => (State { phase: Phase::Stopped, ..s }, ActionView::Stop),
        Phase::Stopped => (s, ActionView::Stop),
        _ => (State { stopping: true, ..s }, ActionView::Nothing),
    }
}

/// What the tags that a repository listed do: the new ones among them become
/// the queue of the cycle, and all of them are known from now on.
pub open spec fn fetched(s: State, tags: Seq<Seq<char>>) -> (State, ActionView) {
    match s.phase {
        Phase::Fetching(Repo::Source) => source_at(
            State {
                source_tags: merged(s.source_tags, tags),
                queue: newly_seen(s.source_tags, tags),
                ..s
            },
            0,
        ),
        Phase::Fetching(Repo::DetachedSigs) => sigs_at(
            State {
                sigs_tags: merged(s.sigs_tags, tags),
                queue: newly_seen(s.sigs_tags, tags),
                ..s
            },
            0,
        ),
        Phase::Stopped => (s, ActionView::Stop),
        _ => (s, ActionView::Nothing),
    }
}

/// What the end of a stage does. A build that went well is followed by the
/// attestation without code signatures; one that failed ends the work on
/// its tag. After a code-signed attestation that went well the tag is no
/// longer in progress. A tag whose stage failed stays in progress.
pub open spec fn stage_finished(s: State, ok: bool) -> (State, ActionView) {
    match s.phase {
        Phase::Building(i) => if ok {
            (
                State { phase: Phase::Attesting(i), ..s },
                ActionView::Run { stage: BuildAction::NonCodeSigned, tag: s.queue[i as int] },
            )
        } else {
            source_at(s, i + 1)
        },
        Phase::Attesting(i) => source_at(s, i + 1),
        Phase::Codesigning(i) => if ok {
            sigs_at(State { in_progress: s.in_progress.remove(s.queue[i as int]), ..s }, i + 1)
        } else {
            sigs_at(s, i + 1)
        },
        Phase::Stopped => (s, ActionView::Stop),
        _ => (s, ActionView::Nothing),
    }
}

/// The next state and the action to take, given a state and an event. An
/// event that the state does not wait for changes nothing; once the loop has
/// ended, every event is answered by `Stop`.
pub open spec fn next(s: State, e: EventView) -> (State, ActionView) {
    match e {
        EventView::Interrupt => shut_down(s),
        EventView::Terminate => shut_down(s),
        EventView::TimerElapsed(repo) => match s.phase {
            Phase::Idle => (State { phase: Phase::Fetching(repo), ..s }, ActionView::Fetch(repo)),
            Phase::Stopped => (s, ActionView::Stop),
            _ => (s, ActionView::Nothing),
        },
        EventView::FetchFailed => match s.phase {
            Phase::Fetching(_) => finish(s),
            Phase::Stopped => (s, ActionView::Stop),
            _ => (s, ActionView::Nothing),
        },
        EventView::Fetched(tags) => fetched(s, tags),
        EventView::StageFinished(ok) => stage_finished(s, ok),
        EventView::Done => match s.phase {
            Phase::Warning(i) => sigs_at(s, i + 1),
            Phase::Persisting(_) => finish(s),
            Phase::Stopped => (s, ActionView::Stop),
            _ => (s, ActionView::Nothing),
        },
    }
}

/// The coordinator: the tags known of the two repositories, the tags in
/// progress, and where the cycle that is under way stands.
pub struct Coordinator {
    source_tags: TagSet,
    sigs_tags: TagSet,
    in_progress: InProgressSet,
    queue: Vec<String>,
    phase: Phase,
    stopping: bool,
}

impl View for Coordinator {
    type V = State;

    closed spec fn view(&self) -> State {
        State {
            source_tags: self.source_tags@,
            sigs_tags: self.sigs_tags@,
            in_progress: self.in_progress@,
            queue: texts(self.queue@),
            phase: self.phase,
            stopping: self.stopping,
        }
    }
}

/// Whether the position that `phase` speaks of, if any, lies within a queue
/// of `len` tags.
pub open spec fn in_queue(phase: Phase, len: nat) -> bool {
    match phase {
        Phase::Building(i) => i < len,
        Phase::Attesting(i) => i < len,
        Phase::Codesigning(i) => i < len,
        Phase::Warning(i) => i < len,
        _ => true,
    }
}

impl Coordinator {
    /// What holds of every coordinator: the tag that is being worked on is
    /// one of the queue.
    #[verifier::type_invariant]
    pub open spec fn valid(&self) -> bool {
        in_queue(self@.phase, self@.queue.len())
    }

    /// A coordinator that knows the given tags of the two repositories, with
    /// nothing in progress.
    pub fn new(source_tags: TagSet, sigs_tags: TagSet) -> (c: Coordinator)
        ensures
            c@ == initial(source_tags@, sigs_tags@),
    {
        let c = Coordinator {
            source_tags,
            sigs_tags,
            in_progress: InProgressSet::new(),
            queue: Vec::new(),
            phase: Phase::Idle,
            stopping: false,
        };
        assert(texts(c.queue@) =~= Seq::<Seq<char>>::empty());
        c
    }

    /// Where the coordinator stands.
    pub fn phase(&self) -> (phase: Phase)
        ensures
            phase == self@.phase,
    {
        self.phase
    }

    /// The tags in progress.
    pub fn in_progress(&self) -> (set: &InProgressSet)
        ensures
            set@ == self@.in_progress,
    {
        &self.in_progress
    }

    /// The tags known of a repository.
    pub fn known_tags(&self, repo: Repo) -> (set: &TagSet)
        ensures
            set@ == match repo {
                Repo::Source => self@.source_tags,
                Repo::DetachedSigs => self@.sigs_tags,
            },
    {
        match repo {
            Repo::Source => &self.source_tags,
            Repo::DetachedSigs => &self.sigs_tags,
        }
    }

    /// Whether the loop is to end with the cycle that is under way.
    pub fn is_stopping(&self) -> (stopping: bool)
        ensures
            stopping == self@.stopping,
    {
        self.stopping
    }

    /// Ends the cycle.
    fn finish(self) -> (r: (Coordinator, Action))
        ensures
            (r.0@, r.1@) == finish(self@),
    {
        let Coordinator { source_tags, sigs_tags, in_progress, queue: _, phase: _, stopping } =
            self;
        let queue: Vec<String> = Vec::new();
        assert(texts(queue@) =~= Seq::<Seq<char>>::empty());
        if stopping {
            (
                Coordinator {
                    source_tags,
                    sigs_tags,
                    in_progress,
                    queue,
                    phase: Phase::Stopped,
                    stopping,
                },
                Action::Stop,
            )
        } else {
            (
                Coordinator {
                    source_tags,
                    sigs_tags,
                    in_progress,
                    queue,
                    phase: Phase::Idle,
                    stopping,
                },
                Action::Wait,
            )
        }
    }

    /// Goes on with the source cycle at position `i` of the queue.
    fn source_at(self, i: usize) -> (r: (Coordinator, Action))
        ensures
            (r.0@, r.1@) == source_at(self@, i as int),
    {
        let Coordinator { source_tags, sigs_tags, in_progress, queue, phase: _, stopping } = self;
        if i < queue.len() {
            let tag = queue[i].clone();
            let mut in_progress = in_progress;
            let _ = in_progress.insert(queue[i].clone());
            assert(texts(queue@)[i as int] == queue@[i as int]@);
            (
                Coordinator {
                    source_tags,
                    sigs_tags,
                    in_progress,
                    queue,
                    phase: Phase::Building(i),
                    stopping,
                },
                Action::Run { stage: BuildAction::Build, tag },
            )
        } else {
            let text = source_tags.persist();
            (
                Coordinator {
                    source_tags,
                    sigs_tags,
                    in_progress,
                    queue,
                    phase: Phase::Persisting(Repo::Source),
                    stopping,
                },
                Action::Persist { repo: Repo::Source, text },
            )
        }
    }

    /// Goes on with the cycle of the detached signatures at position `i` of
    /// the queue.
    fn sigs_at(self, i: usize) -> (r: (Coordinator, Action))
        ensures
            (r.0@, r.1@) == sigs_at(self@, i as int),
    {
        let Coordinator { source_tags, sigs_tags, in_progress, queue, phase: _, stopping } = self;
        if i < queue.len() {
            let tag = queue[i].clone();
            assert(texts(queue@)[i as int] == queue@[i as int]@);
            if in_progress.contains(tag.as_str()) {
                (
                    Coordinator {
                        source_tags,
                        sigs_tags,
                        in_progress,
                        queue,
                        phase: Phase::Codesigning(i),
                        stopping,
                    },
                    Action::Run { stage: BuildAction::CodeSigned, tag },
                )
            } else {
                (
                    Coordinator {
                        source_tags,
                        sigs_tags,
                        in_progress,
                        queue,
                        phase: Phase::Warning(i),
                        stopping,
                    },
                    Action::Warn { tag },
                )
            }
        } else {
            let text = sigs_tags.persist();
            (
                Coordinator {
                    source_tags,
                    sigs_tags,
                    in_progress,
                    queue,
                    phase: Phase::Persisting(Repo::DetachedSigs),
                    stopping,
                },
                Action::Persist { repo: Repo::DetachedSigs, text },
            )
        }
    }

    /// Takes a request to shut down.
    fn shut_down(self) -> (r: (Coordinator, Action))
        ensures
            (r.0@, r.1@) == shut_down(self@),
    {
        proof {
            use_type_invariant(&self);
            assert(self@.queue.len() == self.queue.len());
        }
        match self.phase {
            Phase::Stopped => (self, Action::Stop),
            Phase::Idle => {
                let Coordinator { source_tags, sigs_tags, in_progress, queue, phase: _, stopping } =
                    self;
                (
                    Coordinator {
                        source_tags,
                        sigs_tags,
                        in_progress,
                        queue,
                        phase: Phase::Stopped,
                        stopping,
                    },
                    Action::Stop,
                )
            },
            _ => {
                let Coordinator { source_tags, sigs_tags, in_progress, queue, phase, stopping: _ } =
                    self;
                (
                    Coordinator {
                        source_tags,
                        sigs_tags,
                        in_progress,
                        queue,
                        phase,
                        stopping: true,
                    },
                    Action::Nothing,
                )
            },
        }
    }

    /// Takes the tags that a repository has listed.
    fn fetched(self, tags: Vec<String>) -> (r: (Coordinator, Action))
        ensures
            (r.0@, r.1@) == fetched(self@, texts(tags@)),
    {
        match self.phase {
            Phase::Fetching(Repo::Source) => {
                let Coordinator { source_tags, sigs_tags, in_progress, queue: _, phase, stopping } =
                    self;
                let mut source_tags = source_tags;
                let queue = source_tags.diff_and_merge(&tags);
                Coordinator {
                    source_tags,
                    sigs_tags,
                    in_progress,
                    queue,
                    phase,
                    stopping,
                }.source_at(0)
            },
            Phase::Fetching(Repo::DetachedSigs) => {
                let Coordinator { source_tags, sigs_tags, in_progress, queue: _, phase, stopping } =
                    self;
                let mut sigs_tags = sigs_tags;
                let queue = sigs_tags.diff_and_merge(&tags);
                Coordinator {
                    source_tags,
                    sigs_tags,
                    in_progress,
                    queue,
                    phase,
                    stopping,
                }.sigs_at(0)
            },
            Phase::Stopped => (self, Action::Stop),
            _ => (self, Action::Nothing),
        }
    }

    /// Takes the end of a stage.
    fn stage_finished(self, ok: bool) -> (r: (Coordinator, Action))
        ensures
            (r.0@, r.1@) == stage_finished(self@, ok),
    {
        proof {
            use_type_invariant(&self);
            assert(self@.queue.len() == self.queue.len());
        }
        match self.phase {
            Phase::Building(i) => {
                if ok {
                    let Coordinator {
                        source_tags,
                        sigs_tags,
                        in_progress,
                        queue,
                        phase: _,
                        stopping,
                    } = self;
                    let tag = queue[i].clone();
                    assert(texts(queue@)[i as int] == queue@[i as int]@);
                    (
                        Coordinator {
                            source_tags,
                            sigs_tags,
                            in_progress,
                            queue,
                            phase: Phase::Attesting(i),
                            stopping,
                        },
                        Action::Run { stage: BuildAction::NonCodeSigned, tag },
                    )
                } else {
                    self.source_at(i + 1)
                }
            },
            Phase::Attesting(i) => self.source_at(i + 1),
            Phase::Codesigning(i) => {
                if ok {
                    let Coordinator {
                        source_tags,
                        sigs_tags,
                        in_progress,
                        queue,
                        phase,
                        stopping,
                    } = self;
                    let mut in_progress = in_progress;
                    let _ = in_progress.remove(queue[i].as_str());
                    assert(texts(queue@)[i as int] == queue@[i as int]@);
                    Coordinator {
                        source_tags,
                        sigs_tags,
                        in_progress,
                        queue,
                        phase,
                        stopping,
                    }.sigs_at(i + 1)
                } else {
                    self.sigs_at(i + 1)
                }
            },
            Phase::Stopped => (self, Action::Stop),
            _ => (self, Action::Nothing),
        }
    }

    /// Takes an event and gives the coordinator as it is after it, with the
    /// action to carry out.
    pub fn step(self, event: Event) -> (r: (Coordinator, Action))
        ensures
            (r.0@, r.1@) == next(self@, event@),
    {
        proof {
            use_type_invariant(&self);
            assert(self@.queue.len() == self.queue.len());
        }
        match event {
            Event::Interrupt => self.shut_down(),
            Event::Terminate => self.shut_down(),
            Event::TimerElapsed(repo) => match self.phase {
                Phase::Idle => {
                    let Coordinator {
                        source_tags,
                        sigs_tags,
                        in_progress,
                        queue,
                        phase: _,
                        stopping,
                    } = self;
                    (
                        Coordinator {
                            source_tags,
                            sigs_tags,
                            in_progress,
                            queue,
                            phase: Phase::Fetching(repo),
                            stopping,
                        },
                        Action::Fetch(repo),
                    )
                },
                Phase::Stopped => (self, Action::Stop),
                _ => (self, Action::Nothing),
            },
            Event::FetchFailed => match self.phase {
                Phase::Fetching(_) => self.finish(),
                Phase::Stopped => (self, Action::Stop),
                _ => (self, Action::Nothing),
            },
            Event::Fetched(tags) => self.fetched(tags),
            Event::StageFinished(ok) => self.stage_finished(ok),
            Event::Done => match self.phase {
                Phase::Warning(i) => self.sigs_at(i + 1),
                Phase::Persisting(_) => self.finish(),
                Phase::Stopped => (self, Action::Stop),
                _ => (self, Action::Nothing),
            },
        }
    }
}

} // verus!
