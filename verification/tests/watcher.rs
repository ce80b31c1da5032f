use bgt::builder::BuildAction;
use bgt::tagset::TagSet;
use bgt::watcher::{Action, Coordinator, Event, Phase, Repo};

fn strings(items: &[&str]) -> Vec<String> {
    items.iter().map(|s| s.to_string()).collect()
}

fn run(tag: &str, stage: BuildAction) -> Action {
    Action::Run { stage, tag: tag.to_string() }
}

fn fresh() -> Coordinator {
    Coordinator::new(TagSet::new(), TagSet::new())
}

/// Drives a source cycle that fetches `tags`, with every stage going well.
fn source_cycle(mut c: Coordinator, tags: &[&str]) -> Coordinator {
    let (next, action) = c.step(Event::TimerElapsed(Repo::Source));
    assert_eq!(action, Action::Fetch(Repo::Source));
    c = next;
    let (next, mut action) = c.step(Event::Fetched(strings(tags)));
    c = next;
    loop {
        let event = match action {
            Action::Run { .. } => Event::StageFinished(true),
            Action::Persist { .. } => Event::Done,
            Action::Wait => return c,
            other => panic!("unexpected {:?}", other),
        };
        let (next, then) = c.step(event);
        c = next;
        action = then;
    }
}

#[test]
fn source_cycle_builds_and_attests_each_new_tag_in_fetch_order() {
    let c = fresh();
    let (c, action) = c.step(Event::TimerElapsed(Repo::Source));
    assert_eq!(action, Action::Fetch(Repo::Source));
    assert_eq!(c.phase(), Phase::Fetching(Repo::Source));
    let (c, action) = c.step(Event::Fetched(strings(&["v27.1", "v26.0"])));
    assert_eq!(action, run("v27.1", BuildAction::Build));
    assert!(c.in_progress().contains("v27.1"));
    assert!(!c.in_progress().contains("v26.0"));
    let (c, action) = c.step(Event::StageFinished(true));
    assert_eq!(action, run("v27.1", BuildAction::NonCodeSigned));
    let (c, action) = c.step(Event::StageFinished(true));
    assert_eq!(action, run("v26.0", BuildAction::Build));
    let (c, action) = c.step(Event::StageFinished(true));
    assert_eq!(action, run("v26.0", BuildAction::NonCodeSigned));
    let (c, action) = c.step(Event::StageFinished(true));
    assert_eq!(
        action,
        Action::Persist { repo: Repo::Source, text: "v26.0\nv27.1\n".to_string() }
    );
    let (c, action) = c.step(Event::Done);
    assert_eq!(action, Action::Wait);
    assert_eq!(c.phase(), Phase::Idle);
    assert_eq!(c.in_progress().to_vec(), strings(&["v27.1", "v26.0"]));
    assert_eq!(c.known_tags(Repo::Source).to_vec(), strings(&["v27.1", "v26.0"]));
    assert!(c.known_tags(Repo::DetachedSigs).is_empty());
}

#[test]
fn failed_build_skips_the_attestation_of_that_tag_only() {
    let c = fresh();
    let (c, _) = c.step(Event::TimerElapsed(Repo::Source));
    let (c, action) = c.step(Event::Fetched(strings(&["v27.1", "v27.2"])));
    assert_eq!(action, run("v27.1", BuildAction::Build));
    let (c, action) = c.step(Event::StageFinished(false));
    assert_eq!(action, run("v27.2", BuildAction::Build));
    assert!(c.in_progress().contains("v27.1"));
    let (c, action) = c.step(Event::StageFinished(true));
    assert_eq!(action, run("v27.2", BuildAction::NonCodeSigned));
    let (c, action) = c.step(Event::StageFinished(false));
    assert_eq!(
        action,
        Action::Persist { repo: Repo::Source, text: "v27.1\nv27.2\n".to_string() }
    );
    assert!(c.in_progress().contains("v27.1"));
    assert!(c.in_progress().contains("v27.2"));
}

#[test]
fn tag_in_progress_is_codesigned_once_and_leaves() {
    let c = source_cycle(fresh(), &["v27.1"]);
    assert!(c.in_progress().contains("v27.1"));
    let (c, action) = c.step(Event::TimerElapsed(Repo::DetachedSigs));
    assert_eq!(action, Action::Fetch(Repo::DetachedSigs));
    let (c, action) = c.step(Event::Fetched(strings(&["v27.1"])));
    assert_eq!(action, run("v27.1", BuildAction::CodeSigned));
    assert_eq!(c.phase(), Phase::Codesigning(0));
    let (c, action) = c.step(Event::StageFinished(true));
    assert_eq!(
        action,
        Action::Persist { repo: Repo::DetachedSigs, text: "v27.1\n".to_string() }
    );
    assert!(!c.in_progress().contains("v27.1"));
    assert_eq!(c.in_progress().len(), 0);
    let (c, action) = c.step(Event::Done);
    assert_eq!(action, Action::Wait);
    // A later cycle that lists the tag again does not dispatch again.
    let (c, _) = c.step(Event::TimerElapsed(Repo::DetachedSigs));
    let (c, action) = c.step(Event::Fetched(strings(&["v27.1"])));
    assert_eq!(
        action,
        Action::Persist { repo: Repo::DetachedSigs, text: "v27.1\n".to_string() }
    );
    let (_, action) = c.step(Event::Done);
    assert_eq!(action, Action::Wait);
}

#[test]
fn tag_not_in_progress_gets_a_warning_and_no_stage() {
    let c = source_cycle(fresh(), &["v27.1"]);
    let (c, _) = c.step(Event::TimerElapsed(Repo::DetachedSigs));
    let (c, action) = c.step(Event::Fetched(strings(&["v26.0", "v27.1"])));
    assert_eq!(action, Action::Warn { tag: "v26.0".to_string() });
    assert_eq!(c.phase(), Phase::Warning(0));
    assert_eq!(c.in_progress().to_vec(), strings(&["v27.1"]));
    let (c, action) = c.step(Event::Done);
    assert_eq!(action, run("v27.1", BuildAction::CodeSigned));
    let (c, action) = c.step(Event::StageFinished(true));
    assert_eq!(
        action,
        Action::Persist { repo: Repo::DetachedSigs, text: "v26.0\nv27.1\n".to_string() }
    );
    assert_eq!(c.in_progress().len(), 0);
}

#[test]
fn failed_codesign_leaves_the_tag_in_progress() {
    let c = source_cycle(fresh(), &["v27.1"]);
    let (c, _) = c.step(Event::TimerElapsed(Repo::DetachedSigs));
    let (c, action) = c.step(Event::Fetched(strings(&["v27.1"])));
    assert_eq!(action, run("v27.1", BuildAction::CodeSigned));
    let (c, action) = c.step(Event::StageFinished(false));
    assert!(matches!(action, Action::Persist { repo: Repo::DetachedSigs, .. }));
    assert!(c.in_progress().contains("v27.1"));
}

#[test]
fn fetch_failure_ends_the_cycle_and_stores_nothing() {
    let source = TagSet::load(Some("v27.0\n"));
    let sigs = TagSet::load(Some("v26.0\n"));
    let c = Coordinator::new(source, sigs);
    let (c, action) = c.step(Event::TimerElapsed(Repo::Source));
    assert_eq!(action, Action::Fetch(Repo::Source));
    let (c, action) = c.step(Event::FetchFailed);
    assert_eq!(action, Action::Wait);
    assert_eq!(c.phase(), Phase::Idle);
    assert_eq!(c.known_tags(Repo::Source).to_vec(), strings(&["v27.0"]));
    assert_eq!(c.known_tags(Repo::DetachedSigs).to_vec(), strings(&["v26.0"]));
    assert_eq!(c.in_progress().len(), 0);
    // The other cycle runs as scheduled.
    let (c, action) = c.step(Event::TimerElapsed(Repo::DetachedSigs));
    assert_eq!(action, Action::Fetch(Repo::DetachedSigs));
    let (c, action) = c.step(Event::Fetched(strings(&["v26.0"])));
    assert_eq!(
        action,
        Action::Persist { repo: Repo::DetachedSigs, text: "v26.0\n".to_string() }
    );
    let (c, _) = c.step(Event::Done);
    // And so does the cycle that failed, the next time.
    let (_, action) = c.step(Event::TimerElapsed(Repo::Source));
    assert_eq!(action, Action::Fetch(Repo::Source));
}

#[test]
fn second_run_reports_only_the_new_tag() {
    let c = source_cycle(fresh(), &["v27.1"]);
    let (c, _) = c.step(Event::TimerElapsed(Repo::Source));
    let (c, action) = c.step(Event::Fetched(strings(&["v27.1", "v27.2"])));
    assert_eq!(action, run("v27.2", BuildAction::Build));
    let (c, action) = c.step(Event::StageFinished(true));
    assert_eq!(action, run("v27.2", BuildAction::NonCodeSigned));
    let (_, action) = c.step(Event::StageFinished(true));
    assert_eq!(
        action,
        Action::Persist { repo: Repo::Source, text: "v27.1\nv27.2\n".to_string() }
    );
}

#[test]
fn cycle_without_new_tags_stores_and_waits() {
    let c = Coordinator::new(TagSet::load(Some("v27.1\n")), TagSet::new());
    let (c, _) = c.step(Event::TimerElapsed(Repo::Source));
    let (c, action) = c.step(Event::Fetched(strings(&["v27.1"])));
    assert_eq!(
        action,
        Action::Persist { repo: Repo::Source, text: "v27.1\n".to_string() }
    );
    assert_eq!(c.phase(), Phase::Persisting(Repo::Source));
    let (_, action) = c.step(Event::Done);
    assert_eq!(action, Action::Wait);
}

#[test]
fn shutdown_between_cycles_stops_at_once() {
    let (c, action) = fresh().step(Event::Interrupt);
    assert_eq!(action, Action::Stop);
    assert_eq!(c.phase(), Phase::Stopped);
    let (c, action) = c.step(Event::TimerElapsed(Repo::Source));
    assert_eq!(action, Action::Stop);
    let (_, action) = c.step(Event::Terminate);
    assert_eq!(action, Action::Stop);
    let (_, action) = fresh().step(Event::Terminate);
    assert_eq!(action, Action::Stop);
}

#[test]
fn shutdown_within_a_cycle_lets_the_cycle_finish() {
    let c = fresh();
    let (c, _) = c.step(Event::TimerElapsed(Repo::Source));
    let (c, action) = c.step(Event::Fetched(strings(&["v27.1"])));
    assert_eq!(action, run("v27.1", BuildAction::Build));
    let (c, action) = c.step(Event::Terminate);
    assert_eq!(action, Action::Nothing);
    assert!(c.is_stopping());
    assert_eq!(c.phase(), Phase::Building(0));
    let (c, action) = c.step(Event::StageFinished(true));
    assert_eq!(action, run("v27.1", BuildAction::NonCodeSigned));
    let (c, action) = c.step(Event::StageFinished(true));
    assert!(matches!(action, Action::Persist { repo: Repo::Source, .. }));
    let (c, action) = c.step(Event::Done);
    assert_eq!(action, Action::Stop);
    assert_eq!(c.phase(), Phase::Stopped);
}

#[test]
fn shutdown_during_fetch_stops_after_a_failed_fetch() {
    let (c, _) = fresh().step(Event::TimerElapsed(Repo::DetachedSigs));
    let (c, action) = c.step(Event::Interrupt);
    assert_eq!(action, Action::Nothing);
    let (c, action) = c.step(Event::FetchFailed);
    assert_eq!(action, Action::Stop);
    assert_eq!(c.phase(), Phase::Stopped);
}

#[test]
fn events_that_are_not_awaited_change_nothing() {
    let (c, action) = fresh().step(Event::StageFinished(true));
    assert_eq!(action, Action::Nothing);
    let (c, action) = c.step(Event::Done);
    assert_eq!(action, Action::Nothing);
    let (c, action) = c.step(Event::Fetched(strings(&["v1.0"])));
    assert_eq!(action, Action::Nothing);
    let (c, action) = c.step(Event::FetchFailed);
    assert_eq!(action, Action::Nothing);
    assert_eq!(c.phase(), Phase::Idle);
    assert!(c.known_tags(Repo::Source).is_empty());
    let (c, _) = c.step(Event::TimerElapsed(Repo::Source));
    let (c, action) = c.step(Event::TimerElapsed(Repo::DetachedSigs));
    assert_eq!(action, Action::Nothing);
    assert_eq!(c.phase(), Phase::Fetching(Repo::Source));
    let (c, action) = c.step(Event::StageFinished(true));
    assert_eq!(action, Action::Nothing);
    assert_eq!(c.phase(), Phase::Fetching(Repo::Source));
}
