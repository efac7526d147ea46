use tool::release::{
    check_branch, hook_failure, repo_name, tag_message, Action, Advisory, Event, Release, Stage,
};
use tool::version::ReleaseError;

const HINT: &str = ".\nDoes this project have any specific release requirements?";

fn s(x: &str) -> String {
    x.to_string()
}

/// Runs a release up to the request for the shortlog.
fn through_tag_discovery(target: &str, latest: Option<&str>) -> (Release, tool::release::Step) {
    let (mut m, a) = Release::start(target).unwrap();
    assert_eq!(a, Action::QueryBranches);
    let st = m.step(Event::Branches { current: s("main"), upstream: s("main") });
    assert_eq!(st.advisory, None);
    assert_eq!(st.action, Action::Pull);
    let st = m.step(Event::Pulled(Ok(())));
    assert_eq!(st.action, Action::QueryLatestTag);
    let st = m.step(Event::LatestTag(latest.map(s)));
    (m, st)
}

#[test]
fn no_tag_major_bump_starts_from_zero() {
    let (m, st) = through_tag_discovery("major", None);
    assert_eq!(st.advisory, Some(Advisory::NoTagsDefaultedToZero));
    assert_eq!(st.action, Action::QueryShortlog { since: None });
    assert_eq!(m.latest_tag, "v0.0.0");
    assert_eq!(m.next_tag, "v1.0.0");
}

#[test]
fn minor_release_from_tagged_repository() {
    let (mut m, st) = through_tag_discovery("minor", Some("v1.2.3"));
    assert_eq!(st.advisory, None);
    assert_eq!(st.action, Action::QueryShortlog { since: Some(s("v1.2.3")) });
    assert_eq!(m.next_tag, "v1.3.0");
    let st = m.step(Event::Shortlog { toplevel: s("/home/u/src/tool"), log: s("A (1):\n  x") });
    assert_eq!(st.action, Action::RunHook { old: s("v1.2.3"), new: s("v1.3.0") });
    let st = m.step(Event::HookDone(Ok(())));
    assert_eq!(
        st.action,
        Action::CreateTag { name: s("v1.3.0"), message: s("tool v1.3.0\n\nA (1):\n  x\n") }
    );
    let st = m.step(Event::TagDone(Ok(())));
    assert_eq!(st.action, Action::Finish);
    assert_eq!(m.stage, Stage::Tagged);
}

#[test]
fn explicit_prerelease_target() {
    let (m, _) = through_tag_discovery("v3.0.0-rc1", Some("v2.0.0"));
    assert_eq!(m.next_tag, "v3.0.0-rc1");
}

#[test]
fn patch_without_tags_covers_full_history() {
    let (mut m, st) = through_tag_discovery("patch", None);
    assert_eq!(st.action, Action::QueryShortlog { since: None });
    assert_eq!(m.next_tag, "v0.0.1");
    let st = m.step(Event::Shortlog { toplevel: s("/r/proj/"), log: s("log") });
    assert_eq!(st.action, Action::RunHook { old: s("v0.0.0"), new: s("v0.0.1") });
    assert_eq!(m.message, "proj v0.0.1\n\nlog\n");
}

#[test]
fn hook_failure_aborts_before_tagging() {
    let (mut m, _) = through_tag_discovery("minor", Some("v1.2.3"));
    m.step(Event::Shortlog { toplevel: s("/r/p"), log: s("") });
    let st = m.step(Event::HookDone(Err(s("exit status 1"))));
    let expected = format!("exit status 1{HINT}");
    assert_eq!(st.action, Action::Fail(ReleaseError::HookFailed(expected)));
    assert_eq!(m.stage, Stage::Aborted);
    assert!(!m.accepts(&Event::TagDone(Ok(()))));
}

#[test]
fn banana_target_fails_before_any_action() {
    assert_eq!(
        Release::start("banana").unwrap_err(),
        ReleaseError::InvalidBumpTarget(s("banana"))
    );
}

#[test]
fn other_branch_is_only_advisory() {
    let (mut m, _) = Release::start("patch").unwrap();
    let st = m.step(Event::Branches { current: s("feature"), upstream: s("main") });
    assert_eq!(st.advisory, Some(Advisory::NotOnDefaultBranch(s("main"))));
    assert_eq!(st.action, Action::Pull);
    assert_eq!(m.stage, Stage::BranchChecked);
}

#[test]
fn pull_failure_aborts() {
    let (mut m, _) = Release::start("patch").unwrap();
    m.step(Event::Branches { current: s("main"), upstream: s("main") });
    let st = m.step(Event::Pulled(Err(s("conflict"))));
    assert_eq!(st.action, Action::Fail(ReleaseError::PullFailed(s("conflict"))));
    assert_eq!(m.stage, Stage::Aborted);
}

#[test]
fn tag_failure_aborts() {
    let (mut m, _) = through_tag_discovery("patch", Some("v0.1.0"));
    m.step(Event::Shortlog { toplevel: s("/p"), log: s("") });
    m.step(Event::HookDone(Ok(())));
    let st = m.step(Event::TagDone(Err(s("tag 'v0.1.1' already exists"))));
    assert_eq!(st.action, Action::Fail(ReleaseError::TagFailed(s("tag 'v0.1.1' already exists"))));
    assert_eq!(m.stage, Stage::Aborted);
}

#[test]
fn unreadable_latest_tag_aborts() {
    let (m, st) = through_tag_discovery("patch", Some("release-1"));
    assert_eq!(st.action, Action::Fail(ReleaseError::InvalidVersionFormat(s("release-1"))));
    assert_eq!(m.stage, Stage::Aborted);
}

#[test]
fn overflowing_bump_aborts() {
    let (_, st) = through_tag_discovery("major", Some("v18446744073709551615.0.0"));
    assert_eq!(st.action, Action::Fail(ReleaseError::VersionOverflow));
}

#[test]
fn events_out_of_order_are_not_accepted() {
    let (m, _) = Release::start("patch").unwrap();
    assert!(m.accepts(&Event::Branches { current: s("a"), upstream: s("a") }));
    assert!(!m.accepts(&Event::Pulled(Ok(()))));
    assert!(!m.accepts(&Event::HookDone(Ok(()))));
}

#[test]
fn branch_check() {
    assert_eq!(check_branch("main", "main"), None);
    assert_eq!(check_branch("dev", "main"), Some(Advisory::NotOnDefaultBranch(s("main"))));
}

#[test]
fn repository_names() {
    assert_eq!(repo_name("/home/u/src/tool"), "tool");
    assert_eq!(repo_name("/home/u/src/tool//"), "tool");
    assert_eq!(repo_name("tool"), "tool");
    assert_eq!(repo_name("/"), "/");
    assert_eq!(repo_name(""), "");
}

#[test]
fn tag_message_layout() {
    assert_eq!(tag_message("tool", "v1.0.0", "Ann (2):\n  a\n  b"), "tool v1.0.0\n\nAnn (2):\n  a\n  b\n");
}

#[test]
fn hook_failure_carries_hint() {
    assert_eq!(hook_failure(s("boom")), ReleaseError::HookFailed(format!("boom{HINT}")));
}

#[test]
fn explicit_plain_target_names_the_release() {
    let (mut m, _) = through_tag_discovery("v2.5.0", Some("v1.0.0"));
    assert_eq!(m.next_tag, "v2.5.0");
    let st = m.step(Event::Shortlog { toplevel: s("/r/p"), log: s("l") });
    assert_eq!(st.action, Action::RunHook { old: s("v1.0.0"), new: s("v2.5.0") });
    let st = m.step(Event::HookDone(Ok(())));
    assert_eq!(st.action, Action::CreateTag { name: s("v2.5.0"), message: s("p v2.5.0\n\nl\n") });
}
