//! The release driver: the decisions of cutting a release, as a state machine
//! from events (what git and the version hook reported) to actions (what to
//! run next). The caller performs each action and hands back its outcome.
use vstd::prelude::*;
use vstd::string::*;
use crate::version::{
    bumped_tag, decimal, lemma_plain_tag_text, parse_outcome, parse_target, parse_version, same_text, target_outcome,
    triple_text, version_parsed, BumpTarget, ReleaseError, Version,
};

verus! {

/// A condition worth reporting that does not stop the release.
#[derive(Debug, PartialEq, Eq)]
pub enum Advisory {
    /// The current branch is not the remote's default branch, which is held.
    NotOnDefaultBranch(String),
    /// The repository has no tag; `v0.0.0` stands for the latest release.
    NoTagsDefaultedToZero,
}

/// Compares the current branch with the remote's default branch. A mismatch
/// is only advisory: a release may deliberately be cut elsewhere.
pub fn check_branch(current: &str, upstream_default: &str) -> (r: Option<Advisory>)
    ensures
        r is None <==> current@ == upstream_default@,
        r is Some ==> (r matches Some(Advisory::NotOnDefaultBranch(b)) && b@ == upstream_default@),
{
    if same_text(current, upstream_default) {
        None
    } else {
        Some(Advisory::NotOnDefaultBranch(String::from_str(upstream_default)))
    }
}

/// `s` without its trailing `/` characters.
pub open spec fn trim_slashes(s: Seq<char>) -> Seq<char>
    decreases s.len(),
{
    if s.len() > 0 && s.last() == '/' {
        trim_slashes(s.drop_last())
    } else {
        s
    }
}

/// The characters of `s` after its last `/` (all of `s` when it has none).
pub open spec fn last_component(s: Seq<char>) -> Seq<char>
    decreases s.len(),
{
    if s.len() == 0 || s.last() == '/' {
        Seq::empty()
    } else {
        last_component(s.drop_last()).push(s.last())
    }
}

/// The last component of a path, trailing slashes ignored; the root `/`
/// when the path is made of slashes only.
pub open spec fn base_name(path: Seq<char>) -> Seq<char> {
    if path.len() > 0 && trim_slashes(path).len() == 0 {
        seq!['/']
    } else {
        last_component(trim_slashes(path))
    }
}

/// The display name of a repository: the last component of its top-level
/// directory.
pub fn repo_name(toplevel: &str) -> (r: String)
    ensures
        r@ == base_name(toplevel@),
{
    let n = toplevel.unicode_len();
    let mut end: usize = n;
    assert(toplevel@.subrange(0, n as int) =~= toplevel@);
    while end > 0 && toplevel.get_char(end - 1) == '/'
        invariant
            n == toplevel@.len(),
            end <= n,
            trim_slashes(toplevel@) == trim_slashes(toplevel@.subrange(0, end as int)),
        decreases end,
    {
        assert(toplevel@.subrange(0, end as int).drop_last() =~= toplevel@.subrange(
            0,
            end - 1,
        ));
        end = end - 1;
    }
    let ghost trimmed = toplevel@.subrange(0, end as int);
    assert(trim_slashes(toplevel@) == trimmed);
    if n > 0 && end == 0 {
        proof {
            reveal_strlit("/");
        }
        let r = String::from_str("/");
        assert(r@ =~= seq!['/']);
        return r;
    }
    let mut start: usize = end;
    while start > 0 && toplevel.get_char(start - 1) != '/'
        invariant
            n == toplevel@.len(),
            start <= end <= n,
            trimmed == toplevel@.subrange(0, end as int),
            last_component(trimmed) == last_component(toplevel@.subrange(0, start as int))
                + toplevel@.subrange(start as int, end as int),
        decreases start,
    {
        let ghost pre = toplevel@.subrange(0, start as int);
        assert(pre.drop_last() =~= toplevel@.subrange(0, start - 1));
        assert(toplevel@.subrange(start - 1, end as int) =~= seq![pre.last()]
            + toplevel@.subrange(start as int, end as int));
        assert(last_component(pre) == last_component(pre.drop_last()).push(pre.last()));
        assert(last_component(pre.drop_last()).push(pre.last()) + toplevel@.subrange(
            start as int,
            end as int,
        ) =~= last_component(pre.drop_last()) + (seq![pre.last()] + toplevel@.subrange(
            start as int,
            end as int,
        )));
        start = start - 1;
    }
    assert(last_component(toplevel@.subrange(0, start as int)) =~= Seq::<char>::empty());
    let r = String::from_str(toplevel.substring_char(start, end));
    assert(r@ =~= base_name(toplevel@));
    r
}


/// The remediation hint appended to a failed hook's message.
pub open spec fn hook_hint() -> Seq<char> {
    ".\nDoes this project have any specific release requirements?"@
}

/// The tag message: a header line `{repo} {tag}`, a blank line, the
/// shortlog, and a final newline.
pub open spec fn tag_message_text(repo: Seq<char>, tag: Seq<char>, shortlog: Seq<char>) -> Seq<char> {
    repo + " "@ + tag + "\n\n"@ + shortlog + "\n"@
}

/// The text of the sentinel tag that stands in when no tag exists.
pub open spec fn zero_tag() -> Seq<char> {
    "v0.0.0"@
}

/// Builds the tag message: a header line `{repo} {tag}`, a blank line, the
/// shortlog, and a final newline.
pub fn tag_message(repo: &str, tag: &str, shortlog: &str) -> (r: String)
    ensures
        r@ == tag_message_text(repo@, tag@, shortlog@),
{
    let mut out = String::from_str(repo);
    out.append(" ");
    out.append(tag);
    out.append("\n\n");
    out.append(shortlog);
    out.append("\n");
    out
}

/// The error for a failed version hook: its message followed by the
/// remediation hint.
pub fn hook_failure(message: String) -> (r: ReleaseError)
    ensures
        r matches ReleaseError::HookFailed(h) && h@ == message@ + hook_hint(),
{
    let mut h = message;
    h.append(".\nDoes this project have any specific release requirements?");
    ReleaseError::HookFailed(h)
}

/// Where a release run stands: the last step it completed.
#[derive(Debug, PartialEq, Eq)]
pub enum Stage {
    Start,
    BranchChecked,
    Updated,
    VersionComputed,
    ShortlogBuilt,
    HookRun,
    Tagged,
    Aborted,
}

/// What the caller observed while performing the last action.
#[derive(Debug, PartialEq, Eq)]
pub enum Event {
    /// The current branch and the remote's default branch.
    Branches { current: String, upstream: String },
    /// The outcome of bringing the branch up to date with upstream.
    Pulled(Result<(), String>),
    /// The most recent tag reachable from the tip, if any.
    LatestTag(Option<String>),
    /// The repository's top-level directory and the non-merge commit
    /// summary by author since the latest tag.
    Shortlog { toplevel: String, log: String },
    /// The outcome of the version hook.
    HookDone(Result<(), String>),
    /// The outcome of creating the tag.
    TagDone(Result<(), String>),
}

/// What the caller is to do next.
#[derive(Debug, PartialEq, Eq)]
pub enum Action {
    /// Read the current branch and the remote's default branch.
    QueryBranches,
    /// Bring the branch up to date with upstream.
    Pull,
    /// Find the most recent tag reachable from the tip.
    QueryLatestTag,
    /// Summarise non-merge commits by author since the tag, or over the
    /// whole history when there is none.
    QueryShortlog { since: Option<String> },
    /// Run the version hook with the old and the new version.
    RunHook { old: String, new: String },
    /// Create the annotated tag `name` with `message`, opened for editing.
    CreateTag { name: String, message: String },
    /// The release is tagged; nothing is left to do.
    Finish,
    /// The release is abandoned with this error.
    Fail(ReleaseError),
}

/// An action, with an advisory to report before it.
#[derive(Debug, PartialEq, Eq)]
pub struct Step {
    pub advisory: Option<Advisory>,
    pub action: Action,
}

/// The state of one release run.
#[derive(Debug, PartialEq, Eq)]
pub struct Release {
    pub stage: Stage,
    /// How the next version is chosen.
    pub target: BumpTarget,
    /// The latest tag, or the sentinel `v0.0.0`; set once it is discovered.
    pub latest_tag: String,
    /// The tag of the next version; set once it is computed.
    pub next_tag: String,
    /// The tag message; set once the shortlog is in.
    pub message: String,
}

impl Release {
    /// Whether `e` is the outcome of the action that the run is waiting on.
    pub open spec fn expects(&self, e: Event) -> bool {
        match e {
            Event::Branches { .. } => self.stage is Start,
            Event::Pulled(_) => self.stage is BranchChecked,
            Event::LatestTag(_) => self.stage is Updated,
            Event::Shortlog { .. } => self.stage is VersionComputed,
            Event::HookDone(_) => self.stage is ShortlogBuilt,
            Event::TagDone(_) => self.stage is HookRun,
        }
    }

    /// Whether the run is over, tagged or abandoned.
    pub open spec fn is_done(&self) -> bool {
        self.stage is Tagged || self.stage is Aborted
    }

    /// Begins a run towards `target`. An unreadable target fails here,
    /// before anything touches the repository; otherwise the first action
    /// is to read the branches.
    pub fn start(target: &str) -> (r: Result<(Release, Action), ReleaseError>)
        ensures
            r is Ok ==> ({
                let (m, a) = r->Ok_0;
                &&& target_outcome(target@, Ok(m.target))
                &&& m.stage is Start
                &&& a is QueryBranches
            }),
            r is Err ==> target_outcome(target@, Err(r->Err_0)),
    {
        match parse_target(target) {
            Ok(t) => {
                let m = Release {
                    stage: Stage::Start,
                    target: t,
                    latest_tag: String::new(),
                    next_tag: String::new(),
                    message: String::new(),
                };
                Ok((m, Action::QueryBranches))
            },
            Err(e) => Err(e),
        }
    }

    /// Whether the run is waiting on `e`.
    pub fn accepts(&self, e: &Event) -> (r: bool)
        ensures
            r == self.expects(*e),
    {
        match e {
            Event::Branches { .. } => matches!(self.stage, Stage::Start),
            Event::Pulled(_) => matches!(self.stage, Stage::BranchChecked),
            Event::LatestTag(_) => matches!(self.stage, Stage::Updated),
            Event::Shortlog { .. } => matches!(self.stage, Stage::VersionComputed),
            Event::HookDone(_) => matches!(self.stage, Stage::ShortlogBuilt),
            Event::TagDone(_) => matches!(self.stage, Stage::HookRun),
        }
    }

    fn abort(&mut self, e: ReleaseError) -> (s: Step)
        ensures
            *final(self) == (Release { stage: Stage::Aborted, ..*old(self) }),
            s.advisory is None,
            s.action == Action::Fail(e),
    {
        self.stage = Stage::Aborted;
        Step { advisory: None, action: Action::Fail(e) }
    }
}


/// The parts of the latest version, given the latest tag: the sentinel
/// `0.0.0` when there is none, else what parsing the tag yields.
pub open spec fn latest_parts(tag: Option<String>) -> Option<(u64, u64, u64, Seq<char>, Seq<char>)> {
    match tag {
        Some(t) => version_parsed(t@),
        None => Some((0u64, 0u64, 0u64, Seq::<char>::empty(), Seq::<char>::empty())),
    }
}

/// What discovering the latest tag `tag` does to a run: report the sentinel
/// when there is no tag, then either abort (an unreadable tag, an overflowing
/// bump) or fix the latest and the next tag and ask for the shortlog since
/// the latest tag (over the whole history when there is none).
pub open spec fn discovery(pre: Release, tag: Option<String>, post: Release, s: Step) -> bool {
    &&& tag is None ==> (s.advisory matches Some(Advisory::NoTagsDefaultedToZero))
    &&& tag is Some ==> s.advisory is None
    &&& match latest_parts(tag) {
        None => post == (Release { stage: Stage::Aborted, ..pre }) && (s.action matches Action::Fail(
            ReleaseError::InvalidVersionFormat(f),
        ) && f@ == tag->Some_0@),
        Some(p) => match bumped_tag(pre.target, p) {
            None => post == (Release { stage: Stage::Aborted, ..pre }) && (s.action matches Action::Fail(
                ReleaseError::VersionOverflow,
            )),
            Some(next) => {
                &&& post.stage is VersionComputed
                &&& post.target == pre.target
                &&& post.message == pre.message
                &&& post.next_tag@ == next
                &&& post.latest_tag@ == if tag is Some {
                    tag->Some_0@
                } else {
                    zero_tag()
                }
                &&& s.action == (Action::QueryShortlog { since: tag })
            },
        },
    }
}

/// What handling event `e` does to a run in state `pre`: `post` is the new
/// state and `s` the step handed back.
pub open spec fn transition(pre: Release, e: Event, post: Release, s: Step) -> bool {
    match e {
        Event::Branches { current, upstream } => {
            &&& post == (Release { stage: Stage::BranchChecked, ..pre })
            &&& s.action is Pull
            &&& s.advisory is None <==> current@ == upstream@
            &&& s.advisory is Some ==> (s.advisory matches Some(Advisory::NotOnDefaultBranch(b))
                && b@ == upstream@)
        },
        Event::Pulled(Ok(())) => {
            &&& post == (Release { stage: Stage::Updated, ..pre })
            &&& s.advisory is None
            &&& s.action is QueryLatestTag
        },
        Event::Pulled(Err(m)) => {
            &&& post == (Release { stage: Stage::Aborted, ..pre })
            &&& s.advisory is None
            &&& s.action matches Action::Fail(ReleaseError::PullFailed(f)) && f@ == m@
        },
        Event::LatestTag(tag) => discovery(pre, tag, post, s),
        Event::Shortlog { toplevel, log } => {
            &&& post.stage is ShortlogBuilt
            &&& post.target == pre.target
            &&& post.latest_tag == pre.latest_tag
            &&& post.next_tag == pre.next_tag
            &&& post.message@ == tag_message_text(base_name(toplevel@), pre.next_tag@, log@)
            &&& s.advisory is None
            &&& s.action matches Action::RunHook { old, new } && old@ == pre.latest_tag@ && new@
                == pre.next_tag@
        },
        Event::HookDone(Ok(())) => {
            &&& post == (Release { stage: Stage::HookRun, ..pre })
            &&& s.advisory is None
            &&& s.action matches Action::CreateTag { name, message } && name@ == pre.next_tag@
                && message@ == pre.message@
        },
        Event::HookDone(Err(m)) => {
            &&& post == (Release { stage: Stage::Aborted, ..pre })
            &&& s.advisory is None
            &&& s.action matches Action::Fail(ReleaseError::HookFailed(h)) && h@ == m@ + hook_hint()
        },
        Event::TagDone(Ok(())) => {
            &&& post == (Release { stage: Stage::Tagged, ..pre })
            &&& s.advisory is None
            &&& s.action is Finish
        },
        Event::TagDone(Err(m)) => {
            &&& post == (Release { stage: Stage::Aborted, ..pre })
            &&& s.advisory is None
            &&& s.action matches Action::Fail(ReleaseError::TagFailed(f)) && f@ == m@
        },
    }
}

impl Release {
    /// Handles the outcome of the last action and decides the next one.
    pub fn step(&mut self, e: Event) -> (s: Step)
        requires
            old(self).expects(e),
        ensures
            transition(*old(self), e, *final(self), s),
    {
        match e {
            Event::Branches { current, upstream } => {
                let advisory = check_branch(current.as_str(), upstream.as_str());
                self.stage = Stage::BranchChecked;
                Step { advisory, action: Action::Pull }
            },
            Event::Pulled(Ok(())) => {
                self.stage = Stage::Updated;
                Step { advisory: None, action: Action::QueryLatestTag }
            },
            Event::Pulled(Err(m)) => self.abort(ReleaseError::PullFailed(m)),
            Event::LatestTag(tag) => self.discover(tag),
            Event::Shortlog { toplevel, log } => {
                let name = repo_name(toplevel.as_str());
                self.message = tag_message(name.as_str(), self.next_tag.as_str(), log.as_str());
                self.stage = Stage::ShortlogBuilt;
                Step {
                    advisory: None,
                    action: Action::RunHook { old: self.latest_tag.clone(), new: self.next_tag.clone() },
                }
            },
            Event::HookDone(Ok(())) => {
                self.stage = Stage::HookRun;
                Step {
                    advisory: None,
                    action: Action::CreateTag {
                        name: self.next_tag.clone(),
                        message: self.message.clone(),
                    },
                }
            },
            Event::HookDone(Err(m)) => self.abort(hook_failure(m)),
            Event::TagDone(Ok(())) => {
                self.stage = Stage::Tagged;
                Step { advisory: None, action: Action::Finish }
            },
            Event::TagDone(Err(m)) => self.abort(ReleaseError::TagFailed(m)),
        }
    }

    fn discover(&mut self, tag: Option<String>) -> (s: Step)
        ensures
            discovery(*old(self), tag, *final(self), s),
    {
        let (latest, advisory) = match &tag {
            None => (Version::zero(), Some(Advisory::NoTagsDefaultedToZero)),
            Some(t) => match parse_version(t.as_str()) {
                Ok(v) => (v, None),
                Err(e) => {
                    return self.abort(e);
                },
            },
        };
        assert(latest_parts(tag) == Some(
            (latest.major, latest.minor, latest.patch, latest.pre@, latest.build@),
        )) by {
            if tag is None {
                assert(latest.pre@ =~= Seq::<char>::empty());
                assert(latest.build@ =~= Seq::<char>::empty());
            }
        }
        match self.target.apply(&latest) {
            Ok(next) => {
                let next_tag = next.to_tag();
                proof {
                    match self.target {
                        BumpTarget::Major => lemma_plain_tag_text(
                            next,
                            (latest.major + 1) as u64,
                            0,
                            0,
                        ),
                        BumpTarget::Minor => lemma_plain_tag_text(
                            next,
                            latest.major,
                            (latest.minor + 1) as u64,
                            0,
                        ),
                        BumpTarget::Patch => lemma_plain_tag_text(
                            next,
                            latest.major,
                            latest.minor,
                            (latest.patch + 1) as u64,
                        ),
                        BumpTarget::Explicit(_) => {},
                    }
                }
                let latest_tag = match &tag {
                    Some(t) => t.clone(),
                    None => String::from_str("v0.0.0"),
                };
                self.latest_tag = latest_tag;
                self.next_tag = next_tag;
                self.stage = Stage::VersionComputed;
                Step { advisory, action: Action::QueryShortlog { since: tag } }
            },
            Err(e) => {
                let mut s = self.abort(e);
                s.advisory = advisory;
                s
            },
        }
    }
}


/// With no tag in the repository, `v0.0.0` stands for the latest release: it
/// is reported, passed to the hook as the old version, and a `major` bump
/// from it gives `v1.0.0`.
pub proof fn lemma_no_tag_major_bump(pre: Release, post: Release, s: Step)
    requires
        pre.target is Major,
        transition(pre, Event::LatestTag(None), post, s),
    ensures
        s.advisory matches Some(Advisory::NoTagsDefaultedToZero),
        post.stage is VersionComputed,
        post.latest_tag@ == "v0.0.0"@,
        post.next_tag@ == "v1.0.0"@,
        s.action == (Action::QueryShortlog { since: None }),
{
    reveal_strlit("v0.0.0");
    reveal_strlit("v1.0.0");
    assert(decimal(1) =~= seq!['1']);
    assert(decimal(0) =~= seq!['0']);
    assert(seq!['v'] + triple_text(1, 0, 0) =~= "v1.0.0"@);
}

/// A run that is tagged or abandoned waits on no further event.
pub proof fn lemma_finished_run_accepts_nothing(m: Release, e: Event)
    requires
        m.is_done(),
    ensures
        !m.expects(e),
{
}


/// An explicit plain target `va.b.c` is released under exactly that name:
/// once the latest tag is found (or absent) and readable, it is the next tag,
/// the new version handed to the hook, and the name of the tag created.
pub proof fn lemma_explicit_target_round_trip(
    a: u64,
    b: u64,
    c: u64,
    started: Release,
    tag: Option<String>,
    computed: Release,
    s1: Step,
    toplevel: String,
    log: String,
    built: Release,
    s2: Step,
    hooked: Release,
    s3: Step,
)
    requires
        target_outcome(seq!['v'] + triple_text(a, b, c), Ok(started.target)),
        latest_parts(tag) is Some,
        transition(started, Event::LatestTag(tag), computed, s1),
        transition(computed, Event::Shortlog { toplevel, log }, built, s2),
        transition(built, Event::HookDone(Ok(())), hooked, s3),
    ensures
        computed.stage is VersionComputed,
        computed.next_tag@ == seq!['v'] + triple_text(a, b, c),
        s2.action matches Action::RunHook { new, .. } && new@ == seq!['v'] + triple_text(a, b, c),
        s3.action matches Action::CreateTag { name, .. } && name@ == seq!['v'] + triple_text(a, b, c),
{
    let text = seq!['v'] + triple_text(a, b, c);
    reveal_strlit("major");
    reveal_strlit("minor");
    reveal_strlit("patch");
    assert(text[0] == 'v');
    assert(text != "major"@ && text != "minor"@ && text != "patch"@) by {
        assert("major"@[0] != 'v');
        assert("minor"@[0] != 'v');
        assert("patch"@[0] != 'v');
    }
    let v = started.target->Explicit_0;
    assert(parse_outcome(text, Ok(v)));
    lemma_plain_tag_text(v, a, b, c);
}

} // verus!
