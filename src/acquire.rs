//! The decisions of locating, installing and caching the tool's executable,
//! written as a state machine. The caller performs each requested action
//! (file checks, PATH lookup, release query, clone, chmod, pruning) and hands
//! back its outcome as an event.
use vstd::prelude::*;
use vstd::string::*;
use crate::layout::{executable_path, path_in, version_dir_name, version_dir_of};

verus! {

/// Repository whose latest release is installed.
pub const RELEASE_REPO: &'static str = "xNaCly/sqleibniz";

/// Source URL that is cloned to install a version.
pub const REPO_URL: &'static str = "https://github.com/xNaCly/sqleibniz";

/// Why a resolution attempt failed.
pub enum ResolveError {
    /// The upstream release query failed.
    NetworkOrLookup(String),
    /// The clone could not be spawned or exited unsuccessfully.
    Acquisition(String),
    /// The installed binary could not be marked executable.
    Permission(String),
}

pub enum ResolveErrorView {
    NetworkOrLookup(Seq<char>),
    Acquisition(Seq<char>),
    Permission(Seq<char>),
}

impl View for ResolveError {
    type V = ResolveErrorView;

    open spec fn view(&self) -> ResolveErrorView {
        match self {
            ResolveError::NetworkOrLookup(m) => ResolveErrorView::NetworkOrLookup(m@),
            ResolveError::Acquisition(m) => ResolveErrorView::Acquisition(m@),
            ResolveError::Permission(m) => ResolveErrorView::Permission(m@),
        }
    }
}

/// What the manager asks its caller to do next.
pub enum Action {
    /// Report whether the path names an existing regular file.
    CheckFile(String),
    /// Look the binary name up on the worktree's PATH.
    FindOnPath(String),
    /// Report "checking for update", then query the latest release of the
    /// repository (first field); the second field says whether pre-releases
    /// count, the third whether a release must have assets attached.
    FetchLatestRelease(String, bool, bool),
    /// Report "downloading", then clone the source URL into the directory.
    CloneInto(String, String),
    /// Mark the file executable.
    MakeExecutable(String),
    /// Remove, best effort, every entry of the installation root that
    /// `layout::stale_entries` selects for this kept directory.
    Prune(String),
    /// Resolution succeeded with this executable path.
    Resolved(String),
    /// Resolution failed.
    Failed(ResolveError),
}

pub enum ActionView {
    CheckFile(Seq<char>),
    FindOnPath(Seq<char>),
    FetchLatestRelease(Seq<char>, bool, bool),
    CloneInto(Seq<char>, Seq<char>),
    MakeExecutable(Seq<char>),
    Prune(Seq<char>),
    Resolved(Seq<char>),
    Failed(ResolveErrorView),
}

impl View for Action {
    type V = ActionView;

    open spec fn view(&self) -> ActionView {
        match self {
            Action::CheckFile(p) => ActionView::CheckFile(p@),
            Action::FindOnPath(n) => ActionView::FindOnPath(n@),
            Action::FetchLatestRelease(r, p, a) => ActionView::FetchLatestRelease(r@, *p, *a),
            Action::CloneInto(u, d) => ActionView::CloneInto(u@, d@),
            Action::MakeExecutable(p) => ActionView::MakeExecutable(p@),
            Action::Prune(d) => ActionView::Prune(d@),
            Action::Resolved(p) => ActionView::Resolved(p@),
            Action::Failed(e) => ActionView::Failed(e@),
        }
    }
}

/// The outcome of an action, handed back to the manager.
pub enum Event {
    /// Whether the checked path is an existing regular file.
    FileChecked(bool),
    /// The PATH lookup's result.
    PathLookup(Option<String>),
    /// The latest release's version, or the query's error message.
    ReleaseFetched(Result<String, String>),
    /// Success of the clone, or its diagnostics.
    Cloned(Result<(), String>),
    /// Success of marking the binary executable, or the error message.
    MadeExecutable(Result<(), String>),
    /// Pruning ran; its failures are not reported.
    Pruned,
}

/// Where a resolution attempt stands.
#[derive(Clone, Copy, Debug, PartialEq, Eq, Structural)]
pub enum Stage {
    Idle,
    CheckingCache,
    LookingOnPath,
    FetchingRelease,
    CheckingInstalled,
    Cloning,
    MarkingExecutable,
    Pruning,
}

/// Owner of the cached executable path and of one resolution in progress.
pub struct ToolManager {
    cached: Option<String>,
    stage: Stage,
    binary: String,
    version_dir: String,
    exe: String,
}

pub struct ManagerView {
    pub cached: Option<Seq<char>>,
    pub stage: Stage,
    pub binary: Seq<char>,
    pub version_dir: Seq<char>,
    pub exe: Seq<char>,
}

impl View for ToolManager {
    type V = ManagerView;

    closed spec fn view(&self) -> ManagerView {
        ManagerView {
            cached: match self.cached {
                Some(p) => Some(p@),
                None => None,
            },
            stage: self.stage,
            binary: self.binary@,
            version_dir: self.version_dir@,
            exe: self.exe@,
        }
    }
}

/// The event that answers the action requested in `stage`.
pub open spec fn answers(stage: Stage, event: Event) -> bool {
    match stage {
        Stage::CheckingCache | Stage::CheckingInstalled => event is FileChecked,
        Stage::LookingOnPath => event is PathLookup,
        Stage::FetchingRelease => event is ReleaseFetched,
        Stage::Cloning => event is Cloned,
        Stage::MarkingExecutable => event is MadeExecutable,
        Stage::Pruning => event is Pruned,
        Stage::Idle => false,
    }
}

/// The view with only the stage changed.
pub open spec fn at_stage(v: ManagerView, s: Stage) -> ManagerView {
    ManagerView { stage: s, ..v }
}

/// The view after a resolution ends: idle, with the cache as given.
pub open spec fn finished(v: ManagerView, cached: Option<Seq<char>>) -> ManagerView {
    ManagerView { stage: Stage::Idle, cached, ..v }
}

/// The view while version `version` is being installed or checked.
pub open spec fn installing(v: ManagerView, version: Seq<char>) -> ManagerView {
    ManagerView {
        stage: Stage::CheckingInstalled,
        version_dir: version_dir_of(version),
        exe: path_in(version_dir_of(version), v.binary),
        ..v
    }
}

/// Starting a resolution for `binary`: re-check the cached path if there is
/// one, else look the binary up on PATH.
pub open spec fn start_spec(v: ManagerView, binary: Seq<char>) -> (ManagerView, ActionView) {
    match v.cached {
        Some(p) => (
            ManagerView { stage: Stage::CheckingCache, binary, ..v },
            ActionView::CheckFile(p),
        ),
        None => (
            ManagerView { stage: Stage::LookingOnPath, binary, ..v },
            ActionView::FindOnPath(binary),
        ),
    }
}

/// One step of a resolution: the state and the action that follow `event`.
pub open spec fn advance_spec(v: ManagerView, event: Event) -> (ManagerView, ActionView) {
    match v.stage {
        Stage::CheckingCache => {
            if event == Event::FileChecked(true) && v.cached is Some {
                (finished(v, v.cached), ActionView::Resolved(v.cached->0))
            } else {
                (at_stage(v, Stage::LookingOnPath), ActionView::FindOnPath(v.binary))
            }
        },
        Stage::LookingOnPath => match event {
            Event::PathLookup(Some(p)) => (finished(v, Some(p@)), ActionView::Resolved(p@)),
            _ => (at_stage(v, Stage::FetchingRelease), ActionView::FetchLatestRelease(RELEASE_REPO@, false, false)),
        },
        Stage::FetchingRelease => match event {
            Event::ReleaseFetched(Err(m)) => (
                finished(v, v.cached),
                ActionView::Failed(ResolveErrorView::NetworkOrLookup(m@)),
            ),
            Event::ReleaseFetched(Ok(ver)) => (installing(v, ver@), ActionView::CheckFile(installing(v, ver@).exe)),
            _ => (v, ActionView::Resolved(Seq::empty())),
        },
        Stage::CheckingInstalled => {
            if event == Event::FileChecked(true) {
                (finished(v, Some(v.exe)), ActionView::Resolved(v.exe))
            } else {
                (at_stage(v, Stage::Cloning), ActionView::CloneInto(REPO_URL@, v.version_dir))
            }
        },
        Stage::Cloning => match event {
            Event::Cloned(Err(m)) => (finished(v, v.cached), ActionView::Failed(ResolveErrorView::Acquisition(m@))),
            _ => (at_stage(v, Stage::MarkingExecutable), ActionView::MakeExecutable(v.exe)),
        },
        Stage::MarkingExecutable => match event {
            Event::MadeExecutable(Err(m)) => (finished(v, v.cached), ActionView::Failed(ResolveErrorView::Permission(m@))),
            _ => (at_stage(v, Stage::Pruning), ActionView::Prune(v.version_dir)),
        },
        Stage::Pruning => (finished(v, Some(v.exe)), ActionView::Resolved(v.exe)),
        Stage::Idle => (v, ActionView::Resolved(Seq::empty())),
    }
}

/// A cached path that still names a regular file is returned at once: the
/// first action is a check of that path, and when the check succeeds the
/// resolution ends with it, with no PATH lookup, release query or clone.
pub proof fn cache_hit_skips_lookup(v: ManagerView, binary: Seq<char>, p: Seq<char>)
    requires
        v.cached == Some(p),
    ensures
        start_spec(v, binary).1 == ActionView::CheckFile(p),
        advance_spec(start_spec(v, binary).0, Event::FileChecked(true)).1 == ActionView::Resolved(p),
        advance_spec(start_spec(v, binary).0, Event::FileChecked(true)).0.cached == Some(p),
        advance_spec(start_spec(v, binary).0, Event::FileChecked(true)).0.stage == Stage::Idle,
{
}

/// A stale cached path is never returned: when its check fails the binary is
/// looked up on PATH, and what follows is the PATH result or a query for the
/// latest release that is not a pre-release, assets not required.
pub proof fn stale_cache_falls_through(v: ManagerView, binary: Seq<char>, found: Option<String>)
    requires
        v.cached is Some,
    ensures
        advance_spec(start_spec(v, binary).0, Event::FileChecked(false)).1
            == ActionView::FindOnPath(binary),
        ({
            let after_check = advance_spec(start_spec(v, binary).0, Event::FileChecked(false)).0;
            let next = advance_spec(after_check, Event::PathLookup(found)).1;
            match found {
                Some(q) => next == ActionView::Resolved(q@),
                None => next == ActionView::FetchLatestRelease(RELEASE_REPO@, false, false),
            }
        }),
{
}

/// Installing is idempotent: once the release's version is known, an
/// executable already present in its directory is reused and cached, with no
/// clone.
pub proof fn installed_version_is_reused(v: ManagerView, version: String)
    requires
        v.stage == Stage::FetchingRelease,
    ensures
        ({
            let exe = path_in(version_dir_of(version@), v.binary);
            let checking = advance_spec(v, Event::ReleaseFetched(Ok(version)));
            &&& checking.1 == ActionView::CheckFile(exe)
            &&& advance_spec(checking.0, Event::FileChecked(true)).1 == ActionView::Resolved(exe)
            &&& advance_spec(checking.0, Event::FileChecked(true)).0.cached == Some(exe)
        }),
{
}

/// A failed clone surfaces the clone's diagnostics as an acquisition error,
/// leaves the cache as it was, and returns the manager to idle, from which a
/// new resolution starts afresh.
pub proof fn failed_clone_keeps_cache(v: ManagerView, message: String, binary: Seq<char>)
    requires
        v.stage == Stage::Cloning,
    ensures
        advance_spec(v, Event::Cloned(Err(message))).1
            == ActionView::Failed(ResolveErrorView::Acquisition(message@)),
        advance_spec(v, Event::Cloned(Err(message))).0.cached == v.cached,
        advance_spec(v, Event::Cloned(Err(message))).0.stage == Stage::Idle,
        start_spec(advance_spec(v, Event::Cloned(Err(message))).0, binary) == start_spec(v, binary),
{
    assert(advance_spec(v, Event::Cloned(Err(message))).0 == finished(v, v.cached));
}

/// A full installation of version `version` with no cache and no PATH hit:
/// the latest non-pre-release is queried without requiring assets, the repository is cloned into
/// `sqleibniz-<version>`, the binary in it is marked executable, every other
/// entry of the installation root is pruned, and the binary's path is cached
/// and returned.
pub proof fn full_install(v: ManagerView, binary: Seq<char>, version: String)
    requires
        v.cached is None,
    ensures
        ({
            let dir = version_dir_of(version@);
            let exe = path_in(dir, binary);
            let s0 = start_spec(v, binary);
            let s1 = advance_spec(s0.0, Event::PathLookup(None));
            let s2 = advance_spec(s1.0, Event::ReleaseFetched(Ok(version)));
            let s3 = advance_spec(s2.0, Event::FileChecked(false));
            let s4 = advance_spec(s3.0, Event::Cloned(Ok(())));
            let s5 = advance_spec(s4.0, Event::MadeExecutable(Ok(())));
            let s6 = advance_spec(s5.0, Event::Pruned);
            &&& s0.1 == ActionView::FindOnPath(binary)
            &&& s1.1 == ActionView::FetchLatestRelease(RELEASE_REPO@, false, false)
            &&& s2.1 == ActionView::CheckFile(exe)
            &&& s3.1 == ActionView::CloneInto(REPO_URL@, dir)
            &&& s4.1 == ActionView::MakeExecutable(exe)
            &&& s5.1 == ActionView::Prune(dir)
            &&& s6.1 == ActionView::Resolved(exe)
            &&& s6.0.cached == Some(exe)
            &&& s6.0.stage == Stage::Idle
        }),
{
}

impl ToolManager {
    /// A manager with no cached path and no resolution in progress.
    pub fn new() -> (r: ToolManager)
        ensures
            r@.cached is None,
            r@.stage == Stage::Idle,
    {
        ToolManager {
            cached: None,
            stage: Stage::Idle,
            binary: String::new(),
            version_dir: String::new(),
            exe: String::new(),
        }
    }

    /// The cached executable path, if any.
    pub fn cached_path(&self) -> (r: Option<String>)
        ensures
            r matches Some(p) ==> self@.cached == Some(p@),
            r is None <==> self@.cached is None,
    {
        match &self.cached {
            Some(p) => Some(p.clone()),
            None => None,
        }
    }

    /// Whether `event` answers the action this manager last requested.
    pub fn expects(&self, event: &Event) -> (r: bool)
        ensures
            r == answers(self@.stage, *event),
    {
        match self.stage {
            Stage::CheckingCache | Stage::CheckingInstalled => matches!(event, Event::FileChecked(_)),
            Stage::LookingOnPath => matches!(event, Event::PathLookup(_)),
            Stage::FetchingRelease => matches!(event, Event::ReleaseFetched(_)),
            Stage::Cloning => matches!(event, Event::Cloned(_)),
            Stage::MarkingExecutable => matches!(event, Event::MadeExecutable(_)),
            Stage::Pruning => matches!(event, Event::Pruned),
            Stage::Idle => false,
        }
    }

    /// Begins a resolution for the platform's binary name. A cached path is
    /// re-checked first; without one the binary is looked up on PATH.
    pub fn start(&mut self, binary_name: String) -> (r: Action)
        ensures
            (final(self)@, r@) == start_spec(old(self)@, binary_name@),
    {
        self.binary = binary_name;
        match &self.cached {
            Some(p) => {
                self.stage = Stage::CheckingCache;
                Action::CheckFile(p.clone())
            },
            None => {
                self.stage = Stage::LookingOnPath;
                Action::FindOnPath(self.binary.clone())
            },
        }
    }

    /// Takes the outcome of the last requested action and decides the next
    /// one. The cache changes only when a resolution succeeds: on a PATH hit,
    /// on finding the version already installed, or after clone, chmod and
    /// pruning all completed.
    pub fn advance(&mut self, event: Event) -> (r: Action)
        requires
            answers(old(self)@.stage, event),
        ensures
            (final(self)@, r@) == advance_spec(old(self)@, event),
    {
        match self.stage {
            Stage::CheckingCache => {
                let hit = match (&event, &self.cached) {
                    (Event::FileChecked(true), Some(p)) => Some(p.clone()),
                    _ => None,
                };
                match hit {
                    Some(p) => {
                        self.stage = Stage::Idle;
                        Action::Resolved(p)
                    },
                    None => {
                        self.stage = Stage::LookingOnPath;
                        Action::FindOnPath(self.binary.clone())
                    },
                }
            },
            Stage::LookingOnPath => match event {
                Event::PathLookup(Some(p)) => {
                    self.stage = Stage::Idle;
                    self.cached = Some(p.clone());
                    Action::Resolved(p)
                },
                _ => {
                    self.stage = Stage::FetchingRelease;
                    Action::FetchLatestRelease(String::from_str(RELEASE_REPO), false, false)
                },
            },
            Stage::FetchingRelease => match event {
                Event::ReleaseFetched(Ok(version)) => {
                    let dir = version_dir_name(version.as_str());
                    let exe = executable_path(dir.as_str(), self.binary.as_str());
                    self.version_dir = dir;
                    self.exe = exe.clone();
                    self.stage = Stage::CheckingInstalled;
                    Action::CheckFile(exe)
                },
                Event::ReleaseFetched(Err(m)) => {
                    self.stage = Stage::Idle;
                    Action::Failed(ResolveError::NetworkOrLookup(m))
                },
                _ => {
                    proof {
                        assert(false);
                    }
                    Action::Resolved(String::new())
                },
            },
            Stage::CheckingInstalled => match event {
                Event::FileChecked(true) => {
                    self.stage = Stage::Idle;
                    self.cached = Some(self.exe.clone());
                    Action::Resolved(self.exe.clone())
                },
                _ => {
                    self.stage = Stage::Cloning;
                    Action::CloneInto(String::from_str(REPO_URL), self.version_dir.clone())
                },
            },
            Stage::Cloning => match event {
                Event::Cloned(Err(m)) => {
                    self.stage = Stage::Idle;
                    Action::Failed(ResolveError::Acquisition(m))
                },
                _ => {
                    self.stage = Stage::MarkingExecutable;
                    Action::MakeExecutable(self.exe.clone())
                },
            },
            Stage::MarkingExecutable => match event {
                Event::MadeExecutable(Err(m)) => {
                    self.stage = Stage::Idle;
                    Action::Failed(ResolveError::Permission(m))
                },
                _ => {
                    self.stage = Stage::Pruning;
                    Action::Prune(self.version_dir.clone())
                },
            },
            Stage::Pruning => {
                self.stage = Stage::Idle;
                self.cached = Some(self.exe.clone());
                Action::Resolved(self.exe.clone())
            },
            Stage::Idle => {
                proof {
                    assert(false);
                }
                Action::Resolved(String::new())
            },
        }
    }
}

} // verus!
