use crate::tool::{args_of, args_view, text, Action, Git, Invocation, Next, Outcome};
use vstd::prelude::*;
use vstd::string::StringExecFns;

verus! {

/// A failure of a repository operation, with the diagnostic of the step that
/// failed.
#[derive(Debug)]
pub enum Error {
    FetchFailed(String),
    RevParseLocalFailed(String),
    RevParseRemoteFailed(String),
    LogFailed(String),
    ParentDirCreationFailed { path: String, message: String },
    CloneFailed(String),
    ResetFailed(String),
    CleanFailed(String),
}

/// Whether a local checkout matches its upstream.
#[derive(Clone, Copy, Debug, PartialEq, Eq, Structural)]
pub enum Status {
    Stale,
    Fresh,
}

impl Status {
    pub fn stale(self) -> (r: bool)
        ensures
            r == (self == Status::Stale),
    {
        match self {
            Status::Stale => true,
            Status::Fresh => false,
        }
    }
}

/// Where a freshness check stands.
#[derive(Debug)]
pub enum StatusStage {
    Fetching,
    ReadingLocal,
    ReadingUpstream { local: String },
}

/// Where an update stands.
#[derive(Debug)]
pub enum UpdateStage {
    CreatingParent { parent: String, url: String },
    Cloning,
    Fetching,
    Resetting,
    Cleaning,
}

/// A local checkout, known by its path.
#[derive(Clone, Debug)]
pub struct Repo {
    path: String,
}

/// The text of a successful outcome; empty for any other.
pub open spec fn output_of(o: Outcome) -> Seq<char> {
    match o {
        Outcome::Output(s) => s@,
        _ => Seq::empty(),
    }
}

fn output_text(o: Outcome) -> (r: String)
    ensures
        r@ == output_of(o),
{
    match o {
        Outcome::Output(s) => s,
        _ => String::new(),
    }
}

pub uninterp spec fn trim_of(s: Seq<char>) -> Seq<char>;

/// Relies on `str::trim`: the text without leading and trailing whitespace,
/// which depends on the text alone.
#[verifier::external_body]
fn trimmed(s: &str) -> (r: String)
    ensures
        r@ == trim_of(s@),
{
    s.trim().to_owned()
}

/// A shallow fetch of the current branch.
pub open spec fn fetch_shallow() -> Seq<Seq<char>> {
    seq!["fetch"@, "--depth"@, "1"@]
}

/// A shallow, single-branch clone of `url` into `path`.
pub open spec fn clone_args(url: Seq<char>, path: Seq<char>) -> Seq<Seq<char>> {
    seq!["clone"@, "--depth"@, "1"@, "--single-branch"@, url, path]
}

/// A hard reset of working tree and index to the remote's `master`.
pub open spec fn reset_args() -> Seq<Seq<char>> {
    seq!["reset"@, "--hard"@, "origin/master"@]
}

/// A forced clean of untracked files and directories that spares `/target`.
pub open spec fn clean_args() -> Seq<Seq<char>> {
    seq!["clean"@, "-dfx"@, "--exclude"@, "/target"@]
}

impl Repo {
    pub closed spec fn path_view(&self) -> Seq<char> {
        self.path@
    }

    pub fn from_path(path: &str) -> (r: Repo)
        ensures
            r.path_view() == path@,
    {
        Repo { path: text(path) }
    }

    pub fn path(&self) -> (r: &str)
        ensures
            r@ == self.path_view(),
    {
        self.path.as_str()
    }

    pub fn git(&self) -> (r: Git)
        ensures
            r.root_view() == self.path_view(),
    {
        Git::new(self.path())
    }

    /// Starts a freshness check. A path that is not a directory is stale
    /// at once, with nothing performed; otherwise the `origin` remote is
    /// fetched first.
    pub fn status(&self, is_dir: bool) -> (r: Next<StatusStage, Status, Error>)
        ensures
            !is_dir ==> r == Next::<StatusStage, Status, Error>::Done(Ok(Status::Stale)),
            is_dir ==> r.runs(self.path_view(), seq!["fetch"@, "origin"@], false)
                && r.stage() is Fetching,
    {
        if !is_dir {
            Next::Done(Ok(Status::Stale))
        } else {
            let args = args_of(&["fetch", "origin"]);
            assert(args_view(args@) =~= seq!["fetch"@, "origin"@]);
            let inv = self.git().command(args);
            Next::Perform(Action::Run(inv), StatusStage::Fetching)
        }
    }

    /// Takes a freshness check one step on: each failure ends it with the
    /// error of its stage, and the verdict is `Fresh` exactly when the local
    /// and upstream revisions read the same.
    pub fn status_step(&self, stage: StatusStage, outcome: Outcome) -> (r: Next<
        StatusStage,
        Status,
        Error,
    >)
        ensures
            match (stage, outcome) {
                (StatusStage::Fetching, Outcome::Failed(m)) => r matches Next::Done(
                    Err(Error::FetchFailed(e)),
                ) && e@ == m@,
                (StatusStage::Fetching, _) => r.runs(
                    self.path_view(),
                    seq!["rev-parse"@, "HEAD"@],
                    true,
                ) && r.stage() is ReadingLocal,
                (StatusStage::ReadingLocal, Outcome::Failed(m)) => r matches Next::Done(
                    Err(Error::RevParseLocalFailed(e)),
                ) && e@ == m@,
                (StatusStage::ReadingLocal, o) => r.runs(
                    self.path_view(),
                    seq!["rev-parse"@, "@{u}"@],
                    true,
                ) && (r.stage() matches StatusStage::ReadingUpstream { local } && local@
                    == output_of(o)),
                (StatusStage::ReadingUpstream { .. }, Outcome::Failed(m)) => r matches Next::Done(
                    Err(Error::RevParseRemoteFailed(e)),
                ) && e@ == m@,
                (StatusStage::ReadingUpstream { local }, o) => r == Next::<
                    StatusStage,
                    Status,
                    Error,
                >::Done(Ok(if local@ == output_of(o) { Status::Fresh } else { Status::Stale })),
            },
    {
        match stage {
            StatusStage::Fetching => match outcome {
                Outcome::Failed(m) => Next::Done(Err(Error::FetchFailed(m))),
                _ => {
                    let args = args_of(&["rev-parse", "HEAD"]);
                    assert(args_view(args@) =~= seq!["rev-parse"@, "HEAD"@]);
                    let inv = self.git().capture(args);
                    Next::Perform(Action::Run(inv), StatusStage::ReadingLocal)
                },
            },
            StatusStage::ReadingLocal => match outcome {
                Outcome::Failed(m) => Next::Done(Err(Error::RevParseLocalFailed(m))),
                o => {
                    let local = output_text(o);
                    let args = args_of(&["rev-parse", "@{u}"]);
                    assert(args_view(args@) =~= seq!["rev-parse"@, "@{u}"@]);
                    let inv = self.git().capture(args);
                    Next::Perform(Action::Run(inv), StatusStage::ReadingUpstream { local })
                },
            },
            StatusStage::ReadingUpstream { local } => match outcome {
                Outcome::Failed(m) => Next::Done(Err(Error::RevParseRemoteFailed(m))),
                o => {
                    let upstream = output_text(o);
                    if local == upstream {
                        Next::Done(Ok(Status::Fresh))
                    } else {
                        Next::Done(Ok(Status::Stale))
                    }
                },
            },
        }
    }
    /// The query for the latest commit, rendered with a `--pretty` format.
    pub fn latest_commit(&self, format: &str) -> (r: Invocation)
        ensures
            r.is(self.path_view(), seq!["log"@, "-1"@, "--pretty="@ + format@], true),
    {
        let pretty = text("--pretty=").concat(format);
        let args = args_of(&["log", "-1", pretty.as_str()]);
        assert(args_view(args@) =~= seq!["log"@, "-1"@, "--pretty="@ + format@]);
        self.git().capture(args)
    }

    /// The query for the subject line of the latest commit.
    pub fn latest_subject(&self) -> (r: Invocation)
        ensures
            r.is(self.path_view(), seq!["log"@, "-1"@, "--pretty="@ + "%s"@], true),
    {
        self.latest_commit("%s")
    }

    /// The query for the body of the latest commit.
    pub fn latest_body(&self) -> (r: Invocation)
        ensures
            r.is(self.path_view(), seq!["log"@, "-1"@, "--pretty="@ + "%b"@], true),
    {
        self.latest_commit("%b")
    }

    /// Reads the outcome of a latest-commit query: its output without
    /// surrounding whitespace, or the failure.
    pub fn commit_text(outcome: Outcome) -> (r: Result<String, Error>)
        ensures
            match outcome {
                Outcome::Failed(m) => r matches Err(Error::LogFailed(e)) && e@ == m@,
                o => r matches Ok(t) && t@ == trim_of(output_of(o)),
            },
    {
        match outcome {
            Outcome::Failed(m) => Err(Error::LogFailed(m)),
            o => {
                let out = output_text(o);
                Ok(trimmed(out.as_str()))
            },
        }
    }

    /// Starts an update from `url`. A missing checkout is cloned shallowly
    /// into `parent`, which is created first where it is missing; an
    /// existing one is fetched shallowly first.
    pub fn update(&self, url: &str, is_dir: bool, parent: &str, parent_is_dir: bool) -> (r: Next<
        UpdateStage,
        (),
        Error,
    >)
        ensures
            is_dir ==> r.runs(self.path_view(), fetch_shallow(), false) && r.stage() is Fetching,
            !is_dir && parent_is_dir ==> r.runs(parent@, clone_args(url@, self.path_view()), false)
                && r.stage() is Cloning,
            !is_dir && !parent_is_dir ==> (r matches Next::Perform(
                Action::CreateDirAll(d),
                UpdateStage::CreatingParent { parent: p, url: u },
            ) && d@ == parent@ && p@ == parent@ && u@ == url@),
    {
        if is_dir {
            let args = args_of(&["fetch", "--depth", "1"]);
            assert(args_view(args@) =~= fetch_shallow());
            Next::Perform(Action::Run(self.git().command(args)), UpdateStage::Fetching)
        } else if parent_is_dir {
            Next::Perform(Action::Run(self.clone_into(url, parent)), UpdateStage::Cloning)
        } else {
            Next::Perform(
                Action::CreateDirAll(text(parent)),
                UpdateStage::CreatingParent { parent: text(parent), url: text(url) },
            )
        }
    }

    fn clone_into(&self, url: &str, parent: &str) -> (r: Invocation)
        ensures
            r.is(parent@, clone_args(url@, self.path_view()), false),
    {
        let args = args_of(&["clone", "--depth", "1", "--single-branch", url, self.path()]);
        assert(args_view(args@) =~= clone_args(url@, self.path_view()));
        Git::new(parent).command(args)
    }

    /// Takes an update one step on: an existing checkout is fetched, reset
    /// hard to `origin/master`, then cleaned of everything untracked but
    /// `/target`; each failure ends the update with the error of its step.
    pub fn update_step(&self, stage: UpdateStage, outcome: Outcome) -> (r: Next<
        UpdateStage,
        (),
        Error,
    >)
        ensures
            match (stage, outcome) {
                (UpdateStage::CreatingParent { parent, .. }, Outcome::Failed(m)) => r matches Next::Done(
                    Err(Error::ParentDirCreationFailed { path, message }),
                ) && path@ == parent@ && message@ == m@,
                (UpdateStage::CreatingParent { parent, url }, _) => r.runs(
                    parent@,
                    clone_args(url@, self.path_view()),
                    false,
                ) && r.stage() is Cloning,
                (UpdateStage::Cloning, Outcome::Failed(m)) => r matches Next::Done(
                    Err(Error::CloneFailed(e)),
                ) && e@ == m@,
                (UpdateStage::Fetching, Outcome::Failed(m)) => r matches Next::Done(
                    Err(Error::FetchFailed(e)),
                ) && e@ == m@,
                (UpdateStage::Fetching, _) => r.runs(self.path_view(), reset_args(), false)
                    && r.stage() is Resetting,
                (UpdateStage::Resetting, Outcome::Failed(m)) => r matches Next::Done(
                    Err(Error::ResetFailed(e)),
                ) && e@ == m@,
                (UpdateStage::Resetting, _) => r.runs(self.path_view(), clean_args(), false)
                    && r.stage() is Cleaning,
                (UpdateStage::Cleaning, Outcome::Failed(m)) => r matches Next::Done(
                    Err(Error::CleanFailed(e)),
                ) && e@ == m@,
                (_, _) => r == Next::<UpdateStage, (), Error>::Done(Ok(())),
            },
    {
        match stage {
            UpdateStage::CreatingParent { parent, url } => match outcome {
                Outcome::Failed(m) => Next::Done(
                    Err(Error::ParentDirCreationFailed { path: parent, message: m }),
                ),
                _ => Next::Perform(
                    Action::Run(self.clone_into(url.as_str(), parent.as_str())),
                    UpdateStage::Cloning,
                ),
            },
            UpdateStage::Cloning => match outcome {
                Outcome::Failed(m) => Next::Done(Err(Error::CloneFailed(m))),
                _ => Next::Done(Ok(())),
            },
            UpdateStage::Fetching => match outcome {
                Outcome::Failed(m) => Next::Done(Err(Error::FetchFailed(m))),
                _ => {
                    let args = args_of(&["reset", "--hard", "origin/master"]);
                    assert(args_view(args@) =~= reset_args());
                    Next::Perform(Action::Run(self.git().command(args)), UpdateStage::Resetting)
                },
            },
            UpdateStage::Resetting => match outcome {
                Outcome::Failed(m) => Next::Done(Err(Error::ResetFailed(m))),
                _ => {
                    let args = args_of(&["clean", "-dfx", "--exclude", "/target"]);
                    assert(args_view(args@) =~= clean_args());
                    Next::Perform(Action::Run(self.git().command(args)), UpdateStage::Cleaning)
                },
            },
            UpdateStage::Cleaning => match outcome {
                Outcome::Failed(m) => Next::Done(Err(Error::CleanFailed(m))),
                _ => Next::Done(Ok(())),
            },
        }
    }
}

} // verus!
