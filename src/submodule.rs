use crate::tool::{args_of, args_view, text, Action, Git, Next, Outcome};
use once_cell_regex::exports::regex::Regex;
use vstd::prelude::*;
use vstd::string::StringExecFns;

verus! {

/// The pattern a submodule's name is taken from when none is given: the run
/// of word characters before `.git` in its remote.
pub const NAME_PATTERN: &'static str = "(?P<name>\\w+)\\.git";

/// The capture group of `NAME_PATTERN` that holds the name.
pub const NAME_GROUP: &'static str = "name";

pub uninterp spec fn pattern_capture(pattern: Seq<char>, group: Seq<char>, text: Seq<char>) -> Option<Seq<char>>;

/// Relies on `regex::Regex` (as `once_cell_regex` re-exports it): compiles
/// `pattern` and returns the text of group `group` in its first match in
/// `text`, if any. A pattern that does not compile matches nothing.
#[verifier::external_body]
fn capture(pattern: &str, group: &str, text: &str) -> (r: Option<String>)
    ensures
        opt_view(r) == pattern_capture(pattern@, group@, text@),
{
    let re = Regex::new(pattern).ok()?;
    re.captures(text).and_then(|c| c.name(group)).map(|m| m.as_str().to_owned())
}

/// Whether `pat` occurs in `text` as a contiguous run.
pub open spec fn occurs_in(pat: Seq<char>, text: Seq<char>) -> bool {
    exists|i: int|
        0 <= i && i + pat.len() <= text.len() && #[trigger] text.subrange(i, i + pat.len()) == pat
}

/// Relies on `str::contains` with a `&str` pattern: true exactly when the
/// pattern matches a sub-slice of the text.
#[verifier::external_body]
fn contains(text: &str, pat: &str) -> (r: bool)
    ensures
        r == occurs_in(pat@, text@),
{
    text.contains(pat)
}

pub uninterp spec fn debug_of(s: Seq<char>) -> Seq<char>;

/// Relies on the `Debug` format of `str`: the text quoted and escaped, which
/// depends on the text alone.
#[verifier::external_body]
fn debug_quoted(s: &str) -> (r: String)
    ensures
        r@ == debug_of(s@),
{
    format!("{:?}", s)
}

pub uninterp spec fn path_join(base: Seq<char>, rel: Seq<char>) -> Seq<char>;

/// Relies on `Path::join`: `rel` taken relative to `base`, which depends on
/// the two paths alone.
#[verifier::external_body]
fn joined(base: &str, rel: &str) -> (r: String)
    ensures
        r@ == path_join(base@, rel@),
{
    std::path::Path::new(base).join(rel).to_string_lossy().into_owned()
}

pub open spec fn opt_view(o: Option<String>) -> Option<Seq<char>> {
    match o {
        Some(s) => Some(s@),
        None => None,
    }
}

/// The section header that names a submodule in the manifest and in the
/// local configuration.
pub open spec fn header_of(name: Seq<char>) -> Seq<char> {
    "[submodule "@ + debug_of(name) + "]"@
}

/// Whether a file's text, where the file exists, holds the section of `name`.
pub open spec fn has_section(file: Option<Seq<char>>, name: Seq<char>) -> bool {
    match file {
        Some(t) => occurs_in(header_of(name), t),
        None => false,
    }
}

/// The text of a file read, or `None` where the file was absent.
pub open spec fn file_of(o: Outcome) -> Option<Seq<char>> {
    match o {
        Outcome::Output(t) => Some(t@),
        _ => None,
    }
}

fn section_in(file: &Outcome, name: &str) -> (r: bool)
    ensures
        r == has_section(file_of(*file), name@),
{
    match file {
        Outcome::Output(t) => {
            let header = text("[submodule ").concat(debug_quoted(name).as_str()).concat("]");
            contains(t.as_str(), header.as_str())
        },
        _ => false,
    }
}

/// What went wrong in setting a submodule up.
#[derive(Debug)]
pub enum Source {
    NameMissing,
    IndexCheckFailed(String),
    InitCheckFailed(String),
    PathInvalidUtf8,
    AddFailed(String),
    InitFailed(String),
    CheckoutFailed { commit: String, source: String },
}

/// A failure to set a submodule up, with the submodule it concerned.
#[derive(Debug)]
pub struct Error {
    pub submodule: Submodule,
    pub source: Source,
}

/// A nested repository: its remote, its path relative to the parent
/// repository, and a name, given or taken from the remote.
#[derive(Clone, Debug)]
pub struct Submodule {
    name: Option<String>,
    remote: String,
    path: String,
}

/// Where setting a submodule up stands.
#[derive(Debug)]
#[allow(inconsistent_fields)]
pub enum InitStage {
    CheckingIndex { name: String, commit: Option<String> },
    Adding { commit: Option<String> },
    CheckingConfig { name: String, commit: Option<String> },
    Initializing { commit: Option<String> },
    CheckingOut { commit: String },
}

impl InitStage {
    /// The commit to pin, once the submodule is initialized.
    pub open spec fn pinned(self) -> Option<Seq<char>> {
        match self {
            InitStage::CheckingIndex { commit, .. } => opt_view(commit),
            InitStage::Adding { commit } => opt_view(commit),
            InitStage::CheckingConfig { commit, .. } => opt_view(commit),
            InitStage::Initializing { commit } => opt_view(commit),
            InitStage::CheckingOut { commit } => Some(commit@),
        }
    }
}

/// The arguments of a registration of `name` at `remote` and `path`.
pub open spec fn add_args(name: Seq<char>, remote: Seq<char>, path: Seq<char>) -> Seq<Seq<char>> {
    seq!["submodule"@, "add"@, "--name"@, name, remote, path]
}

/// The arguments of a recursive initialization and update.
pub open spec fn init_args() -> Seq<Seq<char>> {
    seq!["submodule"@, "update"@, "--init"@, "--recursive"@]
}

/// Whether `r` runs a checkout.
pub open spec fn checks_out<S, T, E>(r: Next<S, T, E>) -> bool {
    match r {
        Next::Perform(Action::Run(inv), _) => args_view(inv.args@).len() > 0 && args_view(
            inv.args@,
        )[0] == "checkout"@,
        _ => false,
    }
}

fn copy_opt(o: &Option<String>) -> (r: Option<String>)
    ensures
        r == *o,
{
    match o {
        Some(s) => Some(s.clone()),
        None => None,
    }
}

impl Submodule {
    pub closed spec fn name_given(&self) -> Option<Seq<char>> {
        opt_view(self.name)
    }

    pub closed spec fn remote_view(&self) -> Seq<char> {
        self.remote@
    }

    pub closed spec fn path_view(&self) -> Seq<char> {
        self.path@
    }

    /// The name in use: the one given, else the one the remote yields.
    pub open spec fn resolved_name(&self) -> Option<Seq<char>> {
        match self.name_given() {
            Some(n) => Some(n),
            None => pattern_capture(NAME_PATTERN@, NAME_GROUP@, self.remote_view()),
        }
    }

    pub fn with_remote_and_path(remote: &str, path: &str) -> (r: Submodule)
        ensures
            r.name_given() is None,
            r.remote_view() == remote@,
            r.path_view() == path@,
    {
        Submodule { name: None, remote: text(remote), path: text(path) }
    }

    /// The same submodule under an explicit name.
    pub fn with_name(self, name: &str) -> (r: Submodule)
        ensures
            r.name_given() == Some(name@),
            r.remote_view() == self.remote_view(),
            r.path_view() == self.path_view(),
    {
        Submodule { name: Some(text(name)), remote: self.remote, path: self.path }
    }

    /// The name given, if any: it is not derived here.
    pub fn given_name(&self) -> (r: Option<String>)
        ensures
            opt_view(r) == self.name_given(),
    {
        copy_opt(&self.name)
    }

    /// The name in use, derived from the remote afresh on each call where
    /// none was given.
    pub fn name(&self) -> (r: Option<String>)
        ensures
            opt_view(r) == self.resolved_name(),
    {
        match &self.name {
            Some(n) => Some(n.clone()),
            None => capture(NAME_PATTERN, NAME_GROUP, self.remote.as_str()),
        }
    }

    pub fn remote(&self) -> (r: &str)
        ensures
            r@ == self.remote_view(),
    {
        self.remote.as_str()
    }

    pub fn path(&self) -> (r: &str)
        ensures
            r@ == self.path_view(),
    {
        self.path.as_str()
    }

    fn duplicate(&self) -> (r: Submodule)
        ensures
            r == *self,
    {
        Submodule { name: copy_opt(&self.name), remote: self.remote.clone(), path: self.path.clone() }
    }

    fn fail(&self, source: Source) -> (r: Error)
        ensures
            r.submodule == *self,
            r.source == source,
    {
        Error { submodule: self.duplicate(), source }
    }

    /// Whether the manifest, as read, registers `name`.
    fn in_index(modules: &Outcome, name: &str) -> (r: bool)
        ensures
            r == has_section(file_of(*modules), name@),
    {
        section_in(modules, name)
    }

    /// Whether the local configuration, as read, initializes `name`.
    fn initialized(config: &Outcome, name: &str) -> (r: bool)
        ensures
            r == has_section(file_of(*config), name@),
    {
        section_in(config, name)
    }

    /// Whether `r` is the step that pins `commit` in this submodule's
    /// working directory, or the end where there is nothing to pin.
    pub open spec fn pins(&self, git: Git, commit: Option<Seq<char>>, r: Next<InitStage, (), Error>) -> bool {
        match commit {
            None => r == Next::<InitStage, (), Error>::Done(Ok(())),
            Some(c) => r.runs(path_join(git.root_view(), self.path_view()), seq!["checkout"@, c], false)
                && r.stage().pinned() == Some(c) && r.stage() is CheckingOut,
        }
    }

    fn pin(&self, git: &Git, commit: Option<String>) -> (r: Next<InitStage, (), Error>)
        ensures
            self.pins(*git, opt_view(commit), r),
    {
        match commit {
            None => Next::Done(Ok(())),
            Some(c) => {
                let dir = joined(git.root(), self.path());
                let args = args_of(&["checkout", c.as_str()]);
                assert(args_view(args@) =~= seq!["checkout"@, c@]);
                let inv = Git::new(dir.as_str()).command(args);
                Next::Perform(Action::Run(inv), InitStage::CheckingOut { commit: c })
            },
        }
    }

    fn initialize(&self, git: &Git, commit: Option<String>) -> (r: Next<InitStage, (), Error>)
        ensures
            r.runs(git.root_view(), init_args(), false),
            r.stage() == (InitStage::Initializing { commit }),
    {
        let args = args_of(&["submodule", "update", "--init", "--recursive"]);
        assert(args_view(args@) =~= init_args());
        Next::Perform(Action::Run(git.command(args)), InitStage::Initializing { commit })
    }

    /// Starts setting this submodule up in the repository `git`, to be
    /// pinned at `commit` where one is given. Without a name to use it
    /// fails at once, with nothing performed; otherwise the manifest is read
    /// first.
    pub fn init(&self, git: &Git, commit: Option<&str>) -> (r: Next<InitStage, (), Error>)
        ensures
            commit is None ==> !checks_out(r) && (r is Perform ==> r.stage().pinned() is None),
            self.resolved_name() is None ==> (r matches Next::Done(Err(e)) && e.submodule == *self
                && e.source is NameMissing),
            self.resolved_name() matches Some(n) ==> (r matches Next::Perform(
                Action::ReadModules(root),
                InitStage::CheckingIndex { name, commit: c },
            ) && root@ == git.root_view() && name@ == n && opt_view(c) == match commit {
                Some(x) => Some(x@),
                None => None,
            }),
    {
        match self.name() {
            None => Next::Done(Err(self.fail(Source::NameMissing))),
            Some(name) => {
                let c = match commit {
                    Some(x) => Some(text(x)),
                    None => None,
                };
                Next::Perform(
                    Action::ReadModules(text(git.root())),
                    InitStage::CheckingIndex { name, commit: c },
                )
            },
        }
    }

    /// Takes the set-up one step on. A submodule the manifest does not
    /// register is added, then initialized; one it registers is initialized
    /// only where the local configuration lacks it, and never added again.
    /// The commit, where one was asked for, is checked out last, and no
    /// checkout runs where none was. Each failure ends the set-up with the
    /// error of its step.
    pub fn init_step(&self, git: &Git, stage: InitStage, outcome: Outcome) -> (r: Next<
        InitStage,
        (),
        Error,
    >)
        ensures
            stage.pinned() is None ==> !checks_out(r) && (r is Perform ==> r.stage().pinned() is None),
            r matches Next::Done(Err(e)) ==> e.submodule == *self,
            match (stage, outcome) {
                (InitStage::CheckingIndex { .. }, Outcome::Failed(m)) => r matches Next::Done(
                    Err(e),
                ) && e.source matches Source::IndexCheckFailed(x) && x@ == m@,
                (InitStage::CheckingIndex { name, commit }, o) => if has_section(file_of(o), name@) {
                    r matches Next::Perform(
                        Action::ReadConfig(root),
                        InitStage::CheckingConfig { name: n, commit: c },
                    ) && root@ == git.root_view() && n@ == name@ && c == commit
                } else {
                    r.runs(git.root_view(), add_args(name@, self.remote_view(), self.path_view()), false)
                        && r.stage() == (InitStage::Adding { commit })
                },
                (InitStage::Adding { .. }, Outcome::Failed(m)) => r matches Next::Done(Err(e))
                    && e.source matches Source::AddFailed(x) && x@ == m@,
                (InitStage::Adding { commit }, _) => r.runs(git.root_view(), init_args(), false)
                    && r.stage() == (InitStage::Initializing { commit }),
                (InitStage::CheckingConfig { .. }, Outcome::Failed(m)) => r matches Next::Done(
                    Err(e),
                ) && e.source matches Source::InitCheckFailed(x) && x@ == m@,
                (InitStage::CheckingConfig { name, commit }, o) => if has_section(file_of(o), name@) {
                    self.pins(*git, opt_view(commit), r)
                } else {
                    r.runs(git.root_view(), init_args(), false)
                        && r.stage() == (InitStage::Initializing { commit })
                },
                (InitStage::Initializing { .. }, Outcome::Failed(m)) => r matches Next::Done(
                    Err(e),
                ) && e.source matches Source::InitFailed(x) && x@ == m@,
                (InitStage::Initializing { commit }, _) => self.pins(*git, opt_view(commit), r),
                (InitStage::CheckingOut { commit }, Outcome::Failed(m)) => r matches Next::Done(
                    Err(e),
                ) && e.source matches Source::CheckoutFailed { commit: c, source: x } && c@
                    == commit@ && x@ == m@,
                (InitStage::CheckingOut { .. }, _) => r == Next::<InitStage, (), Error>::Done(Ok(())),
            },
    {
        proof {
            reveal_strlit("submodule");
            reveal_strlit("checkout");
            assert("submodule"@.len() != "checkout"@.len());
        }
        match stage {
            InitStage::CheckingIndex { name, commit } => match outcome {
                Outcome::Failed(m) => Next::Done(Err(self.fail(Source::IndexCheckFailed(m)))),
                o => {
                    if Self::in_index(&o, name.as_str()) {
                        Next::Perform(
                            Action::ReadConfig(text(git.root())),
                            InitStage::CheckingConfig { name, commit },
                        )
                    } else {
                        let args = args_of(
                            &["submodule", "add", "--name", name.as_str(), self.remote(), self.path()],
                        );
                        assert(args_view(args@) =~= add_args(name@, self.remote_view(), self.path_view()));
                        Next::Perform(Action::Run(git.command(args)), InitStage::Adding { commit })
                    }
                },
            },
            InitStage::Adding { commit } => match outcome {
                Outcome::Failed(m) => Next::Done(Err(self.fail(Source::AddFailed(m)))),
                _ => self.initialize(git, commit),
            },
            InitStage::CheckingConfig { name, commit } => match outcome {
                Outcome::Failed(m) => Next::Done(Err(self.fail(Source::InitCheckFailed(m)))),
                o => {
                    if Self::initialized(&o, name.as_str()) {
                        self.pin(git, commit)
                    } else {
                        self.initialize(git, commit)
                    }
                },
            },
            InitStage::Initializing { commit } => match outcome {
                Outcome::Failed(m) => Next::Done(Err(self.fail(Source::InitFailed(m)))),
                _ => self.pin(git, commit),
            },
            InitStage::CheckingOut { commit } => match outcome {
                Outcome::Failed(m) => Next::Done(
                    Err(self.fail(Source::CheckoutFailed { commit, source: m })),
                ),
                _ => Next::Done(Ok(())),
            },
        }
    }
}

} // verus!
