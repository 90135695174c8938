use vstd::prelude::*;

verus! {

/// The text views of a list of arguments.
pub open spec fn args_view(args: Seq<String>) -> Seq<Seq<char>> {
    args.map_values(|a: String| a@)
}

/// What came of the last action that was performed.
#[derive(Debug)]
pub enum Outcome {
    /// It succeeded. For a captured run this is its standard output, for a
    /// file read the file's text; otherwise it is not looked at.
    Output(String),
    /// The file that was to be read does not exist.
    Absent,
    /// It failed; this is the diagnostic to report.
    Failed(String),
}

/// One run of the revision control tool.
#[derive(Debug)]
pub struct Invocation {
    /// The working directory of the run.
    pub dir: String,
    pub args: Vec<String>,
    /// Whether standard output is captured and handed back.
    pub capture: bool,
}

impl Invocation {
    pub open spec fn is(self, dir: Seq<char>, args: Seq<Seq<char>>, capture: bool) -> bool {
        &&& self.dir@ == dir
        &&& args_view(self.args@) == args
        &&& self.capture == capture
    }
}

/// Something the caller performs before the next step.
#[derive(Debug)]
pub enum Action {
    Run(Invocation),
    /// Create this directory and every missing ancestor.
    CreateDirAll(String),
    /// Read the submodule manifest of the repository rooted here.
    ReadModules(String),
    /// Read the local configuration of the repository rooted here.
    ReadConfig(String),
}

/// Where an operation stands after a step.
#[derive(Debug)]
pub enum Next<S, T, E> {
    /// Perform the action, then hand its outcome back with the stage.
    Perform(Action, S),
    /// The operation is over.
    Done(Result<T, E>),
}

impl<S, T, E> Next<S, T, E> {
    pub open spec fn runs(self, dir: Seq<char>, args: Seq<Seq<char>>, capture: bool) -> bool {
        match self {
            Next::Perform(Action::Run(inv), _) => inv.is(dir, args, capture),
            _ => false,
        }
    }

    pub open spec fn stage(self) -> S
        recommends
            self is Perform,
    {
        match self {
            Next::Perform(_, s) => s,
            _ => arbitrary(),
        }
    }
}

/// A repository working directory that tool runs take place in.
#[derive(Clone, Debug)]
pub struct Git {
    root: String,
}

/// A copy of a string with the same text.
pub fn text(s: &str) -> (r: String)
    ensures
        r@ == s@,
{
    s.to_owned()
}

/// Owned copies of the given arguments, in order.
pub fn args_of(parts: &[&str]) -> (r: Vec<String>)
    ensures
        args_view(r@) == parts@.map_values(|p: &str| p@),
{
    let mut r: Vec<String> = Vec::new();
    let mut i: usize = 0;
    while i < parts.len()
        invariant
            i <= parts@.len(),
            r@.len() == i,
            args_view(r@) == parts@.subrange(0, i as int).map_values(|p: &str| p@),
        decreases parts@.len() - i,
    {
        let ghost before = r@;
        r.push(text(parts[i]));
        assert(r@ == before.push(r@.last()));
        assert forall|j: int| 0 <= j < i + 1 implies #[trigger] args_view(r@)[j] == parts@[j]@ by {
            if j < i {
                assert(args_view(before)[j] == parts@.subrange(0, i as int).map_values(|p: &str| p@)[j]);
            }
        }
        i = i + 1;
        assert(args_view(r@) =~= parts@.subrange(0, i as int).map_values(|p: &str| p@));
    }
    assert(parts@.subrange(0, parts@.len() as int) =~= parts@);
    r
}

impl Git {
    pub closed spec fn root_view(&self) -> Seq<char> {
        self.root@
    }

    pub fn new(root: &str) -> (r: Git)
        ensures
            r.root_view() == root@,
    {
        Git { root: text(root) }
    }

    pub fn root(&self) -> (r: &str)
        ensures
            r@ == self.root_view(),
    {
        self.root.as_str()
    }

    /// A run in this directory whose output is not needed.
    pub fn command(&self, args: Vec<String>) -> (r: Invocation)
        ensures
            r.dir@ == self.root_view(),
            r.args@ == args@,
            !r.capture,
    {
        Invocation { dir: self.root.clone(), args, capture: false }
    }

    /// A run in this directory whose standard output is handed back.
    pub fn capture(&self, args: Vec<String>) -> (r: Invocation)
        ensures
            r.dir@ == self.root_view(),
            r.args@ == args@,
            r.capture,
    {
        Invocation { dir: self.root.clone(), args, capture: true }
    }
}

} // verus!
