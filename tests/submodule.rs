use git_repo::submodule::{InitStage, Source, Submodule};
use git_repo::tool::{Action, Git, Invocation, Next, Outcome};

fn ok(s: &str) -> Outcome {
    Outcome::Output(s.to_string())
}

fn failed(s: &str) -> Outcome {
    Outcome::Failed(s.to_string())
}

fn run(next: Next<InitStage, (), git_repo::submodule::Error>) -> (Invocation, InitStage) {
    match next {
        Next::Perform(Action::Run(inv), stage) => (inv, stage),
        _ => panic!("expected a tool run"),
    }
}

fn args(inv: &Invocation) -> Vec<&str> {
    inv.args.iter().map(|a| a.as_str()).collect()
}

fn source_of(next: Next<InitStage, (), git_repo::submodule::Error>) -> Source {
    match next {
        Next::Done(Err(e)) => e.source,
        _ => panic!("expected a failure"),
    }
}

fn bar() -> Submodule {
    Submodule::with_remote_and_path("https://example.com/foo/bar.git", "vendor/bar")
}

#[test]
fn name_is_taken_from_a_git_remote() {
    assert_eq!(bar().name().as_deref(), Some("bar"));
    assert_eq!(bar().given_name(), None);
}

#[test]
fn name_needs_a_git_suffix() {
    let sub = Submodule::with_remote_and_path("https://example.com/foo/bar", "vendor/bar");
    assert_eq!(sub.name(), None);
}

#[test]
fn given_name_wins_over_the_remote() {
    let sub = bar().with_name("baz");
    assert_eq!(sub.name().as_deref(), Some("baz"));
    assert_eq!(sub.remote(), "https://example.com/foo/bar.git");
    assert_eq!(sub.path(), "vendor/bar");
}

#[test]
fn init_without_a_name_fails_before_any_action() {
    let sub = Submodule::with_remote_and_path("https://example.com/foo/bar", "vendor/bar");
    match sub.init(&Git::new("/w"), None) {
        Next::Done(Err(e)) => {
            assert!(matches!(e.source, Source::NameMissing));
            assert_eq!(e.submodule.remote(), "https://example.com/foo/bar");
        },
        _ => panic!("expected the name to be missing"),
    }
}

#[test]
fn unregistered_submodule_is_added_initialized_and_pinned() {
    let git = Git::new("/w");
    let sub = bar();
    let stage = match sub.init(&git, Some("0123abc")) {
        Next::Perform(Action::ReadModules(root), stage) => {
            assert_eq!(root, "/w");
            stage
        },
        _ => panic!("expected the manifest to be read"),
    };
    let (inv, stage) = run(sub.init_step(&git, stage, Outcome::Absent));
    assert_eq!(inv.dir, "/w");
    assert_eq!(
        args(&inv),
        vec!["submodule", "add", "--name", "bar", "https://example.com/foo/bar.git", "vendor/bar"]
    );
    let (inv, stage) = run(sub.init_step(&git, stage, ok("")));
    assert_eq!(args(&inv), vec!["submodule", "update", "--init", "--recursive"]);
    let (inv, stage) = run(sub.init_step(&git, stage, ok("")));
    assert_eq!(inv.dir, "/w/vendor/bar");
    assert_eq!(args(&inv), vec!["checkout", "0123abc"]);
    assert!(matches!(sub.init_step(&git, stage, ok("")), Next::Done(Ok(()))));
}

#[test]
fn registered_submodule_is_not_added_again() {
    let git = Git::new("/w");
    let sub = bar();
    let manifest = "[submodule \"bar\"]\n\tpath = vendor/bar\n\turl = https://example.com/foo/bar.git\n";
    let stage = InitStage::CheckingIndex { name: "bar".to_string(), commit: None };
    match sub.init_step(&git, stage, ok(manifest)) {
        Next::Perform(Action::ReadConfig(root), InitStage::CheckingConfig { name, commit }) => {
            assert_eq!(root, "/w");
            assert_eq!(name, "bar");
            assert_eq!(commit, None);
        },
        _ => panic!("expected the configuration to be read"),
    }
}

#[test]
fn registered_but_uninitialized_submodule_is_initialized() {
    let git = Git::new("/w");
    let sub = bar();
    let stage = InitStage::CheckingConfig { name: "bar".to_string(), commit: None };
    let (inv, _) = run(sub.init_step(&git, stage, ok("[core]\n\tbare = false\n")));
    assert_eq!(args(&inv), vec!["submodule", "update", "--init", "--recursive"]);
}

#[test]
fn initialized_submodule_without_commit_is_done_without_checkout() {
    let git = Git::new("/w");
    let sub = bar();
    let config = "[submodule \"bar\"]\n\tactive = true\n";
    let stage = InitStage::CheckingConfig { name: "bar".to_string(), commit: None };
    assert!(matches!(sub.init_step(&git, stage, ok(config)), Next::Done(Ok(()))));
    let stage = InitStage::Initializing { commit: None };
    assert!(matches!(sub.init_step(&git, stage, ok("")), Next::Done(Ok(()))));
}

#[test]
fn section_of_another_submodule_does_not_count() {
    let git = Git::new("/w");
    let sub = bar();
    let manifest = "[submodule \"barn\"]\n";
    let stage = InitStage::CheckingIndex { name: "bar".to_string(), commit: None };
    let (inv, _) = run(sub.init_step(&git, stage, ok(manifest)));
    assert_eq!(args(&inv)[1], "add");
}

#[test]
fn submodule_failures_are_told_apart() {
    let git = Git::new("/w");
    let sub = bar();
    let name = || "bar".to_string();
    let s = source_of(sub.init_step(&git, InitStage::CheckingIndex { name: name(), commit: None }, failed("a")));
    assert!(matches!(s, Source::IndexCheckFailed(m) if m == "a"));
    let s = source_of(sub.init_step(&git, InitStage::CheckingConfig { name: name(), commit: None }, failed("b")));
    assert!(matches!(s, Source::InitCheckFailed(m) if m == "b"));
    let s = source_of(sub.init_step(&git, InitStage::Adding { commit: None }, failed("c")));
    assert!(matches!(s, Source::AddFailed(m) if m == "c"));
    let s = source_of(sub.init_step(&git, InitStage::Initializing { commit: None }, failed("d")));
    assert!(matches!(s, Source::InitFailed(m) if m == "d"));
    let s = source_of(sub.init_step(&git, InitStage::CheckingOut { commit: "0123abc".to_string() }, failed("e")));
    match s {
        Source::CheckoutFailed { commit, source } => {
            assert_eq!(commit, "0123abc");
            assert_eq!(source, "e");
        },
        _ => panic!("expected a checkout failure"),
    }
}
