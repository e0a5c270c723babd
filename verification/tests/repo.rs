use merger::command_queue::{CommandQueue, QueuedAction};
use merger::config::{ArgValue, Field, ToolArg};
use merger::error::ErrorKind;
use merger::repo::{Repo, RepoRoot};

type Step = fn() -> Result<(), String>;

fn local(name: &str, path: &str, branch: &str, clobber: bool) -> Repo {
    Repo {
        name: name.to_string(),
        root: RepoRoot::Local { path: path.to_string(), branch: branch.to_string() },
        clobber,
    }
}

fn external(action: &QueuedAction<Step>) -> (&str, Vec<&str>, &str, &str) {
    match action {
        QueuedAction::External { program, args, working_dir, label } => (
            program.as_str(),
            args.iter().map(|a| a.as_str()).collect(),
            working_dir.as_str(),
            label.as_str(),
        ),
        QueuedAction::Callback { .. } => panic!("a process was expected"),
    }
}

#[test]
fn new_git_is_remote_and_clobbered() {
    let repo = Repo::new_git("rust", "git@example.org:rust.git", "merge-head");
    assert_eq!(repo.name, "rust");
    assert!(repo.clobber);
    match &repo.root {
        RepoRoot::Git { url, branch } => {
            assert_eq!(url, "git@example.org:rust.git");
            assert_eq!(branch, "merge-head");
        },
        RepoRoot::Local { .. } => panic!("a remote origin was expected"),
    }
}

#[test]
fn branch_is_there_whichever_the_origin() {
    let git = Repo::new_git("a", "url", "one");
    let dir = local("b", "/local/b", "two", false);
    assert_eq!(git.root.branch(), "one");
    assert_eq!(dir.root.branch(), "two");
    assert_eq!(git.root.location(), "url");
    assert_eq!(dir.root.location(), "/local/b");
}

#[test]
fn branch_mut_changes_the_branch_only() {
    let mut git = Repo::new_git("a", "url", "one");
    *git.root.branch_mut() = "other".to_string();
    match &git.root {
        RepoRoot::Git { url, branch } => {
            assert_eq!(url, "url");
            assert_eq!(branch, "other");
        },
        RepoRoot::Local { .. } => panic!("the origin changed its kind"),
    }
    let mut dir = local("b", "/local/b", "two", false);
    dir.root.branch_mut().push_str("-next");
    match &dir.root {
        RepoRoot::Local { path, branch } => {
            assert_eq!(path, "/local/b");
            assert_eq!(branch, "two-next");
        },
        RepoRoot::Git { .. } => panic!("the origin changed its kind"),
    }
}

#[test]
fn clone_keeps_everything() {
    let dir = local("b", "/local/b", "two", false);
    let copy = dir.clone();
    assert_eq!(copy.name, "b");
    assert!(!copy.clobber);
    assert_eq!(copy.root.branch(), "two");
    assert_eq!(copy.root.location(), "/local/b");
    assert!(matches!(copy.root, RepoRoot::Local { .. }));
    let git = Repo::new_git("a", "url", "one").clone();
    assert!(matches!(git.root, RepoRoot::Git { .. }));
    assert!(git.clobber);
}

#[test]
fn checkout_is_made_iff_dest_is_absent_or_repo_is_clobbered() {
    for clobber in [false, true] {
        for dest_exists in [false, true] {
            let mut repo = Repo::new_git("base", "url", "master");
            repo.clobber = clobber;
            let expected = clobber || !dest_exists;
            assert_eq!(repo.checkout_fat("/t/src", dest_exists).is_some(), expected);
            assert_eq!(repo.checkout("/t/src", dest_exists).is_some(), expected);
        }
    }
}

#[test]
fn checkout_fat_takes_the_whole_history() {
    let repo = Repo::new_git("base", "git@example.org:base.git", "master");
    let plan = repo.checkout_fat("/t/src", true).unwrap();
    assert_eq!(plan.name, "base");
    assert_eq!(plan.dest, "/t/src");
    assert_eq!(plan.over, None);
    assert_eq!(plan.url, "git@example.org:base.git");
    assert_eq!(plan.branch, "master");
    assert!(!plan.thin);
    let thin = repo.checkout("/t/src", true).unwrap();
    assert!(thin.thin);
    assert_eq!(thin.url, "git@example.org:base.git");
}

#[test]
fn checkout_of_a_local_origin_names_the_directory() {
    let repo = local("b", "/local/b", "feat-b", false);
    let plan = repo.checkout_fat("/t/src", false).unwrap();
    assert_eq!(plan.over, Some("/local/b".to_string()));
    assert_eq!(plan.url, "");
    assert_eq!(plan.branch, "feat-b");
    assert!(!plan.thin);
    assert!(repo.checkout_fat("/t/src", true).is_none());
    assert!(repo.checkout("/t/src", true).is_none());
}

#[test]
fn add_remote_from_queues_the_creation_of_a_missing_remote() {
    let dest = Repo::new_git("rust", "url", "merge-head");
    let from = Repo::new_git("A", "https://example.org/a.git", "feat-a");
    let mut queue: CommandQueue<Step> = CommandQueue::new();
    let update = dest.add_remote_from("/t/src", &from, "/cwd", false, &mut queue);
    assert!(update.is_none());
    assert_eq!(queue.len(), 1);
    let (program, args, dir, label) = external(queue.get(0).unwrap());
    assert_eq!(program, "git");
    assert_eq!(
        args,
        ["remote", "add", "-t", "feat-a", "remote-A-branch-feat-a", "https://example.org/a.git"]
    );
    assert_eq!(dir, "/t/src");
    assert_eq!(label, "add-remote(A)");
}

#[test]
fn add_remote_from_a_local_origin_uses_its_path() {
    let dest = Repo::new_git("rust", "url", "merge-head");
    let from = local("B", "/local/b", "feat-b", false);
    let mut queue: CommandQueue<Step> = CommandQueue::new();
    assert!(dest.add_remote_from("/t/src", &from, "/cwd", false, &mut queue).is_none());
    let (_, args, _, label) = external(queue.get(0).unwrap());
    assert_eq!(args, ["remote", "add", "-t", "feat-b", "remote-B-branch-feat-b", "/local/b"]);
    assert_eq!(label, "add-remote(B)");
}

#[test]
fn add_remote_from_sets_the_url_of_a_remote_that_exists() {
    let dest = Repo::new_git("rust", "url", "merge-head");
    let from = local("B", "/local/b", "feat-b", false);
    let mut queue: CommandQueue<Step> = CommandQueue::new();
    let update = dest.add_remote_from("/t/src", &from, "/cwd", true, &mut queue).unwrap();
    assert_eq!(update.remote, "remote-B-branch-feat-b");
    assert_eq!(update.url, "/local/b");
    assert_eq!(update.label, "add-remote(B)");
    assert_eq!(queue.len(), 0);
    let error = update.failure("config is locked");
    assert_eq!(error.kind, ErrorKind::RegistryFailure);
    assert_eq!(error.label, "add-remote(B)");
    assert_eq!(error.detail, "config is locked");
    assert_eq!(error.message(), "add-remote(B): could not set up the remote: config is locked");

    let git = Repo::new_git("A", "https://example.org/a.git", "feat-a");
    let update = dest.add_remote_from("/t/src", &git, "/cwd", true, &mut queue).unwrap();
    assert_eq!(update.remote, "remote-A-branch-feat-a");
    assert_eq!(update.url, "https://example.org/a.git");
    assert_eq!(queue.len(), 0);
}

#[test]
fn add_remote_from_resolves_a_relative_local_origin() {
    let dest = Repo::new_git("rust", "url", "merge-head");
    let from = local("B", "checkouts/b", "feat-b", false);
    let mut queue: CommandQueue<Step> = CommandQueue::new();
    let update = dest.add_remote_from("/t/src", &from, "/cwd", true, &mut queue).unwrap();
    assert_eq!(update.remote, "remote-B-branch-feat-b");
    assert_eq!(update.url, "/cwd/checkouts/b");
    assert_eq!(queue.len(), 0);

    assert!(dest.add_remote_from("/t/src", &from, "/cwd/", false, &mut queue).is_none());
    let (_, args, dir, _) = external(queue.get(0).unwrap());
    assert_eq!(
        args,
        ["remote", "add", "-t", "feat-b", "remote-B-branch-feat-b", "/cwd/checkouts/b"]
    );
    assert_eq!(dir, "/t/src");
    assert_eq!(from.root.location(), "checkouts/b");
    assert_eq!(from.root.resolved("/cwd"), "/cwd/checkouts/b");
    assert_eq!(from.root.resolved("/"), "/checkouts/b");
}

#[test]
fn an_absolute_origin_and_a_url_are_not_resolved() {
    let dest = Repo::new_git("rust", "url", "merge-head");
    let mut queue: CommandQueue<Step> = CommandQueue::new();
    let dir = local("B", "/local/b", "feat-b", false);
    let update = dest.add_remote_from("/t/src", &dir, "/cwd", true, &mut queue).unwrap();
    assert_eq!(update.url, "/local/b");
    let git = Repo::new_git("A", "relative/looking.git", "feat-a");
    let update = dest.add_remote_from("/t/src", &git, "/cwd", true, &mut queue).unwrap();
    assert_eq!(update.url, "relative/looking.git");
    assert_eq!(git.root.resolved("/cwd"), "relative/looking.git");
    assert!(dest.add_remote_from("/t/src", &git, "/cwd", false, &mut queue).is_none());
    let (_, args, _, _) = external(queue.get(0).unwrap());
    assert_eq!(args[5], "relative/looking.git");
}

#[test]
fn update_remotes_queues_one_fetch_of_all() {
    let dest = Repo::new_git("rust", "url", "merge-head");
    let mut queue: CommandQueue<Step> = CommandQueue::new();
    dest.update_remotes("/t/src", &mut queue);
    assert_eq!(queue.len(), 1);
    let (program, args, dir, label) = external(queue.get(0).unwrap());
    assert_eq!(program, "git");
    assert_eq!(args, ["fetch", "--all"]);
    assert_eq!(dir, "/t/src");
    assert_eq!(label, "fetch-all");
}

#[test]
fn create_or_reset_branch_points_at_the_base_through_its_remote() {
    let dest = Repo::new_git("rust", "url", "whatever");
    let base = Repo::new_git("base", "U", "master");
    let mut queue: CommandQueue<Step> = CommandQueue::new();
    let head = dest.create_or_reset_branch("/t/src", "merge-head", &base, &mut queue);
    assert_eq!(queue.len(), 1);
    let (program, args, dir, label) = external(queue.get(0).unwrap());
    assert_eq!(program, "git");
    assert_eq!(args, ["checkout", "-B", "merge-head", "remote-base-branch-master/master"]);
    assert_eq!(dir, "/t/src");
    assert_eq!(label, "reset-integration-branch(base/master)");
    assert_eq!(head.name, "rust");
    assert!(!head.clobber);
    match &head.root {
        RepoRoot::Local { path, branch } => {
            assert_eq!(path, "/t/src");
            assert_eq!(branch, "merge-head");
        },
        RepoRoot::Git { .. } => panic!("a local origin was expected"),
    }
}

#[test]
fn merge_branch_merges_the_branch_of_the_remote_without_editing() {
    let dest = Repo::new_git("rust", "url", "merge-head");
    let branch = Repo::new_git("A", "Ua", "feature/a");
    let mut queue: CommandQueue<Step> = CommandQueue::new();
    dest.merge_branch("/t/src", &branch, &mut queue);
    let (program, args, dir, label) = external(queue.get(0).unwrap());
    assert_eq!(program, "git");
    assert_eq!(args, ["merge", "--no-edit", "remote-A-branch-feature%2Fa/feature/a"]);
    assert_eq!(dir, "/t/src");
    assert_eq!(label, "merge(A/feature/a)");
    assert_eq!(branch.remote_ref(), "remote-A-branch-feature%2Fa/feature/a");
}

#[test]
fn args_are_keyed_by_the_name() {
    let repo = Repo::new_git("rust", "url", "merge-head");
    let mut args: Vec<ToolArg> = Vec::new();
    repo.args(&mut args);
    assert_eq!(args.len(), 3);
    assert_eq!(args[0].name, "rust");
    assert_eq!(args[0].key, "rust");
    assert_eq!(args[0].field, Field::Source);
    assert_eq!(args[0].flag, "rust-src");
    assert_eq!(args[1].name, "rust-src-branch");
    assert_eq!(args[1].key, "rust");
    assert_eq!(args[1].field, Field::Branch);
    assert_eq!(args[1].flag, "rust-branch");
    assert_eq!(args[2].name, "clobber-rust-sources");
    assert_eq!(args[2].key, "rust");
    assert_eq!(args[2].field, Field::Clobber);
    assert_eq!(args[2].flag, "clobber-rust-srcs");
    repo.args(&mut args);
    assert_eq!(args.len(), 6);
    assert_eq!(args[0].flag, "rust-src");
    assert_eq!(args[3].flag, "rust-src");
}

#[test]
fn a_source_makes_the_origin_local_and_keeps_the_branch() {
    let mut repo = Repo::new_git("A", "Ua", "feat-a");
    assert!(repo.apply_override(Field::Source, &ArgValue::Text("checkouts/a".to_string()), "/work"));
    assert_eq!(repo.name, "A");
    assert!(repo.clobber);
    match &repo.root {
        RepoRoot::Local { path, branch } => {
            assert_eq!(path, "/work/checkouts/a");
            assert_eq!(branch, "feat-a");
        },
        RepoRoot::Git { .. } => panic!("a local origin was expected"),
    }
    assert!(repo.apply_override(Field::Source, &ArgValue::Text("/abs/a".to_string()), "/work"));
    assert_eq!(repo.root.location(), "/abs/a");
    assert_eq!(repo.root.branch(), "feat-a");
}

#[test]
fn a_branch_keeps_the_origin() {
    let mut repo = Repo::new_git("A", "Ua", "feat-a");
    assert!(repo.apply_override(Field::Branch, &ArgValue::Text("next".to_string()), "/work"));
    match &repo.root {
        RepoRoot::Git { url, branch } => {
            assert_eq!(url, "Ua");
            assert_eq!(branch, "next");
        },
        RepoRoot::Local { .. } => panic!("a remote origin was expected"),
    }
    assert_eq!(repo.remote_name(), "remote-A-branch-next");
}

#[test]
fn the_switch_sets_the_clobber_policy() {
    let mut repo = Repo::new_git("A", "Ua", "feat-a");
    assert!(repo.apply_override(Field::Clobber, &ArgValue::Switch(false), "/work"));
    assert!(!repo.clobber);
    assert!(repo.checkout_fat("/t/src", true).is_none());
    assert!(repo.apply_override(Field::Clobber, &ArgValue::Switch(true), "/work"));
    assert!(repo.clobber);
    assert!(repo.checkout_fat("/t/src", true).is_some());
}

#[test]
fn a_value_that_does_not_fit_changes_nothing() {
    let mut repo = Repo::new_git("A", "Ua", "feat-a");
    assert!(!repo.apply_override(Field::Clobber, &ArgValue::Text("no".to_string()), "/work"));
    assert!(!repo.apply_override(Field::Source, &ArgValue::Switch(false), "/work"));
    assert!(!repo.apply_override(Field::Branch, &ArgValue::Switch(false), "/work"));
    assert!(!repo.apply_override(Field::TargetDir, &ArgValue::Text("/t".to_string()), "/work"));
    assert!(!repo.apply_override(Field::TargetDir, &ArgValue::Switch(true), "/work"));
    assert_eq!(repo.name, "A");
    assert!(repo.clobber);
    assert!(matches!(repo.root, RepoRoot::Git { .. }));
    assert_eq!(repo.root.location(), "Ua");
    assert_eq!(repo.root.branch(), "feat-a");
}
