use merger::identifier::{plain, remote_identifier};
use merger::repo::{Repo, RepoRoot};

fn name_of(name: &str, branch: &str) -> String {
    Repo::new_git(name, "https://example.org/x.git", branch).remote_name()
}

#[test]
fn remote_name_of_plain_name_and_branch() {
    assert_eq!(name_of("A", "feat-a"), "remote-A-branch-feat-a");
    assert_eq!(name_of("rust-upstream", "fork-base"), "remote-rust-upstream-branch-fork-base");
    assert_eq!(name_of("snake_case", "v2"), "remote-snake_case-branch-v2");
}

#[test]
fn remote_name_is_the_same_for_the_same_name_and_branch() {
    let a = Repo::new_git("A", "https://example.org/a.git", "feat-a");
    let b = Repo {
        name: "A".to_string(),
        root: RepoRoot::Local { path: "/local/a".to_string(), branch: "feat-a".to_string() },
        clobber: false,
    };
    assert_eq!(a.remote_name(), a.remote_name());
    assert_eq!(a.remote_name(), b.remote_name());
    assert_eq!(a.remote_name(), remote_identifier("A", "feat-a"));
}

#[test]
fn remote_name_keeps_apart_what_plain_joining_would_confuse() {
    assert_eq!(name_of("a-branch-b", "c"), "remote-a%2Dbranch-b-branch-c");
    assert_eq!(name_of("a", "b-branch-c"), "remote-a-branch-b-branch-c");
    assert_ne!(name_of("a-branch-b", "c"), name_of("a", "b-branch-c"));

    assert_eq!(name_of("a-branch", "x"), "remote-a%2Dbranch-branch-x");
    assert_eq!(name_of("a", "branch-x"), "remote-a-branch-branch-x");
    assert_ne!(name_of("a-branch", "x"), name_of("a", "branch-x"));
}

#[test]
fn remote_name_escapes_only_a_dash_that_begins_dash_branch() {
    assert_eq!(name_of("x-branc", "b"), "remote-x-branc-branch-b");
    assert_eq!(name_of("x-branchy", "b"), "remote-x%2Dbranchy-branch-b");
    assert_eq!(name_of("x--branch", "b"), "remote-x-%2Dbranch-branch-b");
    assert_eq!(name_of("-", "-"), "remote---branch--");
    assert_eq!(name_of("x", "my-branch"), "remote-x-branch-my-branch");
}

#[test]
fn remote_name_escapes_what_a_remote_may_not_be_called() {
    assert_eq!(name_of("my repo", "main"), "remote-my%20repo-branch-main");
    assert_eq!(name_of("x", "feature/y"), "remote-x-branch-feature%2Fy");
    assert_eq!(name_of("x", "v1.2"), "remote-x-branch-v1%2E2");
    assert_eq!(name_of("50%", "a:b"), "remote-50%25-branch-a%3Ab");
    assert_eq!(name_of("a~b^c", "d?e*f[g"), "remote-a%7Eb%5Ec-branch-d%3Fe%2Af%5Bg");
    assert_eq!(name_of("tab\there", "x\\y"), "remote-tab%09here-branch-x%5Cy");
    assert_eq!(name_of("", ""), "remote--branch-");
}

#[test]
fn remote_name_keeps_characters_outside_ascii() {
    assert_eq!(name_of("caf\u{e9}", "\u{4e3b}"), "remote-caf\u{e9}-branch-\u{4e3b}");
}

#[test]
fn remote_names_differ_for_different_names_or_branches() {
    let parts = [
        "", "a", "b", "-", "a-", "-a", "a-branch", "a-branch-", "-branch", "-branch-", "branch",
        "branch-", "a-branch-b", "b-branch-c", "%", "%2D", "a%2Dbranch", "2D", "a b", "a/b",
        "remote-", "-branch-branch-",
    ];
    let mut seen: Vec<(String, &str, &str)> = Vec::new();
    for name in parts.iter() {
        for branch in parts.iter() {
            let id = name_of(name, branch);
            for (other, n, b) in seen.iter() {
                assert_ne!(&id, other, "({:?}, {:?}) and ({:?}, {:?})", name, branch, n, b);
            }
            seen.push((id, name, branch));
        }
    }
    assert_eq!(seen.len(), parts.len() * parts.len());
}

#[test]
fn remote_names_are_made_of_identifier_characters() {
    let parts = ["", "a b", "x/y", "..", "a.lock", "@{", "-branch", "\u{7f}", "\u{e9}", "A_z-9"];
    for name in parts.iter() {
        for branch in parts.iter() {
            let id = name_of(name, branch);
            assert!(!id.is_empty());
            assert!(id.starts_with("remote-"));
            for c in id.chars() {
                assert!(plain(c) || c == '-' || c == '%', "{:?} in {:?}", c, id);
            }
        }
    }
}

#[test]
fn plain_characters() {
    for c in ['a', 'z', 'A', 'Z', '0', '9', '_', '\u{80}', '\u{e9}'] {
        assert!(plain(c), "{:?}", c);
    }
    for c in ['-', '%', '.', '/', ' ', '@', '[', '`', '{', '\u{7f}', '\0'] {
        assert!(!plain(c), "{:?}", c);
    }
}
