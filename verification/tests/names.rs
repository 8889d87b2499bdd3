use git_unwrap::branches::{qualified_name, remote_branches, short_branch_name, starts_with};
use git_unwrap::names::repo_name;
use git_unwrap::target::{copy_policy, join, resolve};
use git_unwrap::{extra_repo_name, CloneConfig, CloneTarget, RemoteBranchRef};
use std::path::Path;

#[test]
fn repo_name_of_a_url() {
    assert_eq!(extra_repo_name("https://github.com/user/project.git"), "project");
    assert_eq!(extra_repo_name("https://github.com/user/project"), "project");
    assert_eq!(extra_repo_name("git://host/a/b/my.repo.git"), "my.repo");
    assert_eq!(extra_repo_name("project.git"), "project");
    assert_eq!(extra_repo_name("project"), "project");
}

#[test]
fn repo_name_ignores_what_trails() {
    assert_eq!(extra_repo_name("https://host/user/project.git/"), "project");
    assert_eq!(extra_repo_name("/srv/git/project.git///"), "project");
    assert_eq!(extra_repo_name("/srv/git/project/."), "project");
    assert_eq!(extra_repo_name("/srv/git/project/./"), "project");
    assert_eq!(extra_repo_name("./project"), "project");
}

#[test]
fn repo_name_keeps_a_leading_dot() {
    assert_eq!(extra_repo_name("/home/me/.config"), ".config");
    assert_eq!(extra_repo_name(".git"), ".git");
    assert_eq!(extra_repo_name("a/.hidden.git"), ".hidden");
    assert_eq!(extra_repo_name("a/name."), "name");
    assert_eq!(extra_repo_name("a/..name"), ".");
    assert_eq!(extra_repo_name("a/..."), "..");
}

#[test]
fn repo_name_handles_text_beyond_ascii() {
    assert_eq!(extra_repo_name("https://host/üser/prøject.git"), "prøject");
    assert_eq!(repo_name("日本/語.x"), Some("語"));
}

#[test]
fn some_locators_name_no_repository() {
    assert_eq!(repo_name(""), None);
    assert_eq!(repo_name("/"), None);
    assert_eq!(repo_name("///"), None);
    assert_eq!(repo_name("."), None);
    assert_eq!(repo_name("./"), None);
    assert_eq!(repo_name("./."), None);
    assert_eq!(repo_name(".."), None);
    assert_eq!(repo_name("a/.."), None);
    assert_eq!(repo_name("a/../"), None);
    assert_eq!(repo_name("a/b/.././"), None);
}

#[test]
fn repo_name_agrees_with_path_stems() {
    for locator in [
        "https://github.com/user/project.git",
        "project",
        "a/b/c.d.e",
        "a/b/.c",
        "a/b/c.",
        "a/b/..c",
        "a/b/./",
        "a//b//",
        "/",
        "",
        ".",
        "..",
        "a/..",
        "../a",
        "./.",
        "x/./.",
        ".a.",
        "a/.../",
    ] {
        let expected = Path::new(locator).file_stem().and_then(|stem| stem.to_str());
        assert_eq!(repo_name(locator), expected, "{:?}", locator);
    }
}

#[test]
fn short_name_of_an_origin_branch() {
    assert_eq!(short_branch_name("refs/remotes/origin/release-1.0"), Some("release-1.0"));
    let branch = RemoteBranchRef::parse("refs/remotes/origin/release-1.0").unwrap();
    assert_eq!(branch.full_name, "refs/remotes/origin/release-1.0");
    assert_eq!(branch.short_name, "release-1.0");
}

#[test]
fn short_name_whatever_the_remote_is_called() {
    assert_eq!(short_branch_name("refs/remotes/upstream/main"), Some("main"));
    assert_eq!(short_branch_name("refs/remotes/o/main"), Some("main"));
    assert_eq!(short_branch_name("refs/remotes/a-very-long-remote/x"), Some("x"));
    assert_eq!(short_branch_name("refs/remotes/origin/HEAD"), Some("HEAD"));
}

#[test]
fn short_name_may_hold_separators() {
    assert_eq!(short_branch_name("refs/remotes/origin/feature/x"), Some("feature/x"));
    assert_eq!(short_branch_name("refs/remotes/origin/a/b/c"), Some("a/b/c"));
    assert_eq!(short_branch_name("refs/remotes/origin/a/"), Some("a/"));
}

#[test]
fn other_names_have_no_short_name() {
    assert_eq!(short_branch_name(""), None);
    assert_eq!(short_branch_name("main"), None);
    assert_eq!(short_branch_name("origin/main"), None);
    assert_eq!(short_branch_name("refs/heads/main"), None);
    assert_eq!(short_branch_name("refs/remotes"), None);
    assert_eq!(short_branch_name("refs/remotes/"), None);
    assert_eq!(short_branch_name("refs/remotes/origin"), None);
    assert_eq!(short_branch_name("refs/remotes/origin/"), None);
    assert_eq!(short_branch_name("refs/remotes//main"), None);
    assert_eq!(short_branch_name("refs/remotes/origin//main"), None);
    assert_eq!(short_branch_name("Refs/remotes/origin/main"), None);
    assert!(RemoteBranchRef::parse("refs/tags/v1").is_none());
}

#[test]
fn prefix_test() {
    assert!(starts_with("refs/remotes/origin", "refs/remotes/"));
    assert!(starts_with("abc", ""));
    assert!(starts_with("abc", "abc"));
    assert!(!starts_with("ab", "abc"));
    assert!(!starts_with("abd", "abc"));
    assert!(!starts_with("", "a"));
}

#[test]
fn qualified_name_drops_the_prefix() {
    assert_eq!(qualified_name("refs/remotes/origin/dev"), "origin/dev");
    assert_eq!(qualified_name("refs/heads/dev"), "refs/heads/dev");
    assert_eq!(qualified_name("refs/remotes/"), "");
}

#[test]
fn remote_branches_keep_order_and_drop_the_rest() {
    let names = vec![
        String::from("refs/remotes/origin/main"),
        String::from("refs/heads/main"),
        String::from("refs/remotes/origin/dev"),
        String::from("refs/remotes/origin"),
        String::from("refs/remotes/fork/feature/y"),
    ];
    let branches = remote_branches(&names);
    let full: Vec<&str> = branches.iter().map(|b| b.full_name.as_str()).collect();
    let short: Vec<&str> = branches.iter().map(|b| b.short_name.as_str()).collect();
    assert_eq!(
        full,
        vec!["refs/remotes/origin/main", "refs/remotes/origin/dev", "refs/remotes/fork/feature/y"]
    );
    assert_eq!(short, vec!["main", "dev", "feature/y"]);
    assert!(remote_branches(&Vec::new()).is_empty());
}

#[test]
fn join_puts_one_separator_between() {
    assert_eq!(join("a", "b"), "a/b");
    assert_eq!(join("a/", "b"), "a/b");
    assert_eq!(join("/", "b"), "/b");
    assert_eq!(join("", "b"), "b");
    assert_eq!(join("a", ""), "a/");
    assert_eq!(join("/x/y", "feature/z"), "/x/y/feature/z");
}

#[test]
fn resolve_keeps_rooted_folders() {
    assert_eq!(resolve("/home/me", "out"), "/home/me/out");
    assert_eq!(resolve("/home/me", "."), "/home/me/.");
    assert_eq!(resolve("/home/me", "/tmp/out"), "/tmp/out");
    assert_eq!(resolve("/home/me/", "out"), "/home/me/out");
    assert_eq!(resolve("/home/me", ""), "/home/me/");
}

#[test]
fn resolve_agrees_with_path_join() {
    for (base, folder) in [("/home/me", "out"), ("/home/me", "/tmp/out"), ("/", "x"), ("/a/", "b/c")]
    {
        let expected = Path::new(base).join(folder);
        assert_eq!(Path::new(&resolve(base, folder)), expected.as_path());
    }
}

#[test]
fn target_knows_its_directories() {
    let target = CloneTarget::new("https://host/user/project.git", "/data/out").unwrap();
    assert_eq!(target.source_url(), "https://host/user/project.git");
    assert_eq!(target.destination_root(), "/data/out");
    assert_eq!(target.repo_name(), "project");
    assert_eq!(target.work_dir(), "/data/out/project/temp");
    assert_eq!(target.output_dir("release-1.0"), "/data/out/project/release-1.0");
    assert_eq!(target.output_dir("feature/x"), "/data/out/project/feature/x");
}

#[test]
fn target_needs_a_repository_name() {
    assert!(CloneTarget::new("", "/data").is_none());
    assert!(CloneTarget::new("https://host/..", "/data").is_none());
    assert!(CloneTarget::new("/", "/data").is_none());
}

#[test]
fn target_from_configuration() {
    let config = CloneConfig {
        repo: String::from("https://host/user/project.git"),
        folder: String::from("."),
    };
    let target = CloneTarget::from_config(&config, "/home/me").unwrap();
    assert_eq!(target.destination_root(), "/home/me/.");
    assert_eq!(target.work_dir(), "/home/me/./project/temp");
    let rooted = CloneConfig { repo: String::from("p.git"), folder: String::from("/srv/out") };
    let target = CloneTarget::from_config(&rooted, "/home/me").unwrap();
    assert_eq!(target.destination_root(), "/srv/out");
    assert_eq!(target.output_dir("main"), "/srv/out/p/main");
    let nameless = CloneConfig { repo: String::from(".."), folder: String::from("x") };
    assert!(CloneTarget::from_config(&nameless, "/home/me").is_none());
}

#[test]
fn trees_are_copied_by_content_and_written_over() {
    let policy = copy_policy();
    assert!(policy.overwrite);
    assert!(policy.skip_exist);
    assert_eq!(policy.buffer_size, 64000);
    assert!(policy.copy_inside);
    assert!(policy.content_only);
    assert_eq!(policy.depth, 0);
}
