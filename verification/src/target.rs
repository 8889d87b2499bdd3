//! What to clone and where to: the configuration as given, the target
//! derived from it, and the directories that a run works in.

use vstd::prelude::*;
use crate::names::{repo_name, repo_name_of};

verus! {

/// `leaf` below `base`: the two joined by one separator, which is left out
/// where `base` is empty or already ends in one.
pub open spec fn join_path(base: Seq<char>, leaf: Seq<char>) -> Seq<char> {
    if base.len() > 0 && base.last() != '/' {
        base + seq!['/'] + leaf
    } else {
        base + leaf
    }
}

/// `folder` as seen from `base`: itself where it starts at the root, and
/// below `base` otherwise.
pub open spec fn resolve_path(base: Seq<char>, folder: Seq<char>) -> Seq<char> {
    if folder.len() > 0 && folder[0] == '/' {
        folder
    } else {
        join_path(base, folder)
    }
}

/// The directory that everything of one repository is put under.
pub open spec fn repo_dir_of(root: Seq<char>, repo: Seq<char>) -> Seq<char> {
    join_path(root, repo)
}

/// The name of the temporary working tree below the repository's
/// directory.
pub open spec fn work_dir_name() -> Seq<char> {
    "temp"@
}

/// The temporary working tree of a run.
pub open spec fn work_dir_of(root: Seq<char>, repo: Seq<char>) -> Seq<char> {
    join_path(repo_dir_of(root, repo), work_dir_name())
}

/// The directory that the branch with the given short name is copied to.
pub open spec fn output_dir_of(root: Seq<char>, repo: Seq<char>, short: Seq<char>) -> Seq<char> {
    join_path(repo_dir_of(root, repo), short)
}

/// Joins two path texts with one separator between them.
pub fn join(base: &str, leaf: &str) -> (path: String)
    ensures
        path@ == join_path(base@, leaf@),
{
    let mut path = base.to_owned();
    let len = base.unicode_len();
    if len > 0 && base.get_char(len - 1) != '/' {
        path.append("/");
        proof {
            reveal_strlit("/");
            assert("/"@ =~= seq!['/']);
        }
    }
    path.append(leaf);
    path
}

/// Places `folder` relative to `base`, unless it starts at the root.
pub fn resolve(base: &str, folder: &str) -> (path: String)
    ensures
        path@ == resolve_path(base@, folder@),
{
    if folder.unicode_len() > 0 && folder.get_char(0) == '/' {
        folder.to_owned()
    } else {
        join(base, folder)
    }
}

/// What the user asked for: the repository to clone and the folder to
/// put the results in.
#[derive(Clone, Debug)]
pub struct CloneConfig {
    /// Locator of the repository to copy.
    pub repo: String,
    /// Destination folder within which all files are created.
    pub folder: String,
}

/// A source repository together with the place for its output. The
/// repository name is derived from the locator once and names the
/// directory that all output goes under.
#[derive(Debug)]
pub struct CloneTarget {
    source_url: String,
    destination_root: String,
    repo_name: String,
}

impl CloneTarget {
    #[verifier::type_invariant]
    spec fn named_after_source(&self) -> bool {
        repo_name_of(self.source_url@) == Some(self.repo_name@)
    }

    /// The locator of the source repository.
    pub closed spec fn source(&self) -> Seq<char> {
        self.source_url@
    }

    /// The folder that the output is put in.
    pub closed spec fn root(&self) -> Seq<char> {
        self.destination_root@
    }

    /// The repository name.
    pub closed spec fn repo(&self) -> Seq<char> {
        self.repo_name@
    }

    /// A target for the given locator and destination folder. There is
    /// none where the locator names no repository.
    pub fn new(source_url: &str, destination_root: &str) -> (target: Option<CloneTarget>)
        ensures
            target is Some <==> repo_name_of(source_url@) is Some,
            target is Some ==> {
                &&& target.unwrap().source() == source_url@
                &&& target.unwrap().root() == destination_root@
                &&& target.unwrap().repo() == repo_name_of(source_url@).unwrap()
            },
    {
        match repo_name(source_url) {
            Some(name) => Some(
                CloneTarget {
                    source_url: source_url.to_owned(),
                    destination_root: destination_root.to_owned(),
                    repo_name: name.to_owned(),
                },
            ),
            None => None,
        }
    }

    /// The target that a configuration describes when read in the
    /// directory `base`: the configured folder is taken relative to `base`
    /// unless it starts at the root.
    pub fn from_config(config: &CloneConfig, base: &str) -> (target: Option<CloneTarget>)
        ensures
            target is Some <==> repo_name_of(config.repo@) is Some,
            target is Some ==> {
                &&& target.unwrap().source() == config.repo@
                &&& target.unwrap().root() == resolve_path(base@, config.folder@)
                &&& target.unwrap().repo() == repo_name_of(config.repo@).unwrap()
            },
    {
        let root = resolve(base, config.folder.as_str());
        CloneTarget::new(config.repo.as_str(), root.as_str())
    }

    /// The locator of the source repository.
    pub fn source_url(&self) -> (url: &str)
        ensures
            url@ == self.source(),
    {
        self.source_url.as_str()
    }

    /// The folder that the output is put in.
    pub fn destination_root(&self) -> (root: &str)
        ensures
            root@ == self.root(),
    {
        self.destination_root.as_str()
    }

    /// The repository name.
    pub fn repo_name(&self) -> (name: &str)
        ensures
            name@ == self.repo(),
            repo_name_of(self.source()) == Some(name@),
    {
        proof {
            use_type_invariant(self);
        }
        self.repo_name.as_str()
    }

    /// The temporary working tree: `temp` below the repository's
    /// directory.
    pub fn work_dir(&self) -> (path: String)
        ensures
            path@ == work_dir_of(self.root(), self.repo()),
    {
        let dir = join(self.destination_root.as_str(), self.repo_name.as_str());
        join(dir.as_str(), "temp")
    }

    /// The directory for the branch with the given short name, below the
    /// repository's directory.
    pub fn output_dir(&self, short_name: &str) -> (path: String)
        ensures
            path@ == output_dir_of(self.root(), self.repo(), short_name@),
    {
        let dir = join(self.destination_root.as_str(), self.repo_name.as_str());
        join(dir.as_str(), short_name)
    }
}

/// How a tree is copied to its directory.
#[derive(Clone, Copy, Debug, PartialEq, Eq, Structural)]
pub struct CopyPolicy {
    /// Files that exist at the destination are written over.
    pub overwrite: bool,
    /// A file that exists at the destination is no error.
    pub skip_exist: bool,
    /// The size of the buffer that files are copied through, in bytes.
    pub buffer_size: usize,
    /// Missing directories on the way to the destination are created.
    pub copy_inside: bool,
    /// What is in the source is copied, not the source directory itself.
    pub content_only: bool,
    /// How many levels to descend; zero for all of them.
    pub depth: u64,
}

/// The policy that every branch's tree is copied under.
pub open spec fn tree_copy() -> CopyPolicy {
    CopyPolicy {
        overwrite: true,
        skip_exist: true,
        buffer_size: 64000,
        copy_inside: true,
        content_only: true,
        depth: 0,
    }
}

/// The policy for copying a branch's tree: the content of the working
/// tree, to any depth, written over what is there, into a directory that
/// is created where it is missing.
pub fn copy_policy() -> (policy: CopyPolicy)
    ensures
        policy == tree_copy(),
{
    CopyPolicy {
        overwrite: true,
        skip_exist: true,
        buffer_size: 64000,
        copy_inside: true,
        content_only: true,
        depth: 0,
    }
}

} // verus!
