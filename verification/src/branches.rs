//! Remote-tracking branches: how a full reference name splits into remote
//! and branch, and which of a repository's references name such a branch.

use vstd::prelude::*;

verus! {

/// What every remote-tracking reference begins with.
pub open spec fn tracking_prefix() -> Seq<char> {
    "refs/remotes/"@
}

/// The position of the first `c` in `s`, or the length of `s` where there
/// is none.
pub open spec fn first_index_of(s: Seq<char>, c: char) -> int
    decreases s.len(),
{
    if s.len() == 0 {
        0
    } else if s[0] == c {
        0
    } else {
        1 + first_index_of(s.subrange(1, s.len() as int), c)
    }
}

/// Whether `s` begins with `prefix`.
pub open spec fn has_prefix(s: Seq<char>, prefix: Seq<char>) -> bool {
    prefix.len() <= s.len() && s.subrange(0, prefix.len() as int) == prefix
}

/// The branch part of a remote-tracking reference name. Such a name is the
/// fixed prefix, a remote name without separator, a separator, and the
/// branch name, which may hold separators but does not start with one.
/// Remote and branch are both non-empty. Any other text names no branch.
pub open spec fn short_name_of(full: Seq<char>) -> Option<Seq<char>> {
    if has_prefix(full, tracking_prefix()) {
        let rest = full.subrange(tracking_prefix().len() as int, full.len() as int);
        let slash = first_index_of(rest, '/');
        if 0 < slash && slash + 1 < rest.len() && rest[slash + 1] != '/' {
            Some(rest.subrange(slash + 1, rest.len() as int))
        } else {
            None
        }
    } else {
        None
    }
}

/// `first_index_of` finds an occurrence, and nothing occurs before it.
pub proof fn lemma_first_index_of(s: Seq<char>, c: char)
    ensures
        0 <= first_index_of(s, c) <= s.len(),
        first_index_of(s, c) < s.len() ==> s[first_index_of(s, c)] == c,
        forall|i: int| 0 <= i < first_index_of(s, c) ==> s[i] != c,
    decreases s.len(),
{
    if s.len() > 0 && s[0] != c {
        let tail = s.subrange(1, s.len() as int);
        lemma_first_index_of(tail, c);
        assert forall|i: int| 0 <= i < first_index_of(s, c) implies s[i] != c by {
            if i > 0 {
                assert(tail[i - 1] == s[i]);
            }
        }
    }
}

/// A position that holds `c` and has no `c` before it is the first.
pub proof fn lemma_first_index_is(s: Seq<char>, c: char, at: int)
    requires
        0 <= at <= s.len(),
        at < s.len() ==> s[at] == c,
        forall|i: int| 0 <= i < at ==> s[i] != c,
    ensures
        first_index_of(s, c) == at,
{
    lemma_first_index_of(s, c);
    let found = first_index_of(s, c);
    if found < at {
        assert(s[found] != c);
    }
}

/// A remote-tracking branch: its full reference name and the branch name
/// that the name ends in.
#[derive(Clone, Debug)]
pub struct RemoteBranchRef {
    pub full_name: String,
    pub short_name: String,
}

impl RemoteBranchRef {
    /// The short name is the one that the full name implies.
    pub open spec fn wf(&self) -> bool {
        short_name_of(self.full_name@) == Some(self.short_name@)
    }

    /// Reads a full reference name. Gives the branch where the name is
    /// that of a remote-tracking branch, and nothing otherwise.
    pub fn parse(full_name: &str) -> (branch: Option<RemoteBranchRef>)
        ensures
            branch is Some <==> short_name_of(full_name@) is Some,
            branch is Some ==> branch.unwrap().wf() && branch.unwrap().full_name@ == full_name@,
    {
        match short_branch_name(full_name) {
            Some(short) => Some(
                RemoteBranchRef { full_name: full_name.to_owned(), short_name: short.to_owned() },
            ),
            None => None,
        }
    }
}

/// Whether `s` begins with `prefix`.
pub fn starts_with(s: &str, prefix: &str) -> (b: bool)
    ensures
        b == has_prefix(s@, prefix@),
{
    let n = prefix.unicode_len();
    if s.unicode_len() < n {
        return false;
    }
    let mut i: usize = 0;
    while i < n
        invariant
            i <= n == prefix@.len() <= s@.len(),
            s@.subrange(0, i as int) == prefix@.subrange(0, i as int),
        decreases n - i,
    {
        if s.get_char(i) != prefix.get_char(i) {
            assert(s@.subrange(0, n as int)[i as int] != prefix@[i as int]);
            return false;
        }
        assert(s@.subrange(0, i + 1) =~= s@.subrange(0, i as int).push(s@[i as int]));
        assert(prefix@.subrange(0, i + 1) =~= prefix@.subrange(0, i as int).push(
            prefix@[i as int],
        ));
        i = i + 1;
    }
    assert(prefix@.subrange(0, n as int) =~= prefix@);
    true
}

/// The branch part of a remote-tracking reference name, or nothing where
/// the text is no such name.
pub fn short_branch_name(full_name: &str) -> (short: Option<&str>)
    ensures
        short is Some <==> short_name_of(full_name@) is Some,
        short is Some ==> short.unwrap()@ == short_name_of(full_name@).unwrap(),
{
    let prefix = "refs/remotes/";
    if !starts_with(full_name, prefix) {
        return None;
    }
    let len = full_name.unicode_len();
    let from = prefix.unicode_len();
    let ghost rest = full_name@.subrange(from as int, len as int);
    let mut i: usize = from;
    while i < len && full_name.get_char(i) != '/'
        invariant
            from <= i <= len == full_name@.len(),
            rest == full_name@.subrange(from as int, len as int),
            forall|k: int| 0 <= k < i - from ==> rest[k] != '/',
        decreases len - i,
    {
        i = i + 1;
    }
    proof {
        lemma_first_index_is(rest, '/', i - from);
    }
    if i == from || len - i < 2 {
        return None;
    }
    if full_name.get_char(i + 1) == '/' {
        return None;
    }
    let short = full_name.substring_char(i + 1, len);
    assert(short@ =~= rest.subrange(i - from + 1, rest.len() as int));
    Some(short)
}

/// The full reference names among `names` that name a remote-tracking
/// branch, in the order in which they stand there.
pub open spec fn tracking_names(names: Seq<Seq<char>>) -> Seq<Seq<char>>
    decreases names.len(),
{
    if names.len() == 0 {
        Seq::empty()
    } else if short_name_of(names.last()) is Some {
        tracking_names(names.drop_last()).push(names.last())
    } else {
        tracking_names(names.drop_last())
    }
}

/// The text of each string.
pub open spec fn texts(names: Seq<String>) -> Seq<Seq<char>> {
    names.map_values(|name: String| name@)
}

/// The full reference name of each branch.
pub open spec fn full_names(branches: Seq<RemoteBranchRef>) -> Seq<Seq<char>> {
    branches.map_values(|branch: RemoteBranchRef| branch.full_name@)
}

/// Every branch carries the short name that its full name implies.
pub open spec fn all_wf(branches: Seq<RemoteBranchRef>) -> bool {
    forall|i: int| 0 <= i < branches.len() ==> (#[trigger] branches[i]).wf()
}

/// The remote-tracking branches among the reference names of a
/// repository, in the order in which the names were listed. Names of
/// another shape are passed over.
pub fn remote_branches(names: &Vec<String>) -> (branches: Vec<RemoteBranchRef>)
    ensures
        full_names(branches@) == tracking_names(texts(names@)),
        all_wf(branches@),
{
    let mut branches: Vec<RemoteBranchRef> = Vec::new();
    let mut i: usize = 0;
    assert(texts(names@).subrange(0, 0) =~= Seq::<Seq<char>>::empty());
    assert(full_names(branches@) =~= Seq::<Seq<char>>::empty());
    while i < names.len()
        invariant
            i <= names.len(),
            full_names(branches@) == tracking_names(texts(names@).subrange(0, i as int)),
            all_wf(branches@),
        decreases names.len() - i,
    {
        let ghost seen = texts(names@).subrange(0, i + 1);
        assert(seen.drop_last() =~= texts(names@).subrange(0, i as int));
        assert(seen.last() == names@[i as int]@);
        let ghost before = branches@;
        match RemoteBranchRef::parse(names[i].as_str()) {
            Some(branch) => {
                branches.push(branch);
                assert(full_names(branches@) =~= full_names(before).push(branch.full_name@));
            },
            None => {},
        }
        i = i + 1;
    }
    assert(texts(names@).subrange(0, i as int) =~= texts(names@));
    branches
}

/// Whatever the remote is called: a reference name made of the fixed
/// prefix, a remote name, a separator and a branch name has that branch
/// name as its short name. The remote name must be non-empty and free of
/// separators, the branch name non-empty and not start with one.
pub proof fn law_short_name_of_composed(remote: Seq<char>, branch: Seq<char>)
    requires
        remote.len() > 0,
        forall|i: int| 0 <= i < remote.len() ==> remote[i] != '/',
        branch.len() > 0,
        branch[0] != '/',
    ensures
        short_name_of(tracking_prefix() + remote + seq!['/'] + branch) == Some(branch),
{
    let prefix = tracking_prefix();
    let full = prefix + remote + seq!['/'] + branch;
    assert(full.subrange(0, prefix.len() as int) =~= prefix);
    let rest = full.subrange(prefix.len() as int, full.len() as int);
    assert(rest =~= remote + seq!['/'] + branch);
    lemma_first_index_is(rest, '/', remote.len() as int);
    assert(rest.subrange(remote.len() as int + 1, rest.len() as int) =~= branch);
}

/// A short name is what the full name ends in, is never empty, and leaves
/// room before it for the prefix, a remote name and a separator.
pub proof fn law_short_name_is_suffix(full: Seq<char>)
    requires
        short_name_of(full) is Some,
    ensures
        ({
            let short = short_name_of(full).unwrap();
            &&& 0 < short.len()
            &&& tracking_prefix().len() + 2 + short.len() <= full.len()
            &&& full.subrange(full.len() - short.len(), full.len() as int) == short
        }),
{
    let prefix = tracking_prefix();
    let rest = full.subrange(prefix.len() as int, full.len() as int);
    lemma_first_index_of(rest, '/');
    let short = short_name_of(full).unwrap();
    assert(full.subrange(full.len() - short.len(), full.len() as int) =~= short);
}

/// A reference name as it is shown: without the fixed prefix where it has
/// it, so that a remote-tracking branch reads as remote, separator, branch.
pub open spec fn qualified_name_of(full: Seq<char>) -> Seq<char> {
    if has_prefix(full, tracking_prefix()) {
        full.subrange(tracking_prefix().len() as int, full.len() as int)
    } else {
        full
    }
}

/// A reference name as it is shown: without the fixed prefix.
pub fn qualified_name(full_name: &str) -> (name: &str)
    ensures
        name@ == qualified_name_of(full_name@),
{
    let prefix = "refs/remotes/";
    if starts_with(full_name, prefix) {
        full_name.substring_char(prefix.unicode_len(), full_name.unicode_len())
    } else {
        full_name
    }
}

} // verus!
