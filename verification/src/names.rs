//! Names derived from text: the repository name out of a source locator.

use vstd::prelude::*;

verus! {

/// The position of the last `c` in `s`, or -1 where there is none.
pub open spec fn last_index_of(s: Seq<char>, c: char) -> int
    decreases s.len(),
{
    if s.len() == 0 {
        -1
    } else if s.last() == c {
        s.len() - 1
    } else {
        last_index_of(s.drop_last(), c)
    }
}

/// Whether `s` ends in a lone `.` segment: a dot that is the whole text or
/// directly follows a separator.
pub open spec fn ends_in_dot_segment(s: Seq<char>) -> bool {
    s.len() >= 1 && s.last() == '.' && (s.len() == 1 || s[s.len() - 2] == '/')
}

/// The length of `s` without the separators and lone `.` segments at its
/// end: where the last proper segment stops.
pub open spec fn trimmed_len(s: Seq<char>) -> nat
    decreases s.len(),
{
    if s.len() == 0 {
        0
    } else if s.last() == '/' || ends_in_dot_segment(s) {
        trimmed_len(s.drop_last())
    } else {
        s.len()
    }
}

/// The last segment of a `/`-separated locator, trailing separators and
/// lone `.` segments aside. There is none where nothing is left or the
/// segment is `..`.
pub open spec fn file_name_of(s: Seq<char>) -> Option<Seq<char>> {
    let end = trimmed_len(s) as int;
    let start = last_index_of(s.subrange(0, end), '/') + 1;
    let name = s.subrange(start, end);
    if name.len() == 0 || name == seq!['.', '.'] {
        None
    } else {
        Some(name)
    }
}

/// A file name without its extension: what stands before the last dot.
/// A name without a dot, or whose only dot is its first character, is kept
/// whole.
pub open spec fn stem_of(name: Seq<char>) -> Seq<char> {
    let dot = last_index_of(name, '.');
    if dot <= 0 {
        name
    } else {
        name.subrange(0, dot)
    }
}

/// The repository name that a source locator implies: the stem of its
/// file name.
pub open spec fn repo_name_of(s: Seq<char>) -> Option<Seq<char>> {
    match file_name_of(s) {
        Some(name) => Some(stem_of(name)),
        None => None,
    }
}

/// `last_index_of` finds an occurrence, and nothing occurs after it.
pub proof fn lemma_last_index_of(s: Seq<char>, c: char)
    ensures
        -1 <= last_index_of(s, c) < s.len(),
        last_index_of(s, c) >= 0 ==> s[last_index_of(s, c)] == c,
        forall|i: int| last_index_of(s, c) < i < s.len() ==> s[i] != c,
    decreases s.len(),
{
    if s.len() > 0 && s.last() != c {
        let head = s.drop_last();
        lemma_last_index_of(head, c);
        assert forall|i: int| last_index_of(s, c) < i < s.len() implies s[i] != c by {
            if i < head.len() {
                assert(head[i] == s[i]);
            }
        }
    }
}

/// Looks for the last `c` among the first `end` characters of `s`;
/// returns one more than its position, or 0 where there is none.
fn after_last(s: &str, end: usize, c: char) -> (pos: usize)
    requires
        end <= s@.len(),
    ensures
        pos == last_index_of(s@.subrange(0, end as int), c) + 1,
        pos <= end,
{
    let mut i: usize = end;
    while i > 0
        invariant
            i <= end <= s@.len(),
            last_index_of(s@.subrange(0, end as int), c) == last_index_of(
                s@.subrange(0, i as int),
                c,
            ),
        decreases i,
    {
        let ghost head = s@.subrange(0, i as int);
        if s.get_char(i - 1) == c {
            assert(head.last() == c);
            proof {
                lemma_last_index_of(s@.subrange(0, end as int), c);
            }
            return i;
        }
        assert(head.drop_last() =~= s@.subrange(0, (i - 1) as int));
        i = i - 1;
    }
    proof {
        lemma_last_index_of(s@.subrange(0, end as int), c);
    }
    0
}

/// Finds where the last proper segment of `s` stops.
fn trimmed_end(s: &str, len: usize) -> (end: usize)
    requires
        len == s@.len(),
    ensures
        end == trimmed_len(s@),
        end <= len,
{
    let mut i: usize = len;
    assert(s@.subrange(0, len as int) =~= s@);
    while i > 0
        invariant
            i <= len == s@.len(),
            trimmed_len(s@) == trimmed_len(s@.subrange(0, i as int)),
        decreases i,
    {
        let ghost head = s@.subrange(0, i as int);
        let last = s.get_char(i - 1);
        let lone_dot = last == '.' && (i == 1 || s.get_char(i - 2) == '/');
        assert(head.last() == last);
        assert(lone_dot == ends_in_dot_segment(head));
        if last == '/' || lone_dot {
            assert(head.drop_last() =~= s@.subrange(0, (i - 1) as int));
            i = i - 1;
        } else {
            return i;
        }
    }
    assert(s@.subrange(0, 0) =~= Seq::<char>::empty());
    0
}

/// The repository name that a source locator implies, where it has one:
/// the last segment of the locator, without separators or lone `.`
/// segments after it, cut before its last dot. A locator that is empty,
/// consists of separators only, or ends in `..` names no repository.
pub fn repo_name(path: &str) -> (name: Option<&str>)
    ensures
        name is Some <==> repo_name_of(path@) is Some,
        name is Some ==> name.unwrap()@ == repo_name_of(path@).unwrap(),
{
    let len = path.unicode_len();
    let end = trimmed_end(path, len);
    let start = after_last(path, end, '/');
    let file = path.substring_char(start, end);
    let file_len = end - start;
    if file_len == 0 {
        return None;
    }
    if file_len == 2 && file.get_char(0) == '.' && file.get_char(1) == '.' {
        assert(file@ =~= seq!['.', '.']);
        return None;
    }
    assert(file@ != seq!['.', '.']) by {
        if file@ == seq!['.', '.'] {
            assert(file@.len() == 2);
            assert(file@[0] == '.' && file@[1] == '.');
        }
    }
    let dot = after_last(file, file_len, '.');
    assert(file@.subrange(0, file_len as int) =~= file@);
    if dot <= 1 {
        Some(file)
    } else {
        Some(file.substring_char(0, dot - 1))
    }
}

/// The repository name that a source locator implies.
pub fn extra_repo_name(path: &str) -> (name: &str)
    requires
        repo_name_of(path@) is Some,
    ensures
        name@ == repo_name_of(path@).unwrap(),
{
    match repo_name(path) {
        Some(name) => name,
        None => path,
    }
}

} // verus!
