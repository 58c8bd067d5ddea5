use vstd::prelude::*;

verus! {

/// The scheme prefix that marks a deep link, as a sequence of characters.
pub open spec fn scheme_prefix() -> Seq<char> {
    seq!['t', 'i', 'n', 'y', 'w', 'r', 'i', 't', 'e', ':', '/', '/']
}

/// Whether `p` is a prefix of `s`.
pub open spec fn is_prefix_of(p: Seq<char>, s: Seq<char>) -> bool {
    p.len() <= s.len() && s.subrange(0, p.len() as int) == p
}

/// The three mutually exclusive ways a launch argument is read.
#[derive(Clone, Copy, Debug, PartialEq, Eq, Structural)]
pub enum LaunchKind {
    /// No argument was given.
    Empty,
    /// The argument names a file on disk.
    File,
    /// The argument is a deep link carrying query parameters.
    DeepLink,
}

/// How an argument is read: the scheme prefix wins over everything else, and
/// any other non-empty argument is taken as a path.
pub open spec fn kind_of(source: Seq<char>) -> LaunchKind {
    if is_prefix_of(scheme_prefix(), source) {
        LaunchKind::DeepLink
    } else if source.len() > 0 {
        LaunchKind::File
    } else {
        LaunchKind::Empty
    }
}

/// Character-wise prefix test.
pub fn starts_with_chars(s: &str, p: &str) -> (r: bool)
    ensures
        r == is_prefix_of(p@, s@),
{
    let n = s.unicode_len();
    let m = p.unicode_len();
    if m > n {
        return false;
    }
    let mut i: usize = 0;
    while i < m
        invariant
            m == p@.len(),
            n == s@.len(),
            m <= n,
            i <= m,
            forall|j: int| 0 <= j < i ==> s@[j] == p@[j],
        decreases m - i,
    {
        if s.get_char(i) != p.get_char(i) {
            assert(s@.subrange(0, m as int)[i as int] != p@[i as int]);
            return false;
        }
        i = i + 1;
    }
    assert(s@.subrange(0, m as int) =~= p@);
    true
}

/// Decides which way `source` is to be read.
pub fn launch_kind(source: &str) -> (r: LaunchKind)
    ensures
        r == kind_of(source@),
{
    let prefix = "tinywrite://";
    proof {
        reveal_strlit("tinywrite://");
    }
    assert(prefix@ =~= scheme_prefix());
    if starts_with_chars(source, prefix) {
        LaunchKind::DeepLink
    } else if !source.is_empty() {
        LaunchKind::File
    } else {
        LaunchKind::Empty
    }
}

} // verus!
