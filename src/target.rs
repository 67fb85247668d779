use vstd::prelude::*;
use crate::error::Error;

verus! {

/// The separator between a directory and the entries in it.
pub open spec fn is_separator(c: char) -> bool {
    c == '/'
}

/// Index of the last separator in `s`, or -1 when there is none.
pub open spec fn last_separator(s: Seq<char>) -> int
    decreases s.len(),
{
    if s.len() == 0 {
        -1
    } else if is_separator(s.last()) {
        s.len() - 1
    } else {
        last_separator(s.drop_last())
    }
}

/// `s` without the separators that end it.
pub open spec fn strip_trailing(s: Seq<char>) -> Seq<char>
    decreases s.len(),
{
    if s.len() > 0 && is_separator(s.last()) {
        strip_trailing(s.drop_last())
    } else {
        s
    }
}

/// The directory that holds the file at `path`, as `Path::parent` reads it.
/// Separators that end the path are dropped first; then the directory is
/// all before the last separator, without the separators that end it, or the
/// root itself when nothing but separators comes before. A path without a
/// separator before its last name, the root alone, and the empty path have
/// no directory part.
pub open spec fn parent_dir(path: Seq<char>) -> Option<Seq<char>> {
    let t = strip_trailing(path);
    let i = last_separator(t);
    if i < 0 {
        None
    } else {
        let d = strip_trailing(t.subrange(0, i));
        if d.len() == 0 {
            Some(seq!['/'])
        } else {
            Some(d)
        }
    }
}

proof fn lemma_last_separator_range(s: Seq<char>)
    ensures
        -1 <= last_separator(s) < s.len(),
        last_separator(s) >= 0 ==> is_separator(s[last_separator(s)]),
        forall|j: int| last_separator(s) < j < s.len() ==> !is_separator(#[trigger] s[j]),
    decreases s.len(),
{
    if s.len() > 0 && !is_separator(s.last()) {
        lemma_last_separator_range(s.drop_last());
        assert forall|j: int| last_separator(s) < j < s.len() implies !is_separator(#[trigger] s[j]) by {
            if j < s.len() - 1 {
                assert(s.drop_last()[j] == s[j]);
            }
        }
    }
}

proof fn lemma_strip_trailing_prefix(s: Seq<char>)
    ensures
        strip_trailing(s).len() <= s.len(),
        strip_trailing(s) == s.subrange(0, strip_trailing(s).len() as int),
        forall|j: int| strip_trailing(s).len() <= j < s.len() ==> is_separator(#[trigger] s[j]),
    decreases s.len(),
{
    if s.len() > 0 && is_separator(s.last()) {
        lemma_strip_trailing_prefix(s.drop_last());
        let k = strip_trailing(s).len() as int;
        assert(s.drop_last().subrange(0, k) =~= s.subrange(0, k));
        assert forall|j: int| k <= j < s.len() implies is_separator(#[trigger] s[j]) by {
            if j < s.len() - 1 {
                assert(s.drop_last()[j] == s[j]);
            }
        }
    } else {
        assert(s.subrange(0, s.len() as int) =~= s);
    }
}

proof fn lemma_separators_strip_to_empty(s: Seq<char>)
    requires
        forall|j: int| 0 <= j < s.len() ==> is_separator(#[trigger] s[j]),
    ensures
        strip_trailing(s).len() == 0,
    decreases s.len(),
{
    if s.len() > 0 {
        assert(is_separator(s[s.len() - 1]));
        assert forall|j: int| 0 <= j < s.drop_last().len() implies is_separator(#[trigger] s.drop_last()[j]) by {
            assert(s.drop_last()[j] == s[j]);
        }
        lemma_separators_strip_to_empty(s.drop_last());
    }
}

/// A path has a directory part exactly when a separator stands before the
/// separators that end it. So a bare file name has none, and neither has
/// the root alone.
pub proof fn lemma_parent_iff_separator(path: Seq<char>)
    ensures
        parent_dir(path) is None <==> forall|j: int|
            0 <= j < strip_trailing(path).len() ==> !is_separator(#[trigger] strip_trailing(path)[j]),
        (forall|j: int| 0 <= j < path.len() ==> !is_separator(#[trigger] path[j])) ==> parent_dir(path) is None,
        path.len() > 0 && (forall|j: int| 0 <= j < path.len() ==> is_separator(#[trigger] path[j]))
            ==> parent_dir(path) is None,
{
    let t = strip_trailing(path);
    lemma_last_separator_range(t);
    lemma_strip_trailing_prefix(path);
    if forall|j: int| 0 <= j < path.len() ==> !is_separator(#[trigger] path[j]) {
        assert forall|j: int| 0 <= j < t.len() implies !is_separator(#[trigger] t[j]) by {
            assert(t[j] == path[j]);
        }
    }
    if path.len() > 0 && (forall|j: int| 0 <= j < path.len() ==> is_separator(#[trigger] path[j])) {
        lemma_separators_strip_to_empty(path);
    }
}

/// The end of `s` once the separators that end `s.subrange(0, end)` are
/// dropped.
fn trailing_end(s: &str, end: usize) -> (k: usize)
    requires
        end <= s@.len(),
    ensures
        k <= end,
        s@.subrange(0, k as int) == strip_trailing(s@.subrange(0, end as int)),
{
    let mut k: usize = end;
    while k > 0 && s.get_char(k - 1) == '/'
        invariant
            k <= end <= s@.len(),
            strip_trailing(s@.subrange(0, end as int)) == strip_trailing(s@.subrange(0, k as int)),
        decreases k,
    {
        assert(s@.subrange(0, k as int).drop_last() =~= s@.subrange(0, k - 1));
        k = k - 1;
    }
    k
}

/// The file a session follows and the directory registered for it.
///
/// The directory is what the notification facility watches, since a file that
/// is replaced by a rename is not reliably reported when watched itself.
#[derive(Debug, Clone, PartialEq, Eq)]
pub struct WatchTarget {
    file: String,
    dir: String,
}

impl WatchTarget {
    pub closed spec fn spec_file(&self) -> Seq<char> {
        self.file@
    }

    pub closed spec fn spec_dir(&self) -> Seq<char> {
        self.dir@
    }

    /// Resolves the directory to watch for the file at `path`; fails with
    /// `NoParent` when the path has no directory part.
    pub fn new(path: &str) -> (r: Result<WatchTarget, Error>)
        ensures
            r is Err <==> parent_dir(path@) is None,
            r is Err ==> r == Err::<WatchTarget, Error>(Error::NoParent),
            r matches Ok(t) ==> t.spec_file() == path@ && Some(t.spec_dir()) == parent_dir(path@),
    {
        assert(path@.subrange(0, path@.len() as int) =~= path@);
        let n = trailing_end(path, path.unicode_len());
        let ghost t = path@.subrange(0, n as int);
        let mut i: usize = n;
        assert(path@.subrange(0, n as int) =~= t);
        while i > 0
            invariant
                i <= n <= path@.len(),
                t == path@.subrange(0, n as int),
                t == strip_trailing(path@),
                last_separator(t) == last_separator(path@.subrange(0, i as int)),
            decreases i,
        {
            let c = path.get_char(i - 1);
            let ghost pre = path@.subrange(0, i as int);
            assert(pre.drop_last() =~= path@.subrange(0, i - 1));
            if c == '/' {
                assert(t.subrange(0, i - 1) =~= path@.subrange(0, i - 1));
                let d = trailing_end(path, i - 1);
                let dir = if d == 0 {
                    proof {
                        reveal_strlit("/");
                        assert("/"@ =~= seq!['/']);
                    }
                    "/".to_owned()
                } else {
                    path.substring_char(0, d).to_owned()
                };
                return Ok(WatchTarget { file: path.to_owned(), dir });
            }
            i = i - 1;
        }
        assert(path@.subrange(0, 0) =~= Seq::<char>::empty());
        Err(Error::NoParent)
    }

    /// The path of the followed file, as given.
    pub fn file(&self) -> (r: &str)
        ensures
            r@ == self.spec_file(),
    {
        self.file.as_str()
    }

    /// The directory registered with the notification facility.
    pub fn dir(&self) -> (r: &str)
        ensures
            r@ == self.spec_dir(),
    {
        self.dir.as_str()
    }
}

} // verus!
