use vstd::prelude::*;

verus! {

/// The coarse kind of a change reported by the notification facility.
#[derive(Debug, Clone, Copy, PartialEq, Eq)]
pub enum EventKind {
    Create,
    Modify,
    Remove,
    Access,
    Other,
}

/// A change reported by the notification facility: its kind and the paths
/// it names.
#[derive(Debug, Clone, PartialEq, Eq)]
pub struct WatchEvent {
    pub kind: EventKind,
    pub paths: Vec<String>,
}

/// Whether a change of this kind may have given the file new contents.
pub open spec fn spec_kind_reloads(kind: EventKind) -> bool {
    kind is Modify || kind is Create
}

/// An event calls for a reload of the file at `file` when it names exactly
/// that one path and is a modification or a creation.
pub open spec fn spec_relevant(kind: EventKind, paths: Seq<Seq<char>>, file: Seq<char>) -> bool {
    &&& paths.len() == 1
    &&& paths[0] == file
    &&& spec_kind_reloads(kind)
}

impl EventKind {
    /// Whether a change of this kind may have given the file new contents.
    pub fn reloads(&self) -> (r: bool)
        ensures
            r == spec_kind_reloads(*self),
    {
        match self {
            EventKind::Modify | EventKind::Create => true,
            _ => false,
        }
    }
}

impl WatchEvent {
    /// The named paths, as sequences of characters.
    pub open spec fn spec_paths(&self) -> Seq<Seq<char>> {
        self.paths@.map_values(|p: String| p@)
    }

    /// Whether this event calls for a reload of the file at `file`.
    pub fn is_relevant(&self, file: &str) -> (r: bool)
        ensures
            r == spec_relevant(self.kind, self.spec_paths(), file@),
    {
        if self.paths.len() != 1 {
            return false;
        }
        let named: &str = self.paths[0].as_str();
        if !str_eq(named, file) {
            return false;
        }
        self.kind.reloads()
    }
}

/// Character-wise equality of two strings.
fn str_eq(a: &str, b: &str) -> (r: bool)
    ensures
        r == (a@ == b@),
{
    let n = a.unicode_len();
    if n != b.unicode_len() {
        return false;
    }
    let mut i: usize = 0;
    while i < n
        invariant
            n == a@.len(),
            n == b@.len(),
            i <= n,
            forall|j: int| 0 <= j < i ==> a@[j] == b@[j],
        decreases n - i,
    {
        if a.get_char(i) != b.get_char(i) {
            return false;
        }
        i = i + 1;
    }
    assert(a@ =~= b@);
    true
}

/// Events that name only other paths, and removals of the followed file
/// itself, never call for a reload.
pub proof fn lemma_other_paths_and_removals_ignored(kind: EventKind, paths: Seq<Seq<char>>, file: Seq<char>)
    requires
        (forall|i: int| 0 <= i < paths.len() ==> paths[i] != file) || kind is Remove,
    ensures
        !spec_relevant(kind, paths, file),
{
}

} // verus!
