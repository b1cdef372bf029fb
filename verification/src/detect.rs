//! Repository detection: which backend, if any, governs a directory.
//!
//! The directories from the starting one up to the filesystem root are
//! looked at in turn. The first that holds a control directory decides;
//! one that holds both is colocated.

use vstd::prelude::*;

verus! {

/// The kind of repository found.
#[derive(Debug, Clone, Copy, PartialEq, Eq, Structural)]
pub enum RepoType {
    /// No repository.
    Absent,
    /// A Git repository.
    Git,
    /// A JJ repository.
    Jj,
    /// A JJ repository that shares its working copy with Git.
    JjColocated,
}

/// The control directories that one directory holds.
#[derive(Debug, Clone, Copy, PartialEq, Eq, Structural)]
pub struct Markers {
    /// Whether the JJ control directory is there.
    pub jj: bool,
    /// Whether the Git control directory is there.
    pub git: bool,
}

/// The kind of repository that a directory with these markers is the root
/// of. Both markers together mean colocated, which is looked for first.
pub open spec fn kind_of(markers: Markers) -> RepoType {
    if markers.jj && markers.git {
        RepoType::JjColocated
    } else if markers.jj {
        RepoType::Jj
    } else if markers.git {
        RepoType::Git
    } else {
        RepoType::Absent
    }
}

/// Classifies one directory by its markers.
pub fn classify(markers: Markers) -> (r: RepoType)
    ensures
        r == kind_of(markers),
{
    if markers.jj && markers.git {
        RepoType::JjColocated
    } else if markers.jj {
        RepoType::Jj
    } else if markers.git {
        RepoType::Git
    } else {
        RepoType::Absent
    }
}

/// Where the upward walk stands after one directory was looked at.
#[derive(Debug, Clone, Copy, PartialEq, Eq, Structural)]
pub enum Walk {
    /// The directory is a repository root of this kind; the walk is over.
    Found(RepoType),
    /// Nothing here; the parent directory is next.
    Ascend,
    /// Nothing here and no parent left; the walk is over.
    NotFound,
}

/// The walk after a directory with these markers, which has a parent or
/// not.
pub open spec fn walk_after(markers: Markers, has_parent: bool) -> Walk {
    if kind_of(markers) != RepoType::Absent {
        Walk::Found(kind_of(markers))
    } else if has_parent {
        Walk::Ascend
    } else {
        Walk::NotFound
    }
}

/// Decides how the walk goes on after one directory: a marker ends it at
/// once, whatever lies above.
pub fn step(markers: Markers, has_parent: bool) -> (r: Walk)
    ensures
        r == walk_after(markers, has_parent),
        r matches Walk::Found(kind) ==> kind != RepoType::Absent,
{
    let kind = classify(markers);
    if kind != RepoType::Absent {
        Walk::Found(kind)
    } else if has_parent {
        Walk::Ascend
    } else {
        Walk::NotFound
    }
}

/// The outcome of a walk: the kind of repository and how many directories
/// above the starting one its root lies.
#[derive(Debug, Clone, Copy, PartialEq, Eq, Structural)]
pub struct Detection {
    pub repo_type: RepoType,
    pub root_level: Option<usize>,
}

impl Detection {
    /// A root is known exactly when a repository was found.
    pub open spec fn wf(&self) -> bool {
        self.root_level is None <==> self.repo_type == RepoType::Absent
    }
}

/// Whether `level` is the innermost of `levels` that holds a marker.
pub open spec fn innermost_marked(levels: Seq<Markers>, level: int) -> bool {
    &&& 0 <= level < levels.len()
    &&& kind_of(levels[level]) != RepoType::Absent
    &&& forall|k: int| 0 <= k < level ==> kind_of(#[trigger] levels[k]) == RepoType::Absent
}

/// Whether none of `levels` holds a marker.
pub open spec fn unmarked(levels: Seq<Markers>) -> bool {
    forall|k: int| 0 <= k < levels.len() ==> kind_of(#[trigger] levels[k]) == RepoType::Absent
}

/// Walks the directories `levels`, the starting directory first and the
/// filesystem root last, and reports the innermost repository root.
pub fn detect(levels: &Vec<Markers>) -> (r: Detection)
    ensures
        r.wf(),
        match r.root_level {
            Some(level) => innermost_marked(levels@, level as int) && r.repo_type == kind_of(
                levels@[level as int],
            ),
            None => unmarked(levels@),
        },
{
    let mut i: usize = 0;
    while i < levels.len()
        invariant
            i <= levels.len(),
            unmarked(levels@.take(i as int)),
        decreases levels.len() - i,
    {
        let has_parent = i + 1 < levels.len();
        match step(levels[i], has_parent) {
            Walk::Found(kind) => {
                proof {
                    assert forall|k: int| 0 <= k < i implies kind_of(#[trigger] levels@[k])
                        == RepoType::Absent by {
                        assert(levels@.take(i as int)[k] == levels@[k]);
                    }
                }
                return Detection { repo_type: kind, root_level: Some(i) };
            },
            _ => {},
        }
        proof {
            assert forall|k: int| 0 <= k < i + 1 implies kind_of(
                #[trigger] levels@.take(i + 1)[k],
            ) == RepoType::Absent by {
                if k < i {
                    assert(levels@.take(i as int)[k] == levels@[k]);
                }
            }
        }
        i = i + 1;
    }
    proof {
        assert(levels@.take(i as int) =~= levels@);
    }
    Detection { repo_type: RepoType::Absent, root_level: None }
}

/// Whether any of the directories `levels` is a repository root.
pub fn in_repo(levels: &Vec<Markers>) -> (r: bool)
    ensures
        r == !unmarked(levels@),
{
    let found = detect(levels);
    proof {
        if found.root_level is Some {
            assert(kind_of(levels@[found.root_level->0 as int]) != RepoType::Absent);
        }
    }
    found.repo_type != RepoType::Absent
}

} // verus!
