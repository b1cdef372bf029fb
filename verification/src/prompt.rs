//! From a detected repository to the text of the prompt.

use crate::config::Config;
use crate::detect::RepoType;
use crate::git::{collect, UNBORN_ID};
use crate::jj::JjInfo;
use crate::output::{format_git, format_jj, git_text, jj_text};
use std::path::Path;
use vstd::prelude::*;

verus! {

/// The backend whose status is read.
#[derive(Debug, Clone, Copy, PartialEq, Eq, Structural)]
pub enum Backend {
    Jj,
    Git,
}

/// The backend that reads a repository of the kind `repo_type`. Where both
/// backends govern the working copy, JJ is the one.
pub open spec fn reader_of(repo_type: RepoType) -> Option<Backend> {
    match repo_type {
        RepoType::Jj | RepoType::JjColocated => Some(Backend::Jj),
        RepoType::Git => Some(Backend::Git),
        RepoType::Absent => None,
    }
}

/// Chooses the backend for a repository of the kind `repo_type`.
pub fn backend_for(repo_type: RepoType) -> (r: Option<Backend>)
    ensures
        r == reader_of(repo_type),
{
    match repo_type {
        RepoType::Jj | RepoType::JjColocated => Some(Backend::Jj),
        RepoType::Git => Some(Backend::Git),
        RepoType::Absent => None,
    }
}

/// Produces the prompt text for a repository of the kind `repo_type` at
/// `repo_root`, or nothing where there is no repository or its state
/// cannot be read.
///
/// The state of a JJ repository is read by the caller, who passes it as
/// `jj_info`, or `None` where the read failed. The state of a Git
/// repository is read here, so the text then depends on what is on disk:
/// it is that of some status which carries either the placeholder id with
/// nothing ahead or behind, or an id no longer than the configuration
/// allows.
pub fn run_prompt(
    repo_type: RepoType,
    repo_root: Option<&Path>,
    jj_info: Option<JjInfo>,
    config: &Config,
) -> (r: Option<String>)
    ensures
        repo_root is None || reader_of(repo_type) is None ==> r is None,
        repo_root is Some && reader_of(repo_type) == Some(Backend::Jj) ==> match jj_info {
            Some(info) => r matches Some(text) && text@ == jj_text(info@, config@),
            None => r is None,
        },
        repo_root is Some && reader_of(repo_type) == Some(Backend::Git) ==> match r {
            Some(text) => exists|info: crate::git::GitStatus|
                text@ == git_text(info, config@) && ((info.head_short == UNBORN_ID@ && info.ahead
                    == 0 && info.behind == 0) || info.head_short.len()
                    <= config@.id_length),
            None => true,
        },
{
    let root = match repo_root {
        Some(root) => root,
        None => {
            return None;
        },
    };
    match backend_for(repo_type) {
        Some(Backend::Jj) => match jj_info {
            Some(info) => Some(format_jj(&info, config)),
            None => None,
        },
        Some(Backend::Git) => match collect(root, config.id_length) {
            Ok(info) => {
                let text = format_git(&info, config);
                proof {
                    assert(text@ == git_text(info@, config@));
                }
                Some(text)
            },
            Err(_) => None,
        },
        None => None,
    }
}

} // verus!
