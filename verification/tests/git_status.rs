use jj_starship::error::Error;
use jj_starship::git::{
    born_info, branch_of_target, collect, step_error, tally, unborn_info, StatusCounts,
    STATUS_CONFLICTED, STATUS_INDEX_DELETED, STATUS_INDEX_MODIFIED, STATUS_INDEX_NEW,
    STATUS_INDEX_RENAMED, STATUS_INDEX_TYPECHANGE, STATUS_WT_DELETED, STATUS_WT_MODIFIED,
    STATUS_WT_NEW, STATUS_WT_TYPECHANGE, UNBORN_ID,
};
use std::path::Path;

fn counts(staged: usize, modified: usize, untracked: usize, deleted: usize, conflicted: usize) -> StatusCounts {
    StatusCounts { staged, modified, untracked, deleted, conflicted }
}

fn assert_counts(got: StatusCounts, want: StatusCounts) {
    assert_eq!(got.staged, want.staged);
    assert_eq!(got.modified, want.modified);
    assert_eq!(got.untracked, want.untracked);
    assert_eq!(got.deleted, want.deleted);
    assert_eq!(got.conflicted, want.conflicted);
}

#[test]
fn status_bits_are_those_of_git2() {
    assert_eq!(STATUS_INDEX_NEW, git2::Status::INDEX_NEW.bits());
    assert_eq!(STATUS_INDEX_MODIFIED, git2::Status::INDEX_MODIFIED.bits());
    assert_eq!(STATUS_INDEX_DELETED, git2::Status::INDEX_DELETED.bits());
    assert_eq!(STATUS_INDEX_RENAMED, git2::Status::INDEX_RENAMED.bits());
    assert_eq!(STATUS_INDEX_TYPECHANGE, git2::Status::INDEX_TYPECHANGE.bits());
    assert_eq!(STATUS_WT_NEW, git2::Status::WT_NEW.bits());
    assert_eq!(STATUS_WT_MODIFIED, git2::Status::WT_MODIFIED.bits());
    assert_eq!(STATUS_WT_DELETED, git2::Status::WT_DELETED.bits());
    assert_eq!(STATUS_WT_TYPECHANGE, git2::Status::WT_TYPECHANGE.bits());
    assert_eq!(STATUS_CONFLICTED, git2::Status::CONFLICTED.bits());
}

#[test]
fn tally_of_nothing_is_zero() {
    assert_counts(tally(&vec![]), counts(0, 0, 0, 0, 0));
    assert_counts(tally(&vec![0, 0]), counts(0, 0, 0, 0, 0));
}

#[test]
fn tally_counts_each_class() {
    let entries = vec![
        STATUS_INDEX_NEW,
        STATUS_INDEX_MODIFIED,
        STATUS_WT_MODIFIED,
        STATUS_WT_MODIFIED,
        STATUS_WT_TYPECHANGE,
        STATUS_WT_NEW,
    ];
    assert_counts(tally(&entries), counts(2, 3, 1, 0, 0));
    let index = vec![
        STATUS_INDEX_DELETED,
        STATUS_INDEX_RENAMED,
        STATUS_INDEX_TYPECHANGE,
        STATUS_WT_DELETED,
    ];
    assert_counts(tally(&index), counts(3, 0, 0, 1, 0));
}

#[test]
fn tally_counts_one_file_in_several_classes() {
    let entries = vec![STATUS_INDEX_MODIFIED | STATUS_WT_MODIFIED, STATUS_INDEX_NEW | STATUS_WT_DELETED];
    assert_counts(tally(&entries), counts(2, 1, 0, 1, 0));
}

#[test]
fn tally_counts_a_conflicted_file_as_conflicted_only() {
    let entries = vec![
        STATUS_CONFLICTED | STATUS_INDEX_MODIFIED | STATUS_WT_MODIFIED | STATUS_WT_NEW,
        STATUS_CONFLICTED,
        STATUS_WT_NEW,
    ];
    assert_counts(tally(&entries), counts(0, 0, 1, 0, 2));
}

#[test]
fn tally_ignores_bits_outside_its_classes() {
    let ignored = git2::Status::IGNORED.bits();
    let renamed = git2::Status::WT_RENAMED.bits();
    assert_counts(tally(&vec![ignored, renamed]), counts(0, 0, 0, 0, 0));
}

#[test]
fn branch_is_read_off_the_symbolic_target() {
    assert_eq!(branch_of_target(Some("refs/heads/main".to_string())), Some("main".to_string()));
    assert_eq!(
        branch_of_target(Some("refs/heads/feature/login".to_string())),
        Some("feature/login".to_string())
    );
    assert_eq!(branch_of_target(Some("refs/heads/".to_string())), Some(String::new()));
    assert_eq!(branch_of_target(Some("refs/tags/v1".to_string())), None);
    assert_eq!(branch_of_target(Some("refs/head".to_string())), None);
    assert_eq!(branch_of_target(Some("main".to_string())), None);
    assert_eq!(branch_of_target(None), None);
}

#[test]
fn repository_without_commits_has_the_placeholder_id() {
    let info = unborn_info(Some("refs/heads/main".to_string()), tally(&vec![STATUS_WT_NEW]));
    assert_eq!(info.branch, Some("main".to_string()));
    assert_eq!(info.head_short, "empty");
    assert_eq!(info.head_short, UNBORN_ID);
    assert_eq!(info.untracked, 1);
    assert_eq!(info.staged, 0);
    assert_eq!(info.modified, 0);
    assert_eq!(info.deleted, 0);
    assert_eq!(info.conflicted, 0);
    assert_eq!(info.ahead, 0);
    assert_eq!(info.behind, 0);
}

#[test]
fn repository_without_commits_and_without_symbolic_head() {
    let info = unborn_info(None, counts(1, 0, 0, 0, 0));
    assert_eq!(info.branch, None);
    assert_eq!(info.head_short, "empty");
    assert_eq!(info.staged, 1);
}

#[test]
fn attached_head_has_branch_and_short_hash() {
    let info = born_info(
        false,
        Some("feature".to_string()),
        "1234567890abcdef1234567890abcdef12345678",
        7,
        counts(2, 3, 1, 0, 0),
        Some((2, 1)),
    );
    assert_eq!(info.branch, Some("feature".to_string()));
    assert_eq!(info.head_short, "1234567");
    assert_eq!(info.staged, 2);
    assert_eq!(info.modified, 3);
    assert_eq!(info.untracked, 1);
    assert_eq!(info.deleted, 0);
    assert_eq!(info.conflicted, 0);
    assert_eq!(info.ahead, 2);
    assert_eq!(info.behind, 1);
}

#[test]
fn detached_head_has_no_branch() {
    let info = born_info(true, Some("HEAD".to_string()), "abcdef", 8, counts(0, 0, 0, 0, 0), None);
    assert_eq!(info.branch, None);
    assert_eq!(info.head_short, "abcdef");
    assert_eq!(info.ahead, 0);
    assert_eq!(info.behind, 0);
}

#[test]
fn missing_upstream_counts_are_zero() {
    let info = born_info(false, Some("main".to_string()), "abcdef0123", 8, counts(0, 0, 0, 4, 5), None);
    assert_eq!(info.head_short, "abcdef01");
    assert_eq!((info.ahead, info.behind), (0, 0));
    assert_eq!(info.deleted, 4);
    assert_eq!(info.conflicted, 5);
}

#[test]
fn step_error_names_the_step() {
    match step_error("open", "no such directory") {
        Error::Git(message) => assert_eq!(message, "open: no such directory"),
        other => panic!("unexpected error: {other:?}"),
    }
}

#[test]
fn error_message_names_the_backend() {
    assert_eq!(Error::Git("open: gone".to_string()).message(), "git: open: gone");
    assert_eq!(Error::Jj("workspace: gone".to_string()).message(), "jj: workspace: gone");
    let io = Error::Io(std::io::Error::new(std::io::ErrorKind::NotFound, "gone"));
    assert_eq!(io.message(), "io: gone");
}

#[test]
fn collect_fails_at_open_where_no_repository_is() {
    match collect(Path::new("/nonexistent/jj-starship/no-repository-here"), 8) {
        Err(Error::Git(message)) => assert!(message.starts_with("open: "), "{message}"),
        other => panic!("unexpected result: {other:?}"),
    }
}
