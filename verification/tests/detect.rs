use jj_starship::config::Config;
use jj_starship::detect::{classify, detect, in_repo, step, Markers, RepoType, Walk};
use jj_starship::jj::JjInfo;
use jj_starship::prompt::{backend_for, run_prompt, Backend};
use std::path::Path;

const NOTHING: Markers = Markers { jj: false, git: false };
const GIT: Markers = Markers { jj: false, git: true };
const JJ: Markers = Markers { jj: true, git: false };
const BOTH: Markers = Markers { jj: true, git: true };

fn some_jj() -> JjInfo {
    JjInfo {
        change_id: "yzxv1234".into(),
        bookmark: Some("main".into()),
        empty_desc: false,
        conflict: false,
        divergent: false,
        has_remote: true,
        is_synced: true,
    }
}

#[test]
fn markers_classify_a_directory() {
    assert_eq!(classify(NOTHING), RepoType::Absent);
    assert_eq!(classify(GIT), RepoType::Git);
    assert_eq!(classify(JJ), RepoType::Jj);
    assert_eq!(classify(BOTH), RepoType::JjColocated);
}

#[test]
fn a_marker_ends_the_walk() {
    assert_eq!(step(GIT, true), Walk::Found(RepoType::Git));
    assert_eq!(step(JJ, false), Walk::Found(RepoType::Jj));
    assert_eq!(step(BOTH, true), Walk::Found(RepoType::JjColocated));
    assert_eq!(step(NOTHING, true), Walk::Ascend);
    assert_eq!(step(NOTHING, false), Walk::NotFound);
}

#[test]
fn walk_to_the_root_without_markers_finds_nothing() {
    let levels = vec![NOTHING, NOTHING, NOTHING, NOTHING];
    let found = detect(&levels);
    assert_eq!(found.repo_type, RepoType::Absent);
    assert_eq!(found.root_level, None);
    assert!(!in_repo(&levels));
    let config = Config::default();
    assert_eq!(run_prompt(found.repo_type, None, None, &config), None);
}

#[test]
fn walk_over_no_directory_finds_nothing() {
    let found = detect(&vec![]);
    assert_eq!(found.repo_type, RepoType::Absent);
    assert_eq!(found.root_level, None);
    assert!(!in_repo(&vec![]));
}

#[test]
fn innermost_marker_wins() {
    let found = detect(&vec![NOTHING, GIT, JJ, BOTH]);
    assert_eq!(found.repo_type, RepoType::Git);
    assert_eq!(found.root_level, Some(1));
    let found = detect(&vec![JJ, GIT]);
    assert_eq!(found.repo_type, RepoType::Jj);
    assert_eq!(found.root_level, Some(0));
    let found = detect(&vec![NOTHING, NOTHING, JJ]);
    assert_eq!(found.repo_type, RepoType::Jj);
    assert_eq!(found.root_level, Some(2));
    assert!(in_repo(&vec![NOTHING, NOTHING, JJ]));
}

#[test]
fn both_markers_at_one_level_are_colocated() {
    let found = detect(&vec![NOTHING, BOTH, GIT]);
    assert_eq!(found.repo_type, RepoType::JjColocated);
    assert_eq!(found.root_level, Some(1));
}

#[test]
fn markers_at_different_levels_are_not_colocated() {
    let found = detect(&vec![GIT, JJ]);
    assert_eq!(found.repo_type, RepoType::Git);
    assert_eq!(found.root_level, Some(0));
}

#[test]
fn jj_reads_a_colocated_repository() {
    assert_eq!(backend_for(RepoType::Jj), Some(Backend::Jj));
    assert_eq!(backend_for(RepoType::JjColocated), Some(Backend::Jj));
    assert_eq!(backend_for(RepoType::Git), Some(Backend::Git));
    assert_eq!(backend_for(RepoType::Absent), None);
}

#[test]
fn prompt_of_a_jj_repository() {
    let mut config = Config::default();
    config.jj_display.show_color = false;
    config.jj_symbol = "".into();
    let root = Path::new("/somewhere");
    assert_eq!(
        run_prompt(RepoType::Jj, Some(root), Some(some_jj()), &config),
        Some("on main (yzxv1234)".to_string())
    );
    assert_eq!(
        run_prompt(RepoType::JjColocated, Some(root), Some(some_jj()), &config),
        Some("on main (yzxv1234)".to_string())
    );
}

#[test]
fn prompt_is_empty_where_the_read_failed() {
    let config = Config::default();
    let root = Path::new("/nonexistent/jj-starship/no-repository-here");
    assert_eq!(run_prompt(RepoType::Jj, Some(root), None, &config), None);
    assert_eq!(run_prompt(RepoType::Git, Some(root), None, &config), None);
    assert_eq!(run_prompt(RepoType::Jj, None, Some(some_jj()), &config), None);
    assert_eq!(run_prompt(RepoType::Absent, Some(root), Some(some_jj()), &config), None);
}
