use rusteze_commit::diff::ChangeKind;
use rusteze_commit::diff::DiffStats;
use rusteze_commit::diff::DiffSummary;
use rusteze_commit::diff::FileChange;
use rusteze_commit::diff::to_path_list;
use rusteze_commit::diff::to_prompt_text;
use rusteze_commit::diff::to_stats;
use rusteze_commit::diff::DEFAULT_STATS_WIDTH;

fn two_file_summary() -> DiffSummary {
    DiffSummary {
        files: vec![
            FileChange { path: "src/a.rs".to_string(), kind: ChangeKind::Modified },
            FileChange { path: "src/b.rs".to_string(), kind: ChangeKind::New },
        ],
        stats: None,
    }
}

#[test]
fn prompt_text_is_deterministic() {
    let d = two_file_summary();
    let first = to_prompt_text(&d);
    let second = to_prompt_text(&d);
    assert_eq!(first, second);
    assert_eq!(first, "src/a.rs\nsrc/b.rs\n");
}

#[test]
fn prompt_text_of_empty_summary_is_empty() {
    let d = DiffSummary { files: vec![], stats: None };
    assert_eq!(to_prompt_text(&d), "");
}

#[test]
fn path_list_keeps_diff_order() {
    let d = two_file_summary();
    let paths = to_path_list(&d);
    assert_eq!(paths, vec!["src/a.rs".to_string(), "src/b.rs".to_string()]);
}

#[test]
fn stats_block_exact() {
    let d = DiffSummary {
        files: vec![],
        stats: Some(DiffStats { files_changed: 3, insertions: 10, deletions: 2 }),
    };
    assert_eq!(
        to_stats(&d, DEFAULT_STATS_WIDTH),
        "3 files changed, 10 insertions(+), 2 deletions(-)"
    );
}

#[test]
fn stats_block_wraps_to_width_without_losing_text() {
    let d = DiffSummary {
        files: vec![],
        stats: Some(DiffStats { files_changed: 3, insertions: 10, deletions: 2 }),
    };
    assert_eq!(
        to_stats(&d, 10),
        "3 files ch\nanged, 10 \ninsertions\n(+), 2 del\netions(-)"
    );
}

#[test]
fn stats_block_empty_without_stats() {
    let d = DiffSummary { files: vec![], stats: None };
    assert_eq!(to_stats(&d, DEFAULT_STATS_WIDTH), "");
}
