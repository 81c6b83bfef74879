use rusteze_commit::api::Config;
use rusteze_commit::errors::ErrorKind;
use rusteze_commit::orchestrate::choose_message;
use rusteze_commit::orchestrate::needs_selection;
use rusteze_commit::select::select_candidate;

fn candidates() -> Vec<String> {
    vec!["a".to_string(), "b".to_string(), "c".to_string()]
}

fn config(auto: bool) -> Config {
    Config { use_emoji: false, use_description: false, auto_commit_single_candidate: auto }
}

#[test]
fn input_two_selects_the_second_candidate() {
    let picked = select_candidate("2", &candidates()).unwrap();
    assert_eq!(picked, "b");
}

#[test]
fn out_of_range_input_is_invalid() {
    let err = select_candidate("5", &candidates()).unwrap_err();
    assert_eq!(err.kind(), ErrorKind::InvalidSelection);
}

#[test]
fn non_numeric_input_is_invalid() {
    let err = select_candidate("abc", &candidates()).unwrap_err();
    assert_eq!(err.kind(), ErrorKind::InvalidSelection);
}

#[test]
fn zero_is_invalid() {
    let err = select_candidate("0", &candidates()).unwrap_err();
    assert_eq!(err.kind(), ErrorKind::InvalidSelection);
}

#[test]
fn empty_input_is_invalid() {
    let err = select_candidate("   ", &candidates()).unwrap_err();
    assert_eq!(err.kind(), ErrorKind::InvalidSelection);
}

#[test]
fn surrounding_whitespace_is_tolerated() {
    let picked = select_candidate(" 1 \n", &candidates()).unwrap();
    assert_eq!(picked, "a");
}

#[test]
fn huge_input_is_invalid_not_a_panic() {
    let err = select_candidate("99999999999999999999999999", &candidates()).unwrap_err();
    assert_eq!(err.kind(), ErrorKind::InvalidSelection);
}

#[test]
fn single_candidate_auto_commits_without_input() {
    let one = vec!["refactor: rename module".to_string()];
    let picked = choose_message(&one, &config(true), None).unwrap();
    assert_eq!(picked, "refactor: rename module");
}

#[test]
fn single_candidate_without_auto_policy_needs_input() {
    let one = vec!["fix: a".to_string()];
    let err = choose_message(&one, &config(false), None).unwrap_err();
    assert_eq!(err.kind(), ErrorKind::InvalidSelection);
    let picked = choose_message(&one, &config(false), Some(&"1".to_string())).unwrap();
    assert_eq!(picked, "fix: a");
}

#[test]
fn several_candidates_follow_the_operator_input() {
    let picked = choose_message(&candidates(), &config(true), Some(&"3".to_string())).unwrap();
    assert_eq!(picked, "c");
    let err = choose_message(&candidates(), &config(true), Some(&"9".to_string())).unwrap_err();
    assert_eq!(err.kind(), ErrorKind::InvalidSelection);
}

#[test]
fn no_candidates_is_an_api_error() {
    let none: Vec<String> = vec![];
    let err = choose_message(&none, &config(true), None).unwrap_err();
    assert_eq!(err.kind(), ErrorKind::Api);
}

#[test]
fn needs_selection_follows_the_policy() {
    assert!(!needs_selection(0, &config(true)));
    assert!(!needs_selection(1, &config(true)));
    assert!(needs_selection(1, &config(false)));
    assert!(needs_selection(2, &config(true)));
}
