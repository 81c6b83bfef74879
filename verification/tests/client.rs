use rusteze_commit::api::auth_header_value;
use rusteze_commit::api::build_chat_body;
use rusteze_commit::api::build_chat_request;
use rusteze_commit::api::build_legacy_body;
use rusteze_commit::api::build_prompt;
use rusteze_commit::api::extract_candidates;
use rusteze_commit::api::Choice;
use rusteze_commit::api::CompletionResponse;
use rusteze_commit::api::Config;
use rusteze_commit::errors::ErrorKind;
use rusteze_commit::errors::MyError;

fn config(use_emoji: bool, use_description: bool) -> Config {
    Config { use_emoji, use_description, auto_commit_single_candidate: true }
}

#[test]
fn empty_choices_is_an_api_error() {
    let resp = CompletionResponse { choices: vec![] };
    let err = extract_candidates(&resp).unwrap_err();
    assert_eq!(err.kind(), ErrorKind::Api);
}

#[test]
fn message_content_is_preferred() {
    let resp = CompletionResponse {
        choices: vec![Choice { message_content: Some("fix: x".to_string()), text: None }],
    };
    let candidates = extract_candidates(&resp).unwrap();
    assert_eq!(candidates, vec!["fix: x".to_string()]);
}

#[test]
fn text_field_is_the_fallback_and_is_trimmed() {
    let resp = CompletionResponse {
        choices: vec![Choice { message_content: None, text: Some("  fix: y  ".to_string()) }],
    };
    let candidates = extract_candidates(&resp).unwrap();
    assert_eq!(candidates, vec!["fix: y".to_string()]);
}

#[test]
fn message_content_wins_over_text_and_is_trimmed() {
    let resp = CompletionResponse {
        choices: vec![Choice {
            message_content: Some(" fix: a \n".to_string()),
            text: Some("fix: b".to_string()),
        }],
    };
    let candidates = extract_candidates(&resp).unwrap();
    assert_eq!(candidates, vec!["fix: a".to_string()]);
}

#[test]
fn choice_with_neither_field_yields_no_candidate() {
    let resp = CompletionResponse {
        choices: vec![
            Choice { message_content: None, text: None },
            Choice { message_content: Some("feat: z".to_string()), text: None },
        ],
    };
    let candidates = extract_candidates(&resp).unwrap();
    assert_eq!(candidates, vec!["feat: z".to_string()]);
}

#[test]
fn only_empty_fielded_choices_is_an_api_error() {
    let resp = CompletionResponse {
        choices: vec![Choice { message_content: None, text: None }],
    };
    let err = extract_candidates(&resp).unwrap_err();
    assert_eq!(err.kind(), ErrorKind::Api);
}

#[test]
fn prompt_rendering_exact() {
    let p = build_prompt("a.txt\n", &config(true, false));
    let expected = "You are to act as the author of a commit message in git. Your mission is to create clean and comprehensive commit messages in the conventional commit convention and explain why a change was done. The diff is: a.txt\n\nUse GitMoji convention to preface the commit: true\nAdd a short description of WHY the changes are done after the commit message: false";
    assert_eq!(p, expected);
}

#[test]
fn prompt_rendering_is_deterministic() {
    let a = build_prompt("d", &config(false, true));
    let b = build_prompt("d", &config(false, true));
    assert_eq!(a, b);
}

#[test]
fn chat_body_escapes_the_prompt() {
    let body = build_chat_body("gpt-3.5-turbo", "say \"hi\"\nplease\\now");
    assert_eq!(
        body,
        "{\"model\":\"gpt-3.5-turbo\",\"messages\":[{\"role\":\"user\",\"content\":\"say \\\"hi\\\"\\nplease\\\\now\"}]}"
    );
}

#[test]
fn chat_body_escapes_control_characters() {
    let body = build_chat_body("m", "a\u{1}b\u{1f}c");
    assert_eq!(
        body,
        "{\"model\":\"m\",\"messages\":[{\"role\":\"user\",\"content\":\"a\\u0001b\\u001fc\"}]}"
    );
}

#[test]
fn unicode_whitespace_is_trimmed_from_candidates() {
    let resp = CompletionResponse {
        choices: vec![Choice {
            message_content: Some("\u{a0}fix: nb\u{3000}".to_string()),
            text: None,
        }],
    };
    let candidates = extract_candidates(&resp).unwrap();
    assert_eq!(candidates, vec!["fix: nb".to_string()]);
}

#[test]
fn legacy_body_exact() {
    let body = build_legacy_body("diff text", 50, 1);
    assert_eq!(body, "{\"prompt\":\"diff text\",\"max_tokens\":50,\"n\":1}");
}

#[test]
fn chat_request_carries_endpoint_key_and_body() {
    let r = build_chat_request("https://example.invalid/v1/chat", "k", "m", "p");
    assert_eq!(r.endpoint, "https://example.invalid/v1/chat");
    assert_eq!(r.api_key, "k");
    assert_eq!(r.body, "{\"model\":\"m\",\"messages\":[{\"role\":\"user\",\"content\":\"p\"}]}");
}

#[test]
fn auth_header_is_bearer() {
    assert_eq!(auth_header_value("secret"), "Bearer secret");
}

#[test]
fn error_messages_carry_kind_prefix() {
    assert_eq!(MyError::ApiError("bad".to_string()).message(), "API error: bad");
    assert_eq!(
        MyError::RepositoryError("no HEAD".to_string()).message(),
        "repository error: no HEAD"
    );
    assert_eq!(
        MyError::InvalidSelectionError("nope".to_string()).message(),
        "invalid selection: nope"
    );
    assert_eq!(MyError::TransportError("down".to_string()).message(), "transport error: down");
    assert_eq!(MyError::ConfigError("no key".to_string()).message(), "configuration error: no key");
}
