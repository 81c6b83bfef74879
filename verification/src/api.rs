//! The completion client's verified core.
//!
//! This module renders the prompt and the JSON request body for the remote
//! completion service, and extracts candidate commit messages from its parsed
//! response. The network call itself happens outside the crate: the caller
//! sends `CompletionRequest.body` and hands the parsed response back as a
//! `CompletionResponse` of plain values.

use vstd::prelude::*;
use crate::errors::ErrorKind;
use crate::errors::MyError;
use crate::text::dec_str;
use crate::text::hex_digit;
use crate::text::hex_digit_str;
use crate::text::trim_owned;
use crate::text::trim_spec;
use crate::text::u64_to_string;

verus! {

/// Process-scoped settings of one run. Read-only after initial load.
#[derive(Clone, Copy, Debug, PartialEq, Eq, Structural)]
pub struct Config {
    /// Ask the model to preface the message with an emoji.
    pub use_emoji: bool,
    /// Ask the model to append a short rationale.
    pub use_description: bool,
    /// Commit without prompting when exactly one candidate is returned.
    pub auto_commit_single_candidate: bool,
}

/// One entry of the response's `choices` list, reduced to the two fields the
/// client reads: `message.content` and `text`.
#[derive(Clone, Debug)]
pub struct Choice {
    pub message_content: Option<String>,
    pub text: Option<String>,
}

/// A parsed completion response: its ordered `choices` list.
#[derive(Clone, Debug)]
pub struct CompletionResponse {
    pub choices: Vec<Choice>,
}

/// The candidate a choice yields: `message.content` preferred, `text` as the
/// fallback, in that order, trimmed; nothing where both are absent.
pub open spec fn candidate_of(c: Choice) -> Option<Seq<char>> {
    match c.message_content {
        Some(m) => Some(trim_spec(m@)),
        None => match c.text {
            Some(t) => Some(trim_spec(t@)),
            None => None,
        },
    }
}

/// All candidates of a `choices` list, in the provider's order.
pub open spec fn candidates_of(choices: Seq<Choice>) -> Seq<Seq<char>>
    decreases choices.len(),
{
    if choices.len() == 0 {
        Seq::empty()
    } else {
        candidates_of(choices.drop_last()) + (match candidate_of(choices.last()) {
            Some(s) => seq![s],
            None => Seq::<Seq<char>>::empty(),
        })
    }
}

/// Extracts the candidate commit messages from a parsed response, in order.
/// An empty candidate list is a failure, never an empty success.
pub fn extract_candidates(resp: &CompletionResponse) -> (r: Result<Vec<String>, MyError>)
    ensures
        match r {
            Ok(v) => candidates_of(resp.choices@).len() > 0 && v@.len() == candidates_of(
                resp.choices@,
            ).len() && (forall|i: int|
                0 <= i < v@.len() ==> v@[i]@ == candidates_of(resp.choices@)[i]),
            Err(e) => candidates_of(resp.choices@).len() == 0 && e.spec_kind()
                == ErrorKind::Api,
        },
{
    let mut v: Vec<String> = Vec::new();
    let mut i: usize = 0;
    while i < resp.choices.len()
        invariant
            i <= resp.choices@.len(),
            v@.len() == candidates_of(resp.choices@.take(i as int)).len(),
            forall|j: int|
                0 <= j < v@.len() ==> v@[j]@ == candidates_of(resp.choices@.take(i as int))[j],
        decreases resp.choices@.len() - i,
    {
        let c = &resp.choices[i];
        match &c.message_content {
            Some(m) => {
                v.push(trim_owned(m.as_str()));
            },
            None => {
                match &c.text {
                    Some(t) => {
                        v.push(trim_owned(t.as_str()));
                    },
                    None => {},
                }
            },
        }
        proof {
            assert(resp.choices@.take(i + 1).drop_last() =~= resp.choices@.take(i as int));
            assert(resp.choices@.take(i + 1).last() == resp.choices@[i as int]);
        }
        i += 1;
    }
    proof {
        assert(resp.choices@.take(resp.choices@.len() as int) =~= resp.choices@);
    }
    if v.len() == 0 {
        Err(MyError::ApiError("no candidate messages in the completion response".to_owned()))
    } else {
        Ok(v)
    }
}

/// The word a directive renders to.
pub open spec fn spec_bool_word(b: bool) -> Seq<char> {
    if b {
        "true"@
    } else {
        "false"@
    }
}

fn bool_word(b: bool) -> (r: &'static str)
    ensures
        r@ == spec_bool_word(b),
{
    if b {
        "true"
    } else {
        "false"
    }
}

/// The instruction sent to the completion service: the fixed briefing, the
/// diff text, and the two boolean directives rendered as words.
pub open spec fn spec_prompt(diff_text: Seq<char>, use_emoji: bool, use_description: bool) -> Seq<
    char,
> {
    "You are to act as the author of a commit message in git. Your mission is to create clean and comprehensive commit messages in the conventional commit convention and explain why a change was done. The diff is: "@
        + diff_text + "\nUse GitMoji convention to preface the commit: "@ + spec_bool_word(
        use_emoji,
    ) + "\nAdd a short description of WHY the changes are done after the commit message: "@
        + spec_bool_word(use_description)
}

/// Builds the natural-language instruction for one request. Deterministic:
/// a function of the diff text and the two directives alone.
pub fn build_prompt(diff_text: &str, config: &Config) -> (r: String)
    ensures
        r@ == spec_prompt(diff_text@, config.use_emoji, config.use_description),
{
    let mut r =
        "You are to act as the author of a commit message in git. Your mission is to create clean and comprehensive commit messages in the conventional commit convention and explain why a change was done. The diff is: ".to_owned();
    r.append(diff_text);
    r.append("\nUse GitMoji convention to preface the commit: ");
    r.append(bool_word(config.use_emoji));
    r.append("\nAdd a short description of WHY the changes are done after the commit message: ");
    r.append(bool_word(config.use_description));
    r
}

/// How one character is written inside a JSON string literal: quote and
/// backslash are escaped, newline, carriage return and tab by their short
/// forms, every other control character below U+0020 as `\u00XX`; any other
/// character stands as itself.
pub open spec fn escape_char(c: char) -> Seq<char> {
    if c == '"' {
        seq!['\\', '"']
    } else if c == '\\' {
        seq!['\\', '\\']
    } else if c == '\n' {
        seq!['\\', 'n']
    } else if c == '\r' {
        seq!['\\', 'r']
    } else if c == '\t' {
        seq!['\\', 't']
    } else if (c as u32) < 32 {
        seq!['\\', 'u', '0', '0', hex_digit((c as u32 / 16) as nat), hex_digit(
            (c as u32 % 16) as nat,
        )]
    } else {
        seq![c]
    }
}

/// `s` written as the inside of a JSON string literal.
pub open spec fn json_escape(s: Seq<char>) -> Seq<char>
    decreases s.len(),
{
    if s.len() == 0 {
        Seq::empty()
    } else {
        json_escape(s.drop_last()) + escape_char(s.last())
    }
}

/// Escapes `s` for embedding in a JSON string literal.
pub fn json_escape_str(s: &str) -> (r: String)
    ensures
        r@ == json_escape(s@),
{
    let n = s.unicode_len();
    let mut r = String::new();
    let mut i: usize = 0;
    while i < n
        invariant
            i <= n,
            n == s@.len(),
            r@ == json_escape(s@.take(i as int)),
        decreases n - i,
    {
        let c = s.get_char(i);
        if c == '"' {
            r.append("\\\"");
            proof {
                reveal_strlit("\\\"");
                assert("\\\""@ =~= escape_char('"'));
            }
        } else if c == '\\' {
            r.append("\\\\");
            proof {
                reveal_strlit("\\\\");
                assert("\\\\"@ =~= escape_char('\\'));
            }
        } else if c == '\n' {
            r.append("\\n");
            proof {
                reveal_strlit("\\n");
                assert("\\n"@ =~= escape_char('\n'));
            }
        } else if c == '\r' {
            r.append("\\r");
            proof {
                reveal_strlit("\\r");
                assert("\\r"@ =~= escape_char('\r'));
            }
        } else if c == '\t' {
            r.append("\\t");
            proof {
                reveal_strlit("\\t");
                assert("\\t"@ =~= escape_char('\t'));
            }
        } else if (c as u32) < 32 {
            let cv = c as u32;
            r.append("\\u00");
            r.append(hex_digit_str(cv / 16));
            r.append(hex_digit_str(cv % 16));
            proof {
                reveal_strlit("\\u00");
                assert("\\u00"@ + seq![hex_digit((cv / 16) as nat)] + seq![
                    hex_digit((cv % 16) as nat),
                ] =~= escape_char(c));
            }
        } else {
            let one = s.substring_char(i, i + 1);
            r.append(one);
            proof {
                assert(one@ =~= escape_char(c));
            }
        }
        proof {
            assert(s@.take(i + 1).drop_last() =~= s@.take(i as int));
            assert(s@.take(i + 1).last() == s@[i as int]);
        }
        i += 1;
    }
    proof {
        assert(s@.take(n as int) =~= s@);
    }
    r
}

/// The chat-style request body: one user turn carrying the prompt.
pub open spec fn spec_chat_body(model: Seq<char>, prompt: Seq<char>) -> Seq<char> {
    "{\"model\":\""@ + json_escape(model)
        + "\",\"messages\":[{\"role\":\"user\",\"content\":\""@ + json_escape(prompt)
        + "\"}]}"@
}

/// Renders the chat-style request body.
pub fn build_chat_body(model: &str, prompt: &str) -> (r: String)
    ensures
        r@ == spec_chat_body(model@, prompt@),
{
    let mut r = "{\"model\":\"".to_owned();
    let escaped_model = json_escape_str(model);
    r.append(escaped_model.as_str());
    r.append("\",\"messages\":[{\"role\":\"user\",\"content\":\"");
    let escaped_prompt = json_escape_str(prompt);
    r.append(escaped_prompt.as_str());
    r.append("\"}]}");
    r
}

/// The legacy completion-style request body: prompt, token budget and
/// candidate count.
pub open spec fn spec_legacy_body(prompt: Seq<char>, max_tokens: u32, n: u32) -> Seq<char> {
    "{\"prompt\":\""@ + json_escape(prompt) + "\",\"max_tokens\":"@ + dec_str(max_tokens as nat)
        + ",\"n\":"@ + dec_str(n as nat) + "}"@
}

/// Renders the legacy completion-style request body.
pub fn build_legacy_body(prompt: &str, max_tokens: u32, n: u32) -> (r: String)
    ensures
        r@ == spec_legacy_body(prompt@, max_tokens, n),
{
    let mut r = "{\"prompt\":\"".to_owned();
    let escaped_prompt = json_escape_str(prompt);
    r.append(escaped_prompt.as_str());
    r.append("\",\"max_tokens\":");
    let tokens_text = u64_to_string(max_tokens as u64);
    r.append(tokens_text.as_str());
    r.append(",\"n\":");
    let count_text = u64_to_string(n as u64);
    r.append(count_text.as_str());
    r.append("}");
    r
}

/// The value of the authorization header for one request.
pub fn auth_header_value(api_key: &str) -> (r: String)
    ensures
        r@ == "Bearer "@ + api_key@,
{
    let mut r = "Bearer ".to_owned();
    r.append(api_key);
    r
}

/// Everything one outbound call needs: where to send, how to authorize, and
/// the body to post. Built fresh per call; never reused.
#[derive(Clone, Debug)]
pub struct CompletionRequest {
    pub endpoint: String,
    pub api_key: String,
    pub body: String,
}

/// Builds a chat-style request against the given endpoint and model.
pub fn build_chat_request(endpoint: &str, api_key: &str, model: &str, prompt: &str) -> (r:
    CompletionRequest)
    ensures
        r.endpoint@ == endpoint@,
        r.api_key@ == api_key@,
        r.body@ == spec_chat_body(model@, prompt@),
{
    CompletionRequest {
        endpoint: endpoint.to_owned(),
        api_key: api_key.to_owned(),
        body: build_chat_body(model, prompt),
    }
}

/// Builds a legacy completion-style request against the given endpoint.
pub fn build_legacy_request(endpoint: &str, api_key: &str, prompt: &str, max_tokens: u32, n: u32)
    -> (r: CompletionRequest)
    ensures
        r.endpoint@ == endpoint@,
        r.api_key@ == api_key@,
        r.body@ == spec_legacy_body(prompt@, max_tokens, n),
{
    CompletionRequest {
        endpoint: endpoint.to_owned(),
        api_key: api_key.to_owned(),
        body: build_legacy_body(prompt, max_tokens, n),
    }
}

} // verus!
