//! The orchestration decision: which candidate message a run commits.
//!
//! The run is linear — open, diff, request, optionally select, commit — and
//! this module holds its one branch point. The caller performs the I/O around
//! it: it gathers the candidates, asks the operator when a selection is
//! needed, and hands the answer back in.

use vstd::prelude::*;
use crate::api::Config;
use crate::errors::ErrorKind;
use crate::errors::MyError;
use crate::select::dec_value;
use crate::select::select_candidate;
use crate::select::valid_selection;
use crate::text::trim_spec;

verus! {

/// The views of the candidates, in order.
pub open spec fn candidate_views(candidates: Seq<String>) -> Seq<Seq<char>> {
    candidates.map_values(|s: String| s@)
}

/// The view of the operator's answer, where one was given.
pub open spec fn input_view(input: Option<&String>) -> Option<Seq<char>> {
    match input {
        Some(s) => Some(s@),
        None => None,
    }
}

/// The decision itself: no candidates is a failure of the service; a single
/// candidate is committed unprompted when the configuration says so; in
/// every other case the operator's answer picks the candidate, and a missing
/// or invalid answer ends the run without a commit.
pub open spec fn spec_choice(
    candidates: Seq<Seq<char>>,
    config: Config,
    input: Option<Seq<char>>,
) -> Result<Seq<char>, ErrorKind> {
    if candidates.len() == 0 {
        Err(ErrorKind::Api)
    } else if candidates.len() == 1 && config.auto_commit_single_candidate {
        Ok(candidates[0])
    } else {
        match input {
            Some(s) => if valid_selection(s, candidates.len()) {
                Ok(candidates[dec_value(trim_spec(s)) - 1])
            } else {
                Err(ErrorKind::InvalidSelection)
            },
            None => Err(ErrorKind::InvalidSelection),
        }
    }
}

/// Whether the caller must ask the operator before `choose_message` can
/// return a candidate.
pub fn needs_selection(n_candidates: usize, config: &Config) -> (r: bool)
    ensures
        r == (n_candidates != 0 && !(n_candidates == 1 && config.auto_commit_single_candidate)),
{
    n_candidates != 0 && !(n_candidates == 1 && config.auto_commit_single_candidate)
}

/// Applies the decision to the gathered candidates and the operator's
/// answer, if any was gathered.
pub fn choose_message(
    candidates: &Vec<String>,
    config: &Config,
    operator_input: Option<&String>,
) -> (r: Result<String, MyError>)
    ensures
        match r {
            Ok(m) => spec_choice(candidate_views(candidates@), *config, input_view(operator_input))
                == Ok::<Seq<char>, ErrorKind>(m@),
            Err(e) => spec_choice(
                candidate_views(candidates@),
                *config,
                input_view(operator_input),
            ) == Err::<Seq<char>, ErrorKind>(e.spec_kind()),
        },
{
    if candidates.len() == 0 {
        Err(MyError::ApiError("no candidates to choose from".to_owned()))
    } else if candidates.len() == 1 && config.auto_commit_single_candidate {
        let m = candidates[0].clone();
        proof {
            assert(candidate_views(candidates@)[0] == candidates@[0]@);
        }
        Ok(m)
    } else {
        match operator_input {
            Some(s) => {
                let r = select_candidate(s.as_str(), candidates);
                proof {
                    if valid_selection(s@, candidates@.len() as nat) {
                        let k = dec_value(trim_spec(s@)) - 1;
                        assert(candidate_views(candidates@)[k] == candidates@[k]@);
                    }
                }
                r
            },
            None => Err(
                MyError::InvalidSelectionError("a selection is required but none was given".to_owned()),
            ),
        }
    }
}

} // verus!
