//! Operator selection of one candidate message.
//!
//! The operator answers with a 1-based decimal index. An out-of-range or
//! non-numeric answer is an invalid selection and the run terminates without
//! committing.

use vstd::prelude::*;
use crate::errors::ErrorKind;
use crate::errors::MyError;
use crate::text::trim_owned;
use crate::text::trim_spec;

verus! {

pub open spec fn is_digit(c: char) -> bool {
    48 <= c as u32 && c as u32 <= 57
}

pub open spec fn digit_val(c: char) -> nat
    recommends
        is_digit(c),
{
    (c as u32 - 48) as nat
}

pub open spec fn all_digits(s: Seq<char>) -> bool {
    forall|i: int| 0 <= i < s.len() ==> is_digit(s[i])
}

/// The number a digit string denotes, most significant digit first.
pub open spec fn dec_value(s: Seq<char>) -> nat
    decreases s.len(),
{
    if s.len() == 0 {
        0
    } else {
        dec_value(s.drop_last()) * 10 + digit_val(s.last())
    }
}

/// Whether `input`, after trimming, names one of `n` candidates: a non-empty
/// digit string whose value lies between 1 and `n`.
pub open spec fn valid_selection(input: Seq<char>, n: nat) -> bool {
    let t = trim_spec(input);
    t.len() > 0 && all_digits(t) && 1 <= dec_value(t) <= n
}

/// Parses a trimmed answer as a 1-based index into `n_candidates`
/// candidates; `None` on a non-numeric, zero, or out-of-range answer.
fn parse_selection(t: &str, n_candidates: usize) -> (r: Option<usize>)
    ensures
        match r {
            Some(k) => t@.len() > 0 && all_digits(t@) && k == dec_value(t@) && 1 <= k
                <= n_candidates,
            None => !(t@.len() > 0 && all_digits(t@) && 1 <= dec_value(t@) <= n_candidates),
        },
{
    let n = t.unicode_len();
    if n == 0 {
        return None;
    }
    let bound: u128 = n_candidates as u128;
    let mut acc: u128 = 0;
    let mut over: bool = false;
    let mut i: usize = 0;
    while i < n
        invariant
            i <= n,
            n == t@.len(),
            bound == n_candidates as u128,
            all_digits(t@.take(i as int)),
            !over ==> acc == dec_value(t@.take(i as int)) && acc <= bound,
            over ==> dec_value(t@.take(i as int)) > bound,
        decreases n - i,
    {
        let c = t.get_char(i);
        let cv = c as u32;
        if cv < 48 || cv > 57 {
            proof {
                assert(!is_digit(t@[i as int]));
            }
            return None;
        }
        proof {
            assert(t@.take(i + 1).drop_last() =~= t@.take(i as int));
            assert(t@.take(i + 1).last() == t@[i as int]);
        }
        let d = (cv - 48) as u128;
        if over {
            proof {
                assert(dec_value(t@.take(i + 1)) == dec_value(t@.take(i as int)) * 10 + digit_val(
                    t@[i as int],
                ));
            }
        } else {
            let next = acc * 10 + d;
            if next > bound {
                over = true;
            } else {
                acc = next;
            }
        }
        i += 1;
    }
    proof {
        assert(t@.take(n as int) =~= t@);
    }
    if over {
        None
    } else if acc == 0 {
        None
    } else {
        Some(acc as usize)
    }
}

/// Picks the candidate that the operator's answer names. `Ok` exactly when
/// the trimmed answer is a digit string between 1 and the number of
/// candidates; the result is then that candidate, unchanged.
pub fn select_candidate(input: &str, candidates: &Vec<String>) -> (r: Result<String, MyError>)
    ensures
        match r {
            Ok(m) => valid_selection(input@, candidates@.len() as nat) && m@ == candidates@[
                dec_value(trim_spec(input@)) - 1
            ]@,
            Err(e) => !valid_selection(input@, candidates@.len() as nat) && e.spec_kind()
                == ErrorKind::InvalidSelection,
        },
{
    let t = trim_owned(input);
    match parse_selection(t.as_str(), candidates.len()) {
        Some(k) => Ok(candidates[k - 1].clone()),
        None => Err(
            MyError::InvalidSelectionError(
                "the answer must be a number between 1 and the number of candidates".to_owned(),
            ),
        ),
    }
}

} // verus!
