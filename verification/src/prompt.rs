//! The retry-until-valid prompt loop: present a default, substitute it for an
//! empty answer, validate, and on rejection consume the next answer, without
//! an attempt limit. `run_prompt` is the mathematical statement of the loop.
use vstd::prelude::*;

use crate::script::Script;
use crate::text::{str_eq, valid_name};
use crate::validate::{
    normalized_version, valid_commands, valid_source, validate_commands, validate_license,
    validate_name, validate_version, validate_wasm_source,
};
use crate::InitError;

verus! {

/// Which rule a prompt applies to its answers.
#[derive(Clone, Copy, Debug)]
pub enum Validator {
    /// Package, module and command names, and licenses, share one rule.
    PackageName,
    License,
    /// A semantic version, returned in canonical form.
    VersionText,
    /// A module source path: ".wasm" or the sentinel.
    SourcePath,
    /// A space-separated command list; empty means "no commands".
    CommandList,
    /// A numbered selection from the three-item environment menu.
    AbiChoice,
    /// A yes/no confirmation, yes by default.
    YesNo,
}

/// Whether validator `v` accepts the (default-substituted) answer `s`.
pub open spec fn accepts(v: Validator, s: Seq<char>) -> bool {
    match v {
        Validator::PackageName => valid_name(s),
        Validator::License => valid_name(s),
        Validator::VersionText => normalized_version(s) is Some,
        Validator::SourcePath => valid_source(s),
        Validator::CommandList => valid_commands(s),
        Validator::AbiChoice => s.len() == 0 || s == "0"@ || s == "1"@ || s == "2"@,
        Validator::YesNo => s.len() == 0 || s == "y"@ || s == "yes"@ || s == "n"@ || s == "no"@,
    }
}

/// The typed value an accepted answer turns into: the canonical version for
/// version prompts, a digit for the menu, "yes" or "no" for confirmations,
/// and the answer itself everywhere else.
pub open spec fn accepted_value(v: Validator, s: Seq<char>) -> Seq<char> {
    match v {
        Validator::VersionText => normalized_version(s)->0,
        Validator::AbiChoice => if s.len() == 0 {
            "0"@
        } else {
            s
        },
        Validator::YesNo => if s.len() == 0 || s == "y"@ || s == "yes"@ {
            "yes"@
        } else {
            "no"@
        },
        _ => s,
    }
}

/// Applies one validator to one answer.
pub fn apply_validator(v: &Validator, s: &str) -> (r: Result<String, String>)
    ensures
        r is Ok <==> accepts(*v, s@),
        r matches Ok(val) ==> val@ == accepted_value(*v, s@),
{
    match v {
        Validator::PackageName => validate_name(s),
        Validator::License => validate_license(s),
        Validator::VersionText => validate_version(s),
        Validator::SourcePath => validate_wasm_source(s),
        Validator::CommandList => validate_commands(s),
        Validator::AbiChoice => {
            if s.is_empty() {
                Ok(String::from_str("0"))
            } else if str_eq(s, "0") || str_eq(s, "1") || str_eq(s, "2") {
                Ok(s.to_owned())
            } else {
                Err(String::from_str("Enter a number between 0 and 2"))
            }
        },
        Validator::YesNo => {
            if s.is_empty() || str_eq(s, "y") || str_eq(s, "yes") {
                Ok(String::from_str("yes"))
            } else if str_eq(s, "n") || str_eq(s, "no") {
                Ok(String::from_str("no"))
            } else {
                Err(String::from_str("Answer yes or no"))
            }
        },
    }
}

/// The answer a prompt works with: the line itself, or the default when the
/// line is empty (pressing enter takes the shown default).
pub open spec fn effective(line: Seq<char>, default: Option<Seq<char>>) -> Seq<char> {
    if line.len() > 0 {
        line
    } else {
        match default {
            Some(d) => d,
            None => Seq::empty(),
        }
    }
}

/// What one plain question returns: the effective answer, with emptiness
/// standing for "no answer".
pub open spec fn asked(line: Seq<char>, default: Option<Seq<char>>) -> Option<Seq<char>> {
    let eff = effective(line, default);
    if eff.len() == 0 {
        None
    } else {
        Some(eff)
    }
}

/// Asks one question: consumes one answer, substitutes the default for an
/// empty line, and returns `None` for an (effectively) empty answer.
pub fn ask(script: &mut Script, default: &Option<String>) -> (r: Result<Option<String>, InitError>)
    ensures
        old(script).remaining().len() == 0 ==> (r matches Err(e) && e is AnswersExhausted
            && final(script).remaining() == old(script).remaining()),
        old(script).remaining().len() > 0 ==> (r matches Ok(v) && final(script).remaining() == old(
            script,
        ).remaining().skip(1) && v.deep_view() == asked(
            old(script).remaining()[0],
            default.deep_view(),
        )),
{
    let line = match script.next_answer() {
        None => {
            return Err(InitError::AnswersExhausted);
        },
        Some(l) => l,
    };
    let value: String = if line.as_str().is_empty() {
        match default {
            Some(d) => d.clone(),
            None => String::new(),
        }
    } else {
        line
    };
    if value.as_str().is_empty() {
        proof {
            assert(effective(old(script).remaining()[0], default.deep_view()) =~= value@);
        }
        Ok(None)
    } else {
        Ok(Some(value))
    }
}

/// What the retry loop returns on a given answer sequence: the first accepted
/// (default-substituted) answer's value and the answers left after it, or
/// `None` when every answer is rejected.
pub open spec fn run_prompt(
    answers: Seq<Seq<char>>,
    default: Option<Seq<char>>,
    v: Validator,
) -> Option<(Seq<char>, Seq<Seq<char>>)>
    decreases answers.len(),
{
    if answers.len() == 0 {
        None
    } else {
        let eff = effective(answers[0], default);
        if accepts(v, eff) {
            Some((accepted_value(v, eff), answers.skip(1)))
        } else {
            run_prompt(answers.skip(1), default, v)
        }
    }
}

/// The retry loop consumes at least one answer when it succeeds, and what it
/// leaves is strictly shorter than what it started from.
pub proof fn lemma_run_prompt_rest(
    answers: Seq<Seq<char>>,
    default: Option<Seq<char>>,
    v: Validator,
)
    ensures
        run_prompt(answers, default, v) matches Some(p) ==> p.1.len() < answers.len(),
    decreases answers.len(),
{
    if answers.len() > 0 {
        lemma_run_prompt_rest(answers.skip(1), default, v);
    }
}

/// What the retry loop returns is the value of some accepted answer.
pub proof fn lemma_run_prompt_accepted(
    answers: Seq<Seq<char>>,
    default: Option<Seq<char>>,
    v: Validator,
)
    ensures
        run_prompt(answers, default, v) matches Some(p) ==> exists|eff: Seq<char>|
            accepts(v, eff) && p.0 == accepted_value(v, eff),
    decreases answers.len(),
{
    if answers.len() > 0 {
        let eff0 = effective(answers[0], default);
        if accepts(v, eff0) {
            let p = run_prompt(answers, default, v)->0;
            assert(accepts(v, eff0) && p.0 == accepted_value(v, eff0));
        } else {
            lemma_run_prompt_accepted(answers.skip(1), default, v);
        }
    }
}

/// Asks until an answer validates: presents the default, validates the
/// effective answer, and on rejection consumes the next answer; it fails only
/// when the answer source runs out.
pub fn ask_until_valid(script: &mut Script, default: &Option<String>, validator: &Validator) -> (r:
    Result<String, InitError>)
    ensures
        r is Ok <==> run_prompt(old(script).remaining(), default.deep_view(), *validator) is Some,
        r matches Ok(val) ==> (run_prompt(old(script).remaining(), default.deep_view(), *validator)
            matches Some(p) && val@ == p.0 && final(script).remaining() == p.1),
        r matches Err(e) ==> e is AnswersExhausted,
{
    let ghost orig = script.remaining();
    loop
        invariant
            orig == old(script).remaining(),
            run_prompt(orig, default.deep_view(), *validator) == run_prompt(
                script.remaining(),
                default.deep_view(),
                *validator,
            ),
        decreases script.remaining().len(),
    {
        let ghost rem = script.remaining();
        let line_opt = match ask(script, default) {
            Err(e) => {
                return Err(e);
            },
            Ok(v) => v,
        };
        let text: String = match line_opt {
            Some(s) => s,
            None => String::new(),
        };
        proof {
            assert(text@ =~= effective(rem[0], default.deep_view()));
        }
        match apply_validator(validator, text.as_str()) {
            Ok(val) => {
                return Ok(val);
            },
            Err(_rejection) => {
                // the driver shows the rejection and the loop re-prompts with
                // the same default
            },
        }
    }
}

} // verus!
