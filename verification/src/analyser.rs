//! The analysis engine: threat detection, risk scoring, and the independent
//! install-script findings heuristic.

pub mod finding;
pub mod risk_score;
pub mod threat;

use vstd::prelude::*;
use vstd::string::StringExecFns;
use crate::analyser::finding::Finding;
use crate::analyser::finding::Severity;
use crate::parser::package_json::PackageJson;
use crate::parser::extract_install_scripts;
use crate::parser::install_hooks;
use crate::parser::script_complexity;
use crate::text::dec_rep;
use crate::text::token_count;
use crate::text::usize_to_decimal;

verus! {

/// A lifecycle script with more whitespace-delimited tokens than this is
/// reported as complex.
pub const COMPLEX_TOKEN_LIMIT: usize = 20;

/// The finding severity owed to a script: `Medium` when its token count
/// exceeds [`COMPLEX_TOKEN_LIMIT`], `Low` otherwise.
pub open spec fn expected_severity(script: Seq<char>) -> Severity {
    if token_count(script) > COMPLEX_TOKEN_LIMIT {
        Severity::Medium
    } else {
        Severity::Low
    }
}

/// The finding message owed to a hook: complex scripts quote the hook name,
/// the token count and the script; others quote the hook name and script.
pub open spec fn expected_message(name: Seq<char>, script: Seq<char>) -> Seq<char> {
    if token_count(script) > COMPLEX_TOKEN_LIMIT {
        "Complex "@ + name + " script ("@ + dec_rep(token_count(script)) + " tokens): "@ + script
    } else {
        name + " script present: "@ + script
    }
}

/// Each finding carries the severity and message owed to the corresponding
/// lifecycle hook entry.
pub open spec fn findings_match(fs: Seq<Finding>, hooks: Seq<(String, String)>) -> bool {
    &&& fs.len() == hooks.len()
    &&& forall|i: int|
        0 <= i < fs.len() ==> #[trigger] fs[i].severity == expected_severity(hooks[i].1@)
            && fs[i].message@ == expected_message(hooks[i].0@, hooks[i].1@)
}

/// Classifies each lifecycle script in the manifest by token count: one
/// `Medium` finding per complex script, one `Low` finding per other script,
/// in the order the scripts mapping lists them. A manifest without a
/// scripts mapping yields no findings.
pub fn analyze_install_scripts(pkg: &PackageJson) -> (findings: Vec<Finding>)
    ensures
        pkg.scripts is None ==> findings@.len() == 0,
        pkg.scripts matches Some(m) ==> findings_match(findings@, install_hooks(m@)),
{
    let hooks = extract_install_scripts(pkg);
    let mut findings: Vec<Finding> = Vec::new();
    let n = hooks.len();
    let mut i: usize = 0;
    while i < n
        invariant
            i <= n,
            n == hooks@.len(),
            findings_match(findings@, hooks@.subrange(0, i as int)),
        decreases n - i,
    {
        let name = &hooks[i].0;
        let script = &hooks[i].1;
        let complexity = script_complexity(script.as_str());

        if complexity > COMPLEX_TOKEN_LIMIT {
            let mut message = String::from_str("Complex ");
            message.append(name.as_str());
            message.append(" script (");
            let rendered = usize_to_decimal(complexity);
            message.append(rendered.as_str());
            message.append(" tokens): ");
            message.append(script.as_str());
            proof {
                assert(message@ =~= expected_message(name@, script@));
            }
            findings.push(Finding { severity: Severity::Medium, message });
        } else {
            let mut message = name.clone();
            message.append(" script present: ");
            message.append(script.as_str());
            proof {
                assert(message@ =~= expected_message(name@, script@));
            }
            findings.push(Finding { severity: Severity::Low, message });
        }
        proof {
            assert(hooks@.subrange(0, i + 1).drop_last() =~= hooks@.subrange(0, i as int));
            assert(hooks@.subrange(0, i + 1).last() == hooks@[i as int]);
        }
        i = i + 1;
    }
    proof {
        assert(hooks@.subrange(0, n as int) =~= hooks@);
    }
    findings
}

} // verus!
