//! Reading lifecycle scripts out of a manifest, and the token-count
//! complexity measure.

pub mod package_json;

use vstd::prelude::*;
use vstd::string::StrSliceExecFns;
use crate::parser::package_json::PackageJson;
use crate::text::is_wspace;
use crate::text::is_space_char;
use crate::text::str_eq;
use crate::text::token_count;

verus! {

/// Whether `name` is one of the three recognized lifecycle hook names.
pub open spec fn is_lifecycle_name(name: Seq<char>) -> bool {
    name == "preinstall"@ || name == "install"@ || name == "postinstall"@
}

/// The entries of a scripts mapping whose key is a lifecycle hook name, in
/// their original order.
pub open spec fn install_hooks(s: Seq<(String, String)>) -> Seq<(String, String)>
    decreases s.len(),
{
    if s.len() == 0 {
        Seq::empty()
    } else {
        install_hooks(s.drop_last()) + (if is_lifecycle_name(s.last().0@) {
            seq![s.last()]
        } else {
            Seq::empty()
        })
    }
}

/// The lifecycle script entries of a manifest, as (hook name, script text)
/// pairs; a manifest without a scripts mapping yields none.
pub fn extract_install_scripts(pkg: &PackageJson) -> (result: Vec<(String, String)>)
    ensures
        pkg.scripts is None ==> result@ == Seq::<(String, String)>::empty(),
        pkg.scripts matches Some(m) ==> result@ == install_hooks(m@),
{
    match &pkg.scripts {
        None => Vec::new(),
        Some(m) => {
            let mut result: Vec<(String, String)> = Vec::new();
            let n = m.len();
            let mut i: usize = 0;
            while i < n
                invariant
                    i <= n,
                    n == m@.len(),
                    result@ == install_hooks(m@.subrange(0, i as int)),
                decreases n - i,
            {
                let pair = &m[i];
                if str_eq(pair.0.as_str(), "preinstall") || str_eq(pair.0.as_str(), "install")
                    || str_eq(pair.0.as_str(), "postinstall") {
                    result.push((pair.0.clone(), pair.1.clone()));
                }
                proof {
                    assert(m@.subrange(0, i + 1).drop_last() =~= m@.subrange(0, i as int));
                    assert(m@.subrange(0, i + 1).last() == m@[i as int]);
                    assert((m@[i as int].0, m@[i as int].1) == m@[i as int]);
                }
                i = i + 1;
            }
            proof {
                assert(m@.subrange(0, n as int) =~= m@);
            }
            result
        },
    }
}

/// Counts the whitespace-delimited tokens of a script.
pub fn script_complexity(script: &str) -> (count: usize)
    ensures
        count as nat == token_count(script@),
{
    let n = script.unicode_len();
    let mut count: usize = 0;
    let mut prev_ws: bool = true;
    let mut i: usize = 0;
    while i < n
        invariant
            i <= n,
            n == script@.len(),
            count <= i,
            count as nat == token_count(script@.subrange(0, i as int)),
            prev_ws == if i == 0 {
                true
            } else {
                is_wspace(script@[i as int - 1])
            },
        decreases n - i,
    {
        let c = script.get_char(i);
        let ws = is_space_char(c);
        if !ws && prev_ws {
            count = count + 1;
        }
        proof {
            assert(script@.subrange(0, i + 1).drop_last() =~= script@.subrange(0, i as int));
            assert(script@.subrange(0, i + 1).last() == script@[i as int]);
        }
        prev_ws = ws;
        i = i + 1;
    }
    proof {
        assert(script@.subrange(0, n as int) =~= script@);
    }
    count
}

} // verus!
