//! The generic-dispatch helper, as data: the ordered capability-lookup rules
//! emitted alongside every routine so that a field's value can be printed
//! whether or not its type supports text rendering natively. The most
//! specific applicable rule wins at the consumer's call site; a type that
//! matches no rule fails there, at the consuming build step, never during
//! synthesis.

use vstd::prelude::*;
use vstd::string::StringExecFns;

verus! {

/// One capability-lookup rule of the dispatch helper.
#[derive(Clone, Debug)]
pub enum DispatchRule {
    /// The generic rule: a type with native text rendering delegates to it
    /// directly.
    Native,
    /// A specific rule for one named bridge type, which renders only
    /// through a conversion method.
    Bridge(String),
}

/// The fixed allowlist of bridge types: filesystem path types, which offer
/// text rendering only through a conversion method.
pub open spec fn in_bridge_allowlist(ty: Seq<char>) -> bool {
    ty == "std::path::Path"@ || ty == "std::path::PathBuf"@
}

/// The rule table emitted once per generation invocation, ordered by
/// specificity: the generic native-rendering rule, then one specific rule
/// per allowlisted bridge type. The table is declaration-independent.
pub fn dispatch_rules() -> (r: Vec<DispatchRule>)
    ensures
        r@.len() == 3,
        r@[0] is Native,
        r@[1] matches DispatchRule::Bridge(t) && t@ == "std::path::Path"@,
        r@[2] matches DispatchRule::Bridge(t) && t@ == "std::path::PathBuf"@,
{
    let mut r: Vec<DispatchRule> = Vec::new();
    r.push(DispatchRule::Native);
    r.push(DispatchRule::Bridge(String::from_str("std::path::Path")));
    r.push(DispatchRule::Bridge(String::from_str("std::path::PathBuf")));
    r
}

/// Whether a declared type renders through a specific bridge rule rather
/// than the generic native rule.
pub fn is_bridge_type(ty: &str) -> (r: bool)
    ensures
        r == in_bridge_allowlist(ty@),
{
    let owned = ty.to_owned();
    owned == String::from_str("std::path::Path") || owned == String::from_str(
        "std::path::PathBuf",
    )
}

} // verus!
