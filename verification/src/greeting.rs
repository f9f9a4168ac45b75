//! The `greet` command: formats a deterministic greeting from a name.

use vstd::prelude::*;
use vstd::string::StringExecFns;

verus! {

/// The exact text the greeting command produces for `name`:
/// `"Hello, "`, then the name, then `"!"`.
pub open spec fn greeting_of(name: Seq<char>) -> Seq<char> {
    "Hello, "@ + name + "!"@
}

/// Returns exactly `"Hello, {name}!"` for any input name.
/// Pure: no side effects, no failure modes.
pub fn greet(name: &str) -> (r: String)
    ensures
        r@ == greeting_of(name@),
{
    let mut r = String::from_str("Hello, ");
    r.append(name);
    r.append("!");
    r
}

} // verus!
