//! The greeting request handler: a pure string formatter.

use vstd::prelude::*;

verus! {

/// The fixed greeting template with `name` substituted verbatim.
pub open spec fn greeting_of(name: Seq<char>) -> Seq<char> {
    "Hello, "@ + name + "! You've been greeted from Rust!"@
}

/// Answer a greeting request: the fixed template around the caller's name.
/// Never fails, for every input string, empty and non-ASCII included.
pub fn greet(name: &str) -> (r: String)
    ensures
        r@ == greeting_of(name@),
{
    let mut out = String::from_str("Hello, ");
    out.append(name);
    out.append("! You've been greeted from Rust!");
    out
}

} // verus!
