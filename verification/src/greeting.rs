//! The greeting echo.

use vstd::prelude::*;
use vstd::string::StringExecFns;

verus! {

/// The text of the greeting addressed to `name`.
pub open spec fn greeting(name: Seq<char>) -> Seq<char> {
    "Hello, "@ + name + "! You've been greeted from Rust!"@
}

/// Greets `name`: the name is echoed unchanged between a fixed opening and a
/// fixed close.
pub fn greet(name: &str) -> (text: String)
    ensures
        text@ == greeting(name@),
{
    let mut text = String::from_str("Hello, ");
    text.append(name);
    text.append("! You've been greeted from Rust!");
    text
}

} // verus!
