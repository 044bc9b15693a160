use vstd::prelude::*;
use vstd::string::StringExecFns;

verus! {

/// The greeting for `name`: "Hello, ", the name, then
/// "! You've been greeted from Rust!".
pub open spec fn greeting_of(name: Seq<char>) -> Seq<char> {
    "Hello, "@ + name + "! You've been greeted from Rust!"@
}

/// The command that the web frontend invokes: it greets `name`.
pub fn greet(name: &str) -> (r: String)
    ensures
        r@ == greeting_of(name@),
{
    let mut s = String::from_str("Hello, ");
    s.append(name);
    s.append("! You've been greeted from Rust!");
    s
}

} // verus!
