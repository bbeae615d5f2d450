use vstd::prelude::*;
use vstd::string::StringExecFns;

verus! {

/// The text that `greet` answers with for a given name.
pub open spec fn greeting_text(name: Seq<char>) -> Seq<char> {
    "Hello, "@ + name + "! You've been greeted from Rust!"@
}

/// Greets `name`: "Hello, {name}! You've been greeted from Rust!".
pub fn greet(name: &str) -> (r: String)
    ensures
        r@ == greeting_text(name@),
{
    let head = String::from_str("Hello, ");
    let with_name = head.concat(name);
    with_name.concat("! You've been greeted from Rust!")
}

} // verus!
