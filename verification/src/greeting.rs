//! The greeting command: a fixed-template echo of the caller's name.

use vstd::prelude::*;

verus! {

/// The text that precedes the name in every greeting.
pub open spec fn greeting_prefix() -> Seq<char> {
    "Hello, "@
}

/// The text that follows the name in every greeting.
pub open spec fn greeting_suffix() -> Seq<char> {
    "! You've been greeted from Rust!"@
}

/// The greeting returned for a given name.
pub open spec fn greeting_spec(name: Seq<char>) -> Seq<char> {
    greeting_prefix() + name + greeting_suffix()
}

/// Returns the fixed-template greeting for `name`. Never fails.
pub fn greet(name: &str) -> (r: String)
    ensures
        r@ == greeting_spec(name@),
{
    let mut out = String::from_str("Hello, ");
    out.append(name);
    out.append("! You've been greeted from Rust!");
    proof {
        assert(out@ =~= greeting_spec(name@));
    }
    out
}

/// Every greeting carries the name verbatim, right after the prefix,
/// and ends with the fixed suffix.
pub proof fn lemma_greeting_frames_name(name: Seq<char>)
    ensures
        greeting_spec(name).len() == greeting_prefix().len() + name.len()
            + greeting_suffix().len(),
        greeting_spec(name).subrange(
            greeting_prefix().len() as int,
            (greeting_prefix().len() + name.len()) as int,
        ) =~= name,
        greeting_spec(name).subrange(
            (greeting_prefix().len() + name.len()) as int,
            greeting_spec(name).len() as int,
        ) =~= greeting_suffix(),
{
}

} // verus!
