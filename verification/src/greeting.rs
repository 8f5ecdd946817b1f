//! The greet command: a total, pure formatting of a caller-supplied name
//! into a fixed greeting sentence.

use vstd::prelude::*;
use vstd::string::StringExecFns;

verus! {

/// The characters of the greeting for a name `s`: the fixed salutation,
/// then `s` verbatim (no escaping, no validation), then the fixed closing.
pub open spec fn greeting_of(s: Seq<char>) -> Seq<char> {
    "Hello, "@ + s + "! You've been greeted from Rust!"@
}

/// Builds the greeting for `name`. Accepts every string, the empty one
/// included, and always produces exactly the formatted greeting.
pub fn greet(name: &str) -> (r: String)
    ensures
        r@ == greeting_of(name@),
{
    let mut r = String::from_str("Hello, ");
    r.append(name);
    r.append("! You've been greeted from Rust!");
    r
}

/// `greet` is pure: the greeting depends on the input characters alone, so
/// two calls on equal inputs yield identical output.
pub proof fn lemma_greet_pure(s1: Seq<char>, s2: Seq<char>)
    requires
        s1 == s2,
    ensures
        greeting_of(s1) == greeting_of(s2),
{
}

/// The name is embedded verbatim: the greeting is exactly as long as the two
/// fixed parts plus the name, and the characters between them are the name
/// itself, unchanged.
pub proof fn lemma_greeting_embeds_name(s: Seq<char>)
    ensures
        greeting_of(s).len() == s.len() + 39,
        greeting_of(s).subrange(7, 7 + s.len() as int) == s,
{
    reveal_strlit("Hello, ");
    reveal_strlit("! You've been greeted from Rust!");
    assert(greeting_of(s).subrange(7, 7 + s.len() as int) =~= s);
}

} // verus!
