use vstd::prelude::*;

verus! {

/// The greeting addressed to `who`: `Hello, <who>!`.
pub open spec fn greeting_text(who: Seq<char>) -> Seq<char> {
    "Hello, "@ + who + "!"@
}

/// The message that a unit of work answers with: diagnostic `tags` written
/// in front of the greeting for `who`.
pub fn say_hello(tags: &str, who: &str) -> (r: String)
    ensures
        r@ == tags@ + greeting_text(who@),
{
    let text = String::from_str(tags);
    let text = text.concat("Hello, ");
    let text = text.concat(who);
    let text = text.concat("!");
    proof {
        assert(text@ =~= tags@ + greeting_text(who@));
    }
    text
}

} // verus!
