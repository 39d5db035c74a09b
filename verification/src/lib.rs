use vstd::prelude::*;

verus! {

/// Returns its argument unchanged: for every input string `s`,
/// `sanitize(s)` is `s` itself, character for character.
pub fn sanitize(text: String) -> (result: String)
    ensures
        result@ == text@,
{
    text
}

} // verus!
