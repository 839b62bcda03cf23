use vstd::prelude::*;
use crate::text::same_text;

verus! {

/// The text of each character of `s`, folded to lower case by the standard
/// library's full Unicode rules.
pub uninterp spec fn lower_of(s: Seq<char>) -> Seq<char>;

/// Relies on str::to_lowercase: the result depends on the characters alone.
#[verifier::external_body]
fn lowercase(s: &str) -> (r: String)
    ensures
        r@ == lower_of(s@),
        s@.len() == 0 ==> r@.len() == 0,
{
    s.to_lowercase()
}

/// Words a form sends for a ticked checkbox, already in lower case.
pub open spec fn is_checked_word(s: Seq<char>) -> bool {
    s == "1"@ || s == "true"@ || s == "yes"@ || s == "on"@
}

/// A form checkbox (`<input type="checkbox" ... />`), as the text it sent.
pub struct Checkbox(pub String);

impl Checkbox {
    pub fn new(value: String) -> (r: Checkbox)
        ensures
            r.0 == value,
    {
        Checkbox(value)
    }

    /// Whether the checkbox was ticked.
    pub fn checked(&self) -> (r: bool)
        ensures
            r == is_checked_word(lower_of(self.0@)),
    {
        let folded = lowercase(self.0.as_str());
        checked_folded(folded.as_str())
    }
}

impl Default for Checkbox {
    fn default() -> (r: Checkbox)
        ensures
            r.0@ == Seq::<char>::empty(),
    {
        Checkbox(String::new())
    }
}

/// Whether a checkbox whose text, in lower case, is `folded` was ticked.
pub fn checked_folded(folded: &str) -> (r: bool)
    ensures
        r == is_checked_word(folded@),
{
    same_text(folded, "1") || same_text(folded, "true") || same_text(folded, "yes")
        || same_text(folded, "on")
}

} // verus!
