//! What can go wrong before the server is up.

use vstd::prelude::*;
use vstd::string::*;

verus! {

/// The server could not be set up: the text says why.
#[derive(Debug)]
pub struct SetupError(pub String);

/// How a `SetupError` with the reason `reason` reads.
pub open spec fn setup_error_text(reason: Seq<char>) -> Seq<char> {
    seq!['E', 'r', 'r', 'o', 'r', ':', ' '] + reason
}

impl SetupError {
    /// The error as a line of text: `Error: ` and the reason.
    pub fn to_string(&self) -> (text: String)
        ensures
            text@ == setup_error_text(self.0@),
    {
        proof {
            reveal_strlit("Error: ");
        }
        let mut text = String::from_str("Error: ");
        assert(text@ =~= seq!['E', 'r', 'r', 'o', 'r', ':', ' ']);
        text.append(self.0.as_str());
        text
    }
}

} // verus!
