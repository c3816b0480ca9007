//! The error returned for text that names no recognised extension.

use vstd::prelude::*;
use vstd::string::StringExecFns;

verus! {

/// The text that was rejected because it is not the canonical name of any
/// recognised extension.
#[derive(Debug)]
pub struct ValidFileExtensionsError {
    /// The rejected text, exactly as it was given.
    pub extension: String,
}

impl ValidFileExtensionsError {
    /// The message shown for this error: a fixed prefix followed by the
    /// rejected text.
    pub open spec fn message(self) -> Seq<char> {
        "Invalid file extension: "@ + self.extension@
    }

    /// Renders the error as the text shown to a user.
    pub fn to_string(&self) -> (text: String)
        ensures
            text@ == self.message(),
    {
        let mut text = "Invalid file extension: ".to_owned();
        text.append(self.extension.as_str());
        text
    }
}

impl PartialEq for ValidFileExtensionsError {
    /// Two errors are equal when they carry the same text.
    fn eq(&self, other: &Self) -> (same: bool) {
        self.extension == other.extension
    }
}

impl vstd::std_specs::cmp::PartialEqSpecImpl for ValidFileExtensionsError {
    open spec fn obeys_eq_spec() -> bool {
        true
    }

    open spec fn eq_spec(&self, other: &Self) -> bool {
        self.extension@ == other.extension@
    }
}

impl Eq for ValidFileExtensionsError {}

} // verus!
