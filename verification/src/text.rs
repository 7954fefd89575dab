//! Conversion of failure values to plain text.
//!
//! The error-formatting helpers deal only in text: whatever failure value a
//! caller starts from must be convertible to an owned string, and the
//! conversion's specification-level content is the character sequence it
//! produces.

use vstd::prelude::*;

verus! {

/// A value convertible to owned text. [`Self::text_spec`] is the abstract
/// content of that text, which the executable conversion is held to.
pub trait ToText {
    /// The character sequence this value converts to.
    spec fn text_spec(&self) -> Seq<char>;

    /// Converts this value to owned text.
    fn to_text(&self) -> (s: String)
        ensures
            s@ == self.text_spec(),
    ;
}

impl ToText for String {
    open spec fn text_spec(&self) -> Seq<char> {
        self@
    }

    fn to_text(&self) -> (s: String)
        ensures
            s@ == self.text_spec(),
    {
        self.clone()
    }
}

} // verus!
