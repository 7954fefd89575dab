//! Collapsing a failure value to plain text, in place.
//!
//! An earlier spelling of the helper in [`crate::err_util`]; both are kept so
//! existing callers of either name keep working.

use vstd::prelude::*;

use crate::text::ToText;

verus! {

/// Turns an outcome with an arbitrary text-convertible failure into one
/// whose failure is the text itself.
pub trait ErrToString<T>: Sized {
    /// The success payload, if this outcome is a success.
    spec fn ok_part(&self) -> Option<T>;

    /// The text of the failure (meaningful only when this outcome fails).
    spec fn err_text(&self) -> Seq<char>;

    /// Keeps a success as it is and renders a failure as its text.
    fn err_tostring(self) -> (r: Result<T, String>)
        ensures
            self.ok_part() matches Some(v) ==> r == Ok::<T, String>(v),
            self.ok_part() is None ==> (r matches Err(s) && s@ == self.err_text()),
    ;
}

impl<T, U: ToText> ErrToString<T> for Result<T, U> {
    open spec fn ok_part(&self) -> Option<T> {
        match self {
            Ok(v) => Some(*v),
            Err(_) => None,
        }
    }

    open spec fn err_text(&self) -> Seq<char> {
        match self {
            Ok(_) => Seq::empty(),
            Err(e) => e.text_spec(),
        }
    }

    fn err_tostring(self) -> (r: Result<T, String>)
    {
        match self {
            Ok(v) => Ok(v),
            Err(e) => Err(e.to_text()),
        }
    }
}

} // verus!
