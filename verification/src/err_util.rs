//! Error-formatting helpers: collapsing a failure to text, and prefixing a
//! textual failure with a heading.
//!
//! Only text crosses this boundary — no structured error type does. The
//! heading can be supplied eagerly, or lazily through a producer that is
//! consulted only when there is a failure to prefix.

use vstd::prelude::*;
use vstd::string::StringExecFns;

use crate::text::ToText;

verus! {

/// Turns an outcome with an arbitrary text-convertible failure into one
/// whose failure is the text itself.
pub trait ErrToString<T>: Sized {
    /// The success payload, if this outcome is a success.
    spec fn ok_part(&self) -> Option<T>;

    /// The text of the failure (meaningful only when this outcome fails).
    spec fn err_text(&self) -> Seq<char>;

    /// Keeps a success as it is and renders a failure as its text.
    fn err_to_string(self) -> (r: Result<T, String>)
        ensures
            self.ok_part() matches Some(v) ==> r == Ok::<T, String>(v),
            self.ok_part() is None ==> (r matches Err(s) && s@ == self.err_text()),
    ;
}

impl<T, U: ToText> ErrToString<T> for Result<T, U> {
    open spec fn ok_part(&self) -> Option<T> {
        match self {
            Ok(v) => Some(*v),
            Err(_) => None,
        }
    }

    open spec fn err_text(&self) -> Seq<char> {
        match self {
            Ok(_) => Seq::empty(),
            Err(e) => e.text_spec(),
        }
    }

    fn err_to_string(self) -> (r: Result<T, String>) {
        match self {
            Ok(v) => Ok(v),
            Err(e) => Err(e.to_text()),
        }
    }
}

/// Prefixes a textual failure with a heading, leaving a success untouched.
pub trait HeadingError<T>: Sized {
    /// The success payload, if this outcome is a success.
    spec fn success_part(&self) -> Option<T>;

    /// The text of the failure (meaningful only when this outcome fails).
    spec fn failure_text(&self) -> Seq<char>;

    /// Prefixes a failure with `head`'s text.
    fn heading_error<H: ToText>(self, head: &H) -> (r: Result<T, String>)
        ensures
            self.success_part() matches Some(v) ==> r == Ok::<T, String>(v),
            self.success_part() is None ==> (r matches Err(s) && s@ == head.text_spec()
                + self.failure_text()),
    ;

    /// Prefixes a failure with the text of what `head` produces; `head` is
    /// consulted only when there is a failure.
    fn heading_error_else<G: ToText, F: FnOnce() -> G>(self, head: F) -> (r: Result<T, String>)
        requires
            self.success_part() is None ==> head.requires(()),
        ensures
            self.success_part() matches Some(v) ==> r == Ok::<T, String>(v),
            self.success_part() is None ==> (r matches Err(s) && exists|g: G|
                head.ensures((), g) && s@ == g.text_spec() + self.failure_text()),
    ;
}

impl<T> HeadingError<T> for Result<T, String> {
    open spec fn success_part(&self) -> Option<T> {
        match self {
            Ok(v) => Some(*v),
            Err(_) => None,
        }
    }

    open spec fn failure_text(&self) -> Seq<char> {
        match self {
            Ok(_) => Seq::empty(),
            Err(e) => e@,
        }
    }

    fn heading_error<H: ToText>(self, head: &H) -> (r: Result<T, String>) {
        match self {
            Ok(v) => Ok(v),
            Err(e) => Err(head.to_text().concat(e.as_str())),
        }
    }

    fn heading_error_else<G: ToText, F: FnOnce() -> G>(self, head: F) -> (r: Result<T, String>) {
        match self {
            Ok(v) => Ok(v),
            Err(e) => {
                let g = head();
                Err(g.to_text().concat(e.as_str()))
            },
        }
    }
}

} // verus!
