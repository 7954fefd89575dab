//! Falling back from an absent string to a supplied default, without
//! allocating: the result borrows either the contained text or the default.

use vstd::prelude::*;

verus! {

/// An optional piece of text that can fall back to a borrowed default.
pub trait OrAsStr<'a, 'b: 'a>: Sized {
    /// The contained text, if any.
    spec fn inner_text(&self) -> Option<Seq<char>>;

    /// The contained text, or `default` when there is none.
    fn or_as_str(self, default: &'b str) -> (r: &'a str)
        ensures
            r@ == (match self.inner_text() {
                Some(t) => t,
                None => default@,
            }),
    ;

    /// The contained text, or what `f` produces when there is none; `f` is
    /// consulted only in that case.
    fn or_as_str_else<F: FnOnce() -> &'b str>(self, f: F) -> (r: &'a str)
        requires
            self.inner_text() is None ==> f.requires(()),
        ensures
            self.inner_text() matches Some(t) ==> r@ == t,
            self.inner_text() is None ==> f.ensures((), r),
    ;
}

impl<'a, 'b: 'a> OrAsStr<'a, 'b> for &'a Option<String> {
    open spec fn inner_text(&self) -> Option<Seq<char>> {
        match **self {
            Some(s) => Some(s@),
            None => None,
        }
    }

    fn or_as_str(self, default: &'b str) -> (r: &'a str)
    {
        match self {
            Some(inner) => inner.as_str(),
            None => default,
        }
    }

    fn or_as_str_else<F: FnOnce() -> &'b str>(self, f: F) -> (r: &'a str)
    {
        match self {
            Some(inner) => inner.as_str(),
            None => {
                let d = f();
                proof {
                    assert(f.ensures((), d));
                }
                d
            },
        }
    }
}

impl<'a, 'b: 'a> OrAsStr<'a, 'b> for Option<&'a String> {
    open spec fn inner_text(&self) -> Option<Seq<char>> {
        match *self {
            Some(s) => Some(s@),
            None => None,
        }
    }

    fn or_as_str(self, default: &'b str) -> (r: &'a str)
    {
        match self {
            Some(inner) => inner.as_str(),
            None => default,
        }
    }

    fn or_as_str_else<F: FnOnce() -> &'b str>(self, f: F) -> (r: &'a str)
    {
        match self {
            Some(inner) => inner.as_str(),
            None => {
                let d = f();
                proof {
                    assert(f.ensures((), d));
                }
                d
            },
        }
    }
}

impl<'a, 'b: 'a> OrAsStr<'a, 'b> for Option<&'a str> {
    open spec fn inner_text(&self) -> Option<Seq<char>> {
        match *self {
            Some(s) => Some(s@),
            None => None,
        }
    }

    fn or_as_str(self, default: &'b str) -> (r: &'a str)
    {
        match self {
            Some(inner) => inner,
            None => default,
        }
    }

    fn or_as_str_else<F: FnOnce() -> &'b str>(self, f: F) -> (r: &'a str)
    {
        match self {
            Some(inner) => inner,
            None => {
                let d = f();
                proof {
                    assert(f.ensures((), d));
                }
                d
            },
        }
    }
}

} // verus!
