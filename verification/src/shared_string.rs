//! A string that is cheap to clone: a static literal or a reference-counted
//! allocation.

use std::borrow::Borrow;
use std::ops::Deref;
use std::sync::Arc;
use vstd::prelude::*;
use vstd::std_specs::cmp::PartialEqSpecImpl;
use vstd::std_specs::convert::FromSpecImpl;
use vstd::std_specs::convert::IntoSpec;

verus! {

/// An immutable string that can be cheaply cloned.
#[derive(Clone, Debug, Eq, PartialEq, Ord, PartialOrd, Hash)]
pub enum SharedString {
    /// A string literal: cloning copies a pointer.
    Static(&'static str),
    /// A reference-counted string: cloning bumps a counter.
    Owned(Arc<str>),
}

/// `Arc<str>::from(String)` allocates a shared string with the contents of
/// `s`.
pub assume_specification[ <Arc<str> as From<String>>::from ](s: String) -> (r: Arc<str>)
    ensures
        (*r)@ == s@,
;

/// `str::eq` compares two string slices by content: they are equal exactly
/// when they hold the same characters.
#[verifier::external_body]
pub(crate) fn str_eq(a: &str, b: &str) -> (r: bool)
    ensures
        r == (a@ == b@),
{
    a.eq(b)
}

impl View for SharedString {
    type V = Seq<char>;

    /// The characters of the string, whichever way it is stored.
    open spec fn view(&self) -> Seq<char> {
        match self {
            SharedString::Static(s) => s@,
            SharedString::Owned(s) => (**s)@,
        }
    }
}

impl SharedString {
    /// Wraps a string literal without allocating.
    pub fn new_static(s: &'static str) -> (r: Self)
        ensures
            r == SharedString::Static(s),
    {
        SharedString::Static(s)
    }

    /// Wraps anything that converts into a reference-counted string.
    pub fn new<S: Into<Arc<str>>>(s: S) -> (r: Self)
        ensures
            r is Owned,
            S::obeys_into_spec() ==> r == SharedString::Owned(s.into_spec()),
    {
        SharedString::Owned(s.into())
    }

    /// The string slice.
    pub fn as_str(&self) -> (r: &str)
        ensures
            r@ == self@,
    {
        match self {
            SharedString::Static(s) => s,
            SharedString::Owned(s) => &**s,
        }
    }

    /// Whether the string has no characters.
    pub fn is_empty(&self) -> (b: bool)
        ensures
            b == (self@.len() == 0),
    {
        self.as_str().is_empty()
    }

    /// The string as an owned `String`, as it is displayed.
    pub fn to_string(&self) -> (r: String)
        ensures
            r@ == self@,
    {
        self.as_str().to_owned()
    }
}

impl Deref for SharedString {
    type Target = str;

    fn deref(&self) -> (r: &str)
        ensures
            r@ == self@,
    {
        self.as_str()
    }
}

impl AsRef<str> for SharedString {
    fn as_ref(&self) -> (r: &str)
        ensures
            r@ == self@,
    {
        self.as_str()
    }
}

impl Borrow<str> for SharedString {
    fn borrow(&self) -> (r: &str)
        ensures
            ({
                let slice: &str = r;
                slice@ == self@
            }),
    {
        self.as_str()
    }
}

impl Default for SharedString {
    /// The empty string.
    fn default() -> (r: Self)
        ensures
            r == SharedString::Static(""),
    {
        SharedString::Static("")
    }
}

impl From<&'static str> for SharedString {
    fn from(s: &'static str) -> (r: Self) {
        SharedString::Static(s)
    }
}

impl FromSpecImpl<&'static str> for SharedString {
    open spec fn obeys_from_spec() -> bool {
        true
    }

    open spec fn from_spec(s: &'static str) -> Self {
        SharedString::Static(s)
    }
}

impl From<String> for SharedString {
    fn from(s: String) -> (r: Self)
        ensures
            r is Owned,
            r@ == s@,
    {
        SharedString::Owned(Arc::from(s))
    }
}

/// The conversion from `String` allocates, so its result is specified by its
/// characters (see `from`) and not as a value.
impl FromSpecImpl<String> for SharedString {
    open spec fn obeys_from_spec() -> bool {
        false
    }

    open spec fn from_spec(s: String) -> Self {
        arbitrary()
    }
}

impl From<Arc<str>> for SharedString {
    fn from(s: Arc<str>) -> (r: Self) {
        SharedString::Owned(s)
    }
}

impl FromSpecImpl<Arc<str>> for SharedString {
    open spec fn obeys_from_spec() -> bool {
        true
    }

    open spec fn from_spec(s: Arc<str>) -> Self {
        SharedString::Owned(s)
    }
}

impl PartialEq<str> for SharedString {
    fn eq(&self, other: &str) -> (r: bool) {
        str_eq(self.as_str(), other)
    }
}

impl PartialEqSpecImpl<str> for SharedString {
    open spec fn obeys_eq_spec() -> bool {
        true
    }

    open spec fn eq_spec(&self, other: &str) -> bool {
        self@ == other@
    }
}

impl PartialEq<&str> for SharedString {
    fn eq(&self, other: &&str) -> (r: bool) {
        str_eq(self.as_str(), *other)
    }
}

impl PartialEqSpecImpl<&str> for SharedString {
    open spec fn obeys_eq_spec() -> bool {
        true
    }

    open spec fn eq_spec(&self, other: &&str) -> bool {
        self@ == other@
    }
}

impl PartialEq<String> for SharedString {
    fn eq(&self, other: &String) -> (r: bool) {
        str_eq(self.as_str(), other.as_str())
    }
}

impl PartialEqSpecImpl<String> for SharedString {
    open spec fn obeys_eq_spec() -> bool {
        true
    }

    open spec fn eq_spec(&self, other: &String) -> bool {
        self@ == other@
    }
}

} // verus!
