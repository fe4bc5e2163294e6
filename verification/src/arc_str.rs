//! Text content of elements: a string literal or a reference-counted
//! allocation, cloned without copying the characters.

use std::borrow::Borrow;
use std::ops::Deref;
use std::sync::Arc;
use vstd::prelude::*;
use vstd::std_specs::cmp::PartialEqSpecImpl;
use vstd::std_specs::convert::FromSpecImpl;
use vstd::std_specs::convert::IntoSpec;
use crate::shared_string::str_eq;

verus! {

/// An immutable, cheaply cloned string for the text of UI elements.
#[derive(Clone, Debug, Eq, PartialEq, Ord, PartialOrd, Hash)]
pub enum ArcStr {
    /// A string literal: cloning copies a pointer.
    Static(&'static str),
    /// A reference-counted string: cloning bumps a counter.
    Owned(Arc<str>),
}

impl View for ArcStr {
    type V = Seq<char>;

    /// The characters of the string, whichever way it is stored.
    open spec fn view(&self) -> Seq<char> {
        match self {
            ArcStr::Static(s) => s@,
            ArcStr::Owned(s) => (**s)@,
        }
    }
}

impl ArcStr {
    /// Wraps a string literal without allocating.
    pub fn new_static(s: &'static str) -> (r: Self)
        ensures
            r == ArcStr::Static(s),
    {
        ArcStr::Static(s)
    }

    /// Wraps anything that converts into a reference-counted string.
    pub fn new<S: Into<Arc<str>>>(s: S) -> (r: Self)
        ensures
            r is Owned,
            S::obeys_into_spec() ==> r == ArcStr::Owned(s.into_spec()),
    {
        ArcStr::Owned(s.into())
    }

    /// The string slice.
    pub fn as_str(&self) -> (r: &str)
        ensures
            r@ == self@,
    {
        match self {
            ArcStr::Static(s) => s,
            ArcStr::Owned(s) => &**s,
        }
    }

    /// Whether the string has no characters.
    pub fn is_empty(&self) -> (b: bool)
        ensures
            b == (self@.len() == 0),
    {
        self.as_str().is_empty()
    }

    /// The string as an owned `String`, as it is displayed.
    pub fn to_string(&self) -> (r: String)
        ensures
            r@ == self@,
    {
        self.as_str().to_owned()
    }
}

impl Deref for ArcStr {
    type Target = str;

    fn deref(&self) -> (r: &str)
        ensures
            r@ == self@,
    {
        self.as_str()
    }
}

impl AsRef<str> for ArcStr {
    fn as_ref(&self) -> (r: &str)
        ensures
            r@ == self@,
    {
        self.as_str()
    }
}

impl Borrow<str> for ArcStr {
    fn borrow(&self) -> (r: &str)
        ensures
            ({
                let slice: &str = r;
                slice@ == self@
            }),
    {
        self.as_str()
    }
}

impl Default for ArcStr {
    /// The empty string.
    fn default() -> (r: Self)
        ensures
            r == ArcStr::Static(""),
    {
        ArcStr::Static("")
    }
}

impl From<&'static str> for ArcStr {
    fn from(s: &'static str) -> (r: Self) {
        ArcStr::Static(s)
    }
}

impl FromSpecImpl<&'static str> for ArcStr {
    open spec fn obeys_from_spec() -> bool {
        true
    }

    open spec fn from_spec(s: &'static str) -> Self {
        ArcStr::Static(s)
    }
}

impl From<String> for ArcStr {
    fn from(s: String) -> (r: Self)
        ensures
            r is Owned,
            r@ == s@,
    {
        ArcStr::Owned(Arc::from(s))
    }
}

/// The conversion from `String` allocates, so its result is specified by its
/// characters (see `from`) and not as a value.
impl FromSpecImpl<String> for ArcStr {
    open spec fn obeys_from_spec() -> bool {
        false
    }

    open spec fn from_spec(s: String) -> Self {
        arbitrary()
    }
}

impl From<Arc<str>> for ArcStr {
    fn from(s: Arc<str>) -> (r: Self) {
        ArcStr::Owned(s)
    }
}

impl FromSpecImpl<Arc<str>> for ArcStr {
    open spec fn obeys_from_spec() -> bool {
        true
    }

    open spec fn from_spec(s: Arc<str>) -> Self {
        ArcStr::Owned(s)
    }
}

impl PartialEq<str> for ArcStr {
    fn eq(&self, other: &str) -> (r: bool) {
        str_eq(self.as_str(), other)
    }
}

impl PartialEqSpecImpl<str> for ArcStr {
    open spec fn obeys_eq_spec() -> bool {
        true
    }

    open spec fn eq_spec(&self, other: &str) -> bool {
        self@ == other@
    }
}

impl PartialEq<&str> for ArcStr {
    fn eq(&self, other: &&str) -> (r: bool) {
        str_eq(self.as_str(), *other)
    }
}

impl PartialEqSpecImpl<&str> for ArcStr {
    open spec fn obeys_eq_spec() -> bool {
        true
    }

    open spec fn eq_spec(&self, other: &&str) -> bool {
        self@ == other@
    }
}

impl PartialEq<String> for ArcStr {
    fn eq(&self, other: &String) -> (r: bool) {
        str_eq(self.as_str(), other.as_str())
    }
}

impl PartialEqSpecImpl<String> for ArcStr {
    open spec fn obeys_eq_spec() -> bool {
        true
    }

    open spec fn eq_spec(&self, other: &String) -> bool {
        self@ == other@
    }
}

} // verus!
