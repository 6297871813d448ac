//! A reference-counted string that acts like a regular `str` slice, hiding
//! the fact that it is wrapped in `Rc`.
//!
//! Every handle produced by cloning shares one immutable buffer; equality,
//! ordering and hashing follow the character content alone, never the
//! identity of that buffer, so a handle is substitutable for a borrowed
//! string wherever one is expected for read-only purposes.

use vstd::prelude::*;

pub mod order;

verus! {

use std::rc::Rc;
use core::cmp::Ordering;
use crate::order::{lex_cmp, cmp_str};
use vstd::std_specs::cmp::{PartialEqSpec, PartialOrdSpec};

/// An immutable, reference-counted string handle.
///
/// Its view is the character content of the shared buffer.
#[derive(Eq, Ord, Hash)]
pub struct RcStr(Rc<String>);

impl Clone for RcStr {
    /// Share the buffer with the original handle: no character data is
    /// copied, and the clone holds exactly the same content.
    fn clone(&self) -> (r: RcStr)
        ensures
            r@ == self@,
    {
        RcStr(self.0.clone())
    }
}

impl PartialEq for RcStr {
    fn eq(&self, other: &RcStr) -> bool {
        *self.0 == *other.0
    }
}

impl vstd::std_specs::cmp::PartialEqSpecImpl for RcStr {
    open spec fn obeys_eq_spec() -> bool {
        true
    }

    open spec fn eq_spec(&self, other: &RcStr) -> bool {
        self@ == other@
    }
}

impl PartialOrd for RcStr {
    fn partial_cmp(&self, other: &RcStr) -> Option<Ordering> {
        Some(cmp_str(self.0.as_str(), other.0.as_str()))
    }
}

impl vstd::std_specs::cmp::PartialOrdSpecImpl for RcStr {
    open spec fn obeys_partial_cmp_spec() -> bool {
        true
    }

    open spec fn partial_cmp_spec(&self, other: &RcStr) -> Option<Ordering> {
        Some(lex_cmp(self@, other@))
    }
}

impl View for RcStr {
    type V = Seq<char>;

    closed spec fn view(&self) -> Seq<char> {
        self.0@
    }
}

/// The character content of a borrowed string slice.
pub open spec fn text_of(s: &str) -> Seq<char> {
    s@
}

/// An owned-or-borrowed source of string content: an owned `String` moves
/// through unchanged, a borrowed `&str` is copied into a fresh `String`.
pub trait IntoText: Sized {
    /// The character content of the value.
    spec fn text(&self) -> Seq<char>;

    /// Produce an owned string holding exactly `text()`.
    fn into_text(self) -> (s: String)
        ensures
            s@ == self.text(),
    ;
}

impl IntoText for String {
    open spec fn text(&self) -> Seq<char> {
        self@
    }

    fn into_text(self) -> (s: String) {
        self
    }
}

impl<'a> IntoText for &'a str {
    open spec fn text(&self) -> Seq<char> {
        self@
    }

    fn into_text(self) -> (s: String) {
        self.to_owned()
    }
}

impl RcStr {
    /// Create a new ref-counted string which is a copy of `value`.
    ///
    /// Every call allocates a fresh buffer: two handles built from equal
    /// text compare equal but do not share storage.
    pub fn new<S: IntoText>(value: S) -> (r: RcStr)
        ensures
            r@ == value.text(),
    {
        RcStr(Rc::new(value.into_text()))
    }

    /// Borrow the underlying string slice.
    pub fn as_str(&self) -> (r: &str)
        ensures
            r@ == self@,
    {
        self.0.as_str()
    }
}

/// Content decides everything observable about a handle: two handles are
/// equal exactly when their character sequences are equal, however they were
/// constructed, and they order exactly as their character sequences order
/// lexicographically, with `Equal` reported precisely between equal handles.
pub proof fn lemma_content_semantics(a: &RcStr, b: &RcStr)
    ensures
        a.eq_spec(b) <==> a@ == b@,
        a.partial_cmp_spec(b) == Some(lex_cmp(a@, b@)),
        a.partial_cmp_spec(b) == Some(Ordering::Equal) <==> a.eq_spec(b),
{
    crate::order::lemma_lex_cmp_equal_iff(a@, b@);
}

impl core::ops::Deref for RcStr {
    type Target = str;

    /// Dereference to the underlying string slice: a window over the very
    /// memory the handle shares, holding exactly the handle's content.
    fn deref(&self) -> (r: &str)
        ensures
            r@ == self@,
    {
        self.0.as_str()
    }
}

impl core::borrow::Borrow<str> for RcStr {
    /// Borrow the content as a plain string slice, so that hash-based
    /// containers keyed by `RcStr` can be queried with a borrowed `&str`.
    fn borrow(&self) -> (r: &str)
        ensures
            text_of(r) == self@,
    {
        self.0.as_str()
    }
}

impl AsRef<str> for RcStr {
    /// View the content as a plain string slice.
    fn as_ref(&self) -> (r: &str)
        ensures
            r@ == self@,
    {
        self.0.as_str()
    }
}

#[verifier::external_type_specification]
#[verifier::external_body]
pub struct ExFormatter<'a>(core::fmt::Formatter<'a>);

#[verifier::external_type_specification]
#[verifier::external_body]
pub struct ExFmtError(core::fmt::Error);

impl core::fmt::Display for RcStr {
    /// Relies on str's `Display`: writes the raw text, with no visible sign
    /// that the value is reference-counted.
    #[verifier::external_body]
    fn fmt(&self, f: &mut core::fmt::Formatter) -> core::fmt::Result {
        core::fmt::Display::fmt(self.0.as_str(), f)
    }
}

impl core::fmt::Debug for RcStr {
    /// Relies on str's `Debug`: writes the quoted, escaped text, exactly as
    /// formatting the borrowed view would.
    #[verifier::external_body]
    fn fmt(&self, f: &mut core::fmt::Formatter) -> core::fmt::Result {
        core::fmt::Debug::fmt(self.0.as_str(), f)
    }
}

} // verus!
