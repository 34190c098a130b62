//! The capability of producing markup text, and its instances for plain values.

use vstd::prelude::*;
use crate::text::{decimal, decimal_string};

verus! {

/// A value that can be projected to text.
///
/// `rendered` is the text as a mathematical value; `render` computes exactly that text and
/// leaves the value untouched.
pub trait Render {
    /// The text that `render` produces for this value.
    spec fn rendered(&self) -> Seq<char>;

    /// Produces the text of this value.
    fn render(&self) -> (out: String)
        ensures
            out@ == self.rendered(),
    ;
}

impl Render for &str {
    /// A string slice renders to itself.
    open spec fn rendered(&self) -> Seq<char> {
        self@
    }

    fn render(&self) -> (out: String) {
        (*self).to_owned()
    }
}

impl Render for String {
    /// A string renders to itself.
    open spec fn rendered(&self) -> Seq<char> {
        self@
    }

    fn render(&self) -> (out: String) {
        self.clone()
    }
}

impl Render for i64 {
    /// An integer renders to its decimal text.
    open spec fn rendered(&self) -> Seq<char> {
        decimal(*self as int)
    }

    fn render(&self) -> (out: String) {
        decimal_string(*self)
    }
}

} // verus!
