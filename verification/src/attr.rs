//! The record of one field of a declared struct.

use vstd::prelude::*;

use crate::util::clone_strings;

verus! {

/// What is known of one field: the name of the column that it maps to, and
/// the tokens that describe the field to a later pass, which reads them from
/// source text.
#[derive(Debug, PartialEq, Eq)]
pub struct Attr {
    pub column_name: String,
    pub stable_macro_tokens: Vec<String>,
}

/// What an [`Attr`] stands for.
pub struct AttrView {
    pub column_name: Seq<char>,
    pub stable_macro_tokens: Seq<Seq<char>>,
}

impl View for Attr {
    type V = AttrView;

    open spec fn view(&self) -> AttrView {
        AttrView {
            column_name: self.column_name@,
            stable_macro_tokens: self.stable_macro_tokens.deep_view(),
        }
    }
}

impl DeepView for Attr {
    type V = AttrView;

    open spec fn deep_view(&self) -> AttrView {
        self@
    }
}

impl Clone for Attr {
    fn clone(&self) -> (copy: Self)
        ensures
            copy@ == self@,
    {
        Attr {
            column_name: self.column_name.clone(),
            stable_macro_tokens: clone_strings(&self.stable_macro_tokens),
        }
    }
}

impl Attr {
    /// The tokens that describe the field to the later pass, in order.
    pub fn to_stable_macro_tokens(&self) -> (tokens: Vec<String>)
        ensures
            tokens.deep_view() == self@.stable_macro_tokens,
    {
        clone_strings(&self.stable_macro_tokens)
    }
}

} // verus!
