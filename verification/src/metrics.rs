//! Label values that may be missing.

use vstd::pervasive::cloned;
use vstd::prelude::*;
use vstd::string::*;

use crate::identity::Identity;
use crate::proxy::label_value::{LabelValue, LabelValueView};

verus! {

/// A label value; where there is none, the label reads `unknown`.
#[derive(Debug, PartialEq, Eq, Hash)]
pub struct DefaultedUnknown<T>(pub Option<T>);

impl<T: View> View for DefaultedUnknown<T> {
    type V = Option<T::V>;

    open spec fn view(&self) -> Option<T::V> {
        match self.0 {
            Some(t) => Some(t@),
            None => None,
        }
    }
}

/// A text that names something: the empty text names nothing.
pub open spec fn known(text: Seq<char>) -> Option<Seq<char>> {
    if text.len() == 0 {
        None
    } else {
        Some(text)
    }
}

/// What an optional text says.
pub open spec fn text_view(text: Option<String>) -> Option<Seq<char>> {
    match text {
        Some(s) => Some(s@),
        None => None,
    }
}

/// A copy of an optional text.
pub fn clone_text(text: &Option<String>) -> (r: Option<String>)
    ensures
        text_view(r) == text_view(*text),
{
    match text {
        Some(s) => Some(s.clone()),
        None => None,
    }
}

impl<T: View> DefaultedUnknown<T> {
    /// No value.
    pub fn unknown() -> (r: Self)
        ensures
            r@ is None,
    {
        DefaultedUnknown(None)
    }

    /// The given value.
    pub fn value(t: T) -> (r: Self)
        ensures
            r@ == Some(t@),
    {
        DefaultedUnknown(Some(t))
    }
}

impl<T: Clone> Clone for DefaultedUnknown<T> {
    fn clone(&self) -> (r: Self)
        ensures
            match self.0 {
                Some(t) => r.0 is Some && cloned(t, r.0->0),
                None => r.0 is None,
            },
    {
        DefaultedUnknown(self.0.clone())
    }
}

impl DefaultedUnknown<String> {
    /// The text as a label value; the empty text is no value.
    pub fn from_text(text: &String) -> (r: Self)
        ensures
            r@ == known(text@),
    {
        if text.as_str().is_empty() {
            DefaultedUnknown(None)
        } else {
            DefaultedUnknown(Some(text.clone()))
        }
    }

    /// The optional text as a label value, as it is.
    pub fn from_option(text: &Option<String>) -> (r: Self)
        ensures
            r@ == text_view(*text),
    {
        DefaultedUnknown(clone_text(text))
    }

    /// A copy of the value, if there is one.
    pub fn inner(&self) -> (r: Option<String>)
        ensures
            text_view(r) == self@,
    {
        clone_text(&self.0)
    }

    /// The value of the label.
    pub fn to_label(&self) -> (r: LabelValue)
        ensures
            r@ == LabelValueView::of_text(self@),
    {
        match &self.0 {
            Some(s) => LabelValue::Text(s.clone()),
            None => LabelValue::Missing,
        }
    }
}

impl DefaultedUnknown<Identity> {
    /// The value of the label.
    pub fn to_label(&self) -> (r: LabelValue)
        ensures
            r@ == LabelValueView::of_identity(self@),
    {
        match &self.0 {
            Some(id) => LabelValue::Principal(id.clone()),
            None => LabelValue::Missing,
        }
    }
}

} // verus!
