//! Label values, as they are told apart and as they are shown.

use prometheus_client::encoding::{EncodeLabelValue, LabelValueEncoder};

use vstd::prelude::*;
use vstd::string::*;

use crate::identity::{Identity, IdentityView};

verus! {

/// The value of a label.
#[derive(Debug, Hash)]
pub enum LabelValue {
    /// Nothing is known.
    Missing,
    Text(String),
    Principal(Identity),
}

/// What a [`LabelValue`] says.
pub enum LabelValueView {
    Missing,
    Text(Seq<char>),
    Principal(IdentityView),
}

impl View for LabelValue {
    type V = LabelValueView;

    open spec fn view(&self) -> LabelValueView {
        match self {
            LabelValue::Missing => LabelValueView::Missing,
            LabelValue::Text(s) => LabelValueView::Text(s@),
            LabelValue::Principal(id) => LabelValueView::Principal(id@),
        }
    }
}

impl LabelValueView {
    /// The text that a label with this value shows.
    pub open spec fn shown(self) -> Seq<char> {
        match self {
            LabelValueView::Missing => "unknown"@,
            LabelValueView::Text(s) => s,
            LabelValueView::Principal(id) => id.text(),
        }
    }

    /// The value that a text is, if there is one.
    pub open spec fn of_text(text: Option<Seq<char>>) -> LabelValueView {
        match text {
            Some(s) => LabelValueView::Text(s),
            None => LabelValueView::Missing,
        }
    }

    /// The value that an identity is, if there is one.
    pub open spec fn of_identity(id: Option<IdentityView>) -> LabelValueView {
        match id {
            Some(id) => LabelValueView::Principal(id),
            None => LabelValueView::Missing,
        }
    }
}

/// A label value with the text that it shows. Values are told apart by what they are, not by
/// their texts: a missing value and the text `unknown` read alike and yet differ.
#[derive(Debug, Hash)]
pub struct ShownLabel {
    value: LabelValue,
    text: String,
}

impl View for ShownLabel {
    type V = LabelValueView;

    closed spec fn view(&self) -> LabelValueView {
        self.value@
    }
}

impl ShownLabel {
    /// The text is the one that the value shows.
    #[verifier::type_invariant]
    spec fn inv(self) -> bool {
        self.text@ == self.value@.shown()
    }

    /// The value with its text.
    pub fn new(value: LabelValue) -> (r: ShownLabel)
        ensures
            r@ == value@,
    {
        let text = match &value {
            LabelValue::Missing => "unknown".to_owned(),
            LabelValue::Text(s) => s.clone(),
            LabelValue::Principal(id) => id.to_text(),
        };
        ShownLabel { value, text }
    }

    /// The text that the label shows.
    pub fn text(&self) -> (r: &str)
        ensures
            r@ == self@.shown(),
    {
        proof {
            use_type_invariant(self);
        }
        self.text.as_str()
    }
}

impl Clone for ShownLabel {
    fn clone(&self) -> (r: Self)
        ensures
            r@ == self@,
    {
        let value = match &self.value {
            LabelValue::Missing => LabelValue::Missing,
            LabelValue::Text(s) => LabelValue::Text(s.clone()),
            LabelValue::Principal(id) => LabelValue::Principal(id.clone()),
        };
        ShownLabel::new(value)
    }
}

impl PartialEq for ShownLabel {
    fn eq(&self, other: &Self) -> (r: bool) {
        match (&self.value, &other.value) {
            (LabelValue::Missing, LabelValue::Missing) => true,
            (LabelValue::Text(a), LabelValue::Text(b)) => *a == *b,
            (LabelValue::Principal(a), LabelValue::Principal(b)) => a.same(b),
            _ => false,
        }
    }
}

impl vstd::std_specs::cmp::PartialEqSpecImpl for ShownLabel {
    open spec fn obeys_eq_spec() -> bool {
        true
    }

    open spec fn eq_spec(&self, other: &Self) -> bool {
        self@ == other@
    }
}

impl Eq for ShownLabel {

}

/// What a label value is written to when metrics are exported.
#[verifier::external_type_specification]
#[verifier::external_body]
pub struct ExLabelValueEncoder<'a>(LabelValueEncoder<'a>);

/// Why writing failed.
#[verifier::external_type_specification]
#[verifier::external_body]
pub struct ExFmtError(std::fmt::Error);

impl EncodeLabelValue for ShownLabel {
    /// Has the text written, by `EncodeLabelValue::encode` of `String`, when a registry
    /// exports a family that has the label. Nothing is claimed of it: what an encoder has
    /// written cannot be seen.
    #[verifier::external_body]
    fn encode(&self, encoder: &mut LabelValueEncoder<'_>) -> (r: Result<(), std::fmt::Error>) {
        self.text.encode(encoder)
    }
}

} // verus!
