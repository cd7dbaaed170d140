//! The API key: a secret text, kept exactly as it was given.

use vstd::prelude::*;
use vstd::std_specs::cmp::PartialEqSpec;

verus! {

/// A provider's API key. The text is stored verbatim: nothing is trimmed,
/// normalised or checked, and the empty text is a key like any other.
#[derive(Debug)]
pub struct ApiKey(String);

impl View for ApiKey {
    type V = Seq<char>;

    /// The characters of the key.
    closed spec fn view(&self) -> Seq<char> {
        self.0@
    }
}

/// Compares two string slices with `==` of `str`, which std documents as
/// equality of contents: the result is true exactly when both hold the
/// same characters.
#[verifier::external_body]
fn same_text(a: &str, b: &str) -> (r: bool)
    ensures
        r == (a@ == b@),
{
    a == b
}

impl ApiKey {
    /// What equality of a key and a text means: the key's characters are
    /// those of the text, one for one.
    pub open spec fn is_text(&self, text: Seq<char>) -> bool {
        self@ == text
    }

    /// Makes a key of the given text.
    pub fn new(key: &str) -> (r: Self)
        ensures
            r@ == key@,
    {
        ApiKey(key.to_owned())
    }

    /// Makes a key of an owned text, without copying it.
    pub fn from_string(key: String) -> (r: Self)
        ensures
            r@ == key@,
    {
        ApiKey(key)
    }

    /// A borrowed view of the key's text. Every query on text (its length,
    /// a change of case, a search) can be made on the result.
    pub fn as_str(&self) -> (r: &str)
        ensures
            r@ == self@,
    {
        self.0.as_str()
    }

    /// Whether the key's text is `other`.
    pub fn equals(&self, other: &str) -> (r: bool)
        ensures
            r == self.is_text(other@),
    {
        same_text(self.0.as_str(), other)
    }

    /// Whether the key's text is that of the owned string `other`.
    pub fn equals_string(&self, other: &String) -> (r: bool)
        ensures
            r == self.is_text(other@),
    {
        self.0 == *other
    }

    /// The text to show for the key: the key itself, with nothing masked.
    pub fn to_display_string(&self) -> (r: String)
        ensures
            r@ == self@,
    {
        self.0.clone()
    }

    /// A key made of a text equals that text, whether the text is compared
    /// borrowed or owned, by method or by `==`: `key` stands for what `new`
    /// or `from_string` returns for `text`.
    pub proof fn law_made_key_equals_its_text(key: ApiKey, text: &str, owned: String)
        requires
            key@ == text@,
            owned@ == text@,
        ensures
            key.is_text(text@),
            key.is_text(owned@),
            key.eq_spec(&text),
            key.eq_spec(&owned),
    {
    }
}

impl Clone for ApiKey {
    fn clone(&self) -> (r: Self)
        ensures
            r@ == self@,
    {
        ApiKey(self.0.clone())
    }
}

impl core::ops::Deref for ApiKey {
    type Target = str;

    fn deref(&self) -> (r: &str)
        ensures
            r@ == self@,
    {
        self.0.as_str()
    }
}

impl<'a> PartialEq<&'a str> for ApiKey {
    fn eq(&self, other: &&'a str) -> (r: bool) {
        same_text(self.0.as_str(), *other)
    }
}

impl<'a> vstd::std_specs::cmp::PartialEqSpecImpl<&'a str> for ApiKey {
    open spec fn obeys_eq_spec() -> bool {
        true
    }

    open spec fn eq_spec(&self, other: &&'a str) -> bool {
        self.is_text(other@)
    }
}

impl PartialEq<String> for ApiKey {
    fn eq(&self, other: &String) -> (r: bool) {
        self.0 == *other
    }
}

impl vstd::std_specs::cmp::PartialEqSpecImpl<String> for ApiKey {
    open spec fn obeys_eq_spec() -> bool {
        true
    }

    open spec fn eq_spec(&self, other: &String) -> bool {
        self.is_text(other@)
    }
}

} // verus!
