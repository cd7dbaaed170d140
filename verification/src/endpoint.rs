//! Provider addresses: absolute URLs, parsed and normalised by the `url`
//! crate and held here by their normalised text.
//!
//! Two URLs of that crate are equal exactly when their serialisations are,
//! so the text stands for the URL. What the parser makes of a text is not
//! spelled out here: it is named (`parsed_url`), and the contracts speak of
//! that name.

use vstd::prelude::*;
use vstd::std_specs::cmp::PartialEqSpecImpl;

verus! {

/// `url::ParseError`, the reason for which the parser refused a text.
/// Nothing is known here of a value of it but its identity.
#[verifier::external_type_specification]
#[verifier::external_body]
pub struct ExParseError(url::ParseError);

/// What `url::Url::parse` returns for `text`: for a URL, its serialisation
/// (the text that `Url::as_str` gives, and by which URLs are compared);
/// otherwise the parser's error. The parser reads nothing but its argument.
pub uninterp spec fn parsed_url(text: Seq<char>) -> Result<Seq<char>, url::ParseError>;

/// Calls `url::Url::parse` and hands the URL out as its serialisation,
/// through `From<Url> for String`. The contract claims only that the
/// outcome is the one named `parsed_url` for this text; it promises neither
/// success nor failure on any text.
#[verifier::external_body]
fn parse_url(text: &str) -> (r: Result<String, url::ParseError>)
    ensures
        match r {
            Ok(s) => parsed_url(text@) matches Ok(normalised) && normalised == s@,
            Err(e) => parsed_url(text@) matches Err(reason) && reason == e,
        },
{
    match url::Url::parse(text) {
        Ok(parsed) => Ok(String::from(parsed)),
        Err(e) => Err(e),
    }
}

/// A text that is no absolute URL, with the parser's reason.
#[derive(Debug, PartialEq, Eq)]
pub struct InvalidUrl {
    /// The text that was refused, as it was given.
    pub input: String,
    /// Why the parser refused it.
    pub cause: url::ParseError,
}

/// An absolute URL that the parser has accepted, in its normalised form.
#[derive(Debug)]
pub struct ValidatedUrl {
    text: String,
}

impl View for ValidatedUrl {
    type V = Seq<char>;

    /// The normalised text of the URL.
    closed spec fn view(&self) -> Seq<char> {
        self.text@
    }
}

impl ValidatedUrl {
    /// The parser accepts `source` and returns a URL whose text is
    /// `normalised`.
    pub open spec fn parses_to(source: Seq<char>, normalised: Seq<char>) -> bool {
        parsed_url(source) matches Ok(n) && n == normalised
    }

    /// `text` is what the parser returned for some input.
    pub open spec fn is_parsed_text(text: Seq<char>) -> bool {
        exists|source: Seq<char>| Self::parses_to(source, text)
    }

    /// The invariant of the type, which every value that a program holds
    /// meets: the URL's text is what the parser returned for some input.
    #[verifier::type_invariant]
    pub open spec fn wf(&self) -> bool {
        Self::is_parsed_text(self@)
    }

    /// Whether the parser, given the URL's own text, returns that text
    /// again.
    pub open spec fn is_canonical(&self) -> bool {
        Self::parses_to(self@, self@)
    }

    /// The outcome of parsing `text`, as `parse` returns it.
    pub open spec fn parse_outcome(text: Seq<char>, r: Result<ValidatedUrl, InvalidUrl>) -> bool {
        match parsed_url(text) {
            Ok(normalised) => r matches Ok(u) && u@ == normalised && u.wf(),
            Err(reason) => r matches Err(e) && e.input@ == text && e.cause == reason,
        }
    }

    /// Parses `text` as an absolute URL. It succeeds exactly when the
    /// parser does, with the URL that the parser made; a refusal comes
    /// back with the text and the parser's reason, and no other address
    /// takes the place of the one refused.
    pub fn parse(text: &str) -> (r: Result<ValidatedUrl, InvalidUrl>)
        ensures
            Self::parse_outcome(text@, r),
    {
        match parse_url(text) {
            Ok(normalised) => {
                assert(Self::parses_to(text@, normalised@));
                Ok(ValidatedUrl { text: normalised })
            },
            Err(cause) => Err(InvalidUrl { input: text.to_owned(), cause }),
        }
    }

    /// The normalised text of the URL, borrowed. The call also tells
    /// that the URL is well-formed, as every value of the type is.
    pub fn as_str(&self) -> (r: &str)
        ensures
            r@ == self@,
            self.wf(),
    {
        proof {
            use_type_invariant(self);
        }
        self.text.as_str()
    }

    /// Parses the URL's own text once more and says whether the same text
    /// came back.
    pub fn reparses_to_itself(&self) -> (r: bool)
        ensures
            r == self.is_canonical(),
    {
        match parse_url(self.text.as_str()) {
            Ok(again) => again == self.text,
            Err(_) => false,
        }
    }
}

impl Clone for ValidatedUrl {
    fn clone(&self) -> (r: Self)
        ensures
            r@ == self@,
            r.wf(),
    {
        proof {
            use_type_invariant(self);
        }
        let text = self.text.clone();
        assert(text@ == self@);
        ValidatedUrl { text }
    }
}

impl PartialEq for ValidatedUrl {
    fn eq(&self, other: &Self) -> (r: bool) {
        self.text == other.text
    }
}

impl PartialEqSpecImpl for ValidatedUrl {
    open spec fn obeys_eq_spec() -> bool {
        true
    }

    open spec fn eq_spec(&self, other: &Self) -> bool {
        self@ == other@
    }
}

} // verus!
