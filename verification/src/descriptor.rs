//! The record that names a provider: one field, `base_url`, written out as
//! the URL's text and read back by parsing that text.

use crate::endpoint::{parsed_url, InvalidUrl, ValidatedUrl};
use vstd::prelude::*;
use vstd::std_specs::cmp::PartialEqSpec;

verus! {

/// Where a provider's API is found.
#[derive(Debug)]
pub struct ProviderDescriptor {
    /// The address under which the provider's API stands.
    pub base_url: ValidatedUrl,
}

impl ProviderDescriptor {
    /// The address is one that the parser made.
    pub open spec fn wf(&self) -> bool {
        self.base_url.wf()
    }

    /// The outcome of reading a record whose field `base_url` holds `field`,
    /// as `deserialize` returns it.
    pub open spec fn read_outcome(field: Seq<char>, r: Result<ProviderDescriptor, InvalidUrl>) -> bool {
        match parsed_url(field) {
            Ok(normalised) => r matches Ok(d) && d.base_url@ == normalised && d.wf(),
            Err(reason) => r matches Err(e) && e.input@ == field && e.cause == reason,
        }
    }

    /// A descriptor of the given address.
    pub fn new(base_url: ValidatedUrl) -> (r: Self)
        ensures
            r.base_url == base_url,
            r.wf(),
    {
        proof {
            use_type_invariant(&base_url);
        }
        ProviderDescriptor { base_url }
    }

    /// Reads a record from the text of its field `base_url`. A text that is
    /// no absolute URL is refused, with the text and the parser's reason;
    /// every other text gives the descriptor of the URL it denotes.
    pub fn deserialize(base_url: &str) -> (r: Result<ProviderDescriptor, InvalidUrl>)
        ensures
            Self::read_outcome(base_url@, r),
    {
        match ValidatedUrl::parse(base_url) {
            Ok(parsed) => Ok(ProviderDescriptor { base_url: parsed }),
            Err(e) => Err(e),
        }
    }

    /// Writes the record out: the text of its field `base_url`, which is
    /// the URL in its normalised form.
    pub fn serialize(&self) -> (r: String)
        ensures
            r@ == self.base_url@,
            self.wf(),
    {
        self.base_url.as_str().to_owned()
    }

    /// A descriptor that is written out and read back is the descriptor
    /// that was written: `written` stands for what `serialize` returns for
    /// `d`, and `read` for what `deserialize` returns for `written`. This
    /// is stated of a canonical address, one that the parser returns
    /// unchanged; `ValidatedUrl::reparses_to_itself` tests that.
    pub proof fn law_round_trip(
        d: ProviderDescriptor,
        written: Seq<char>,
        read: Result<ProviderDescriptor, InvalidUrl>,
    )
        requires
            d.base_url.is_canonical(),
            written == d.base_url@,
            Self::read_outcome(written, read),
        ensures
            read matches Ok(back) && back.eq_spec(&d),
    {
    }
}

impl Clone for ProviderDescriptor {
    fn clone(&self) -> (r: Self)
        ensures
            r.base_url@ == self.base_url@,
    {
        ProviderDescriptor { base_url: self.base_url.clone() }
    }
}

impl PartialEq for ProviderDescriptor {
    fn eq(&self, other: &Self) -> (r: bool) {
        self.base_url == other.base_url
    }
}

impl vstd::std_specs::cmp::PartialEqSpecImpl for ProviderDescriptor {
    open spec fn obeys_eq_spec() -> bool {
        true
    }

    open spec fn eq_spec(&self, other: &Self) -> bool {
        self.base_url@ == other.base_url@
    }
}

} // verus!
