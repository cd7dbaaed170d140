//! The provider as a program uses it: its address together with the key.

use crate::api_key::ApiKey;
use crate::endpoint::{parsed_url, InvalidUrl, ValidatedUrl};
use vstd::prelude::*;

verus! {

/// The address that a model has unless another is given.
pub const DEFAULT_BASE_URL: &'static str = "https://api.deepseek.com/v1";

/// A provider's address and the key for it.
pub struct DeepSeekModel {
    /// The address under which the provider's API stands.
    pub base_url: ValidatedUrl,
    /// The key that the provider asks for.
    pub api_key: ApiKey,
}

impl DeepSeekModel {
    /// The address is one that the parser made.
    pub open spec fn wf(&self) -> bool {
        self.base_url.wf()
    }

    /// `self` holds the default address, as the parser normalises it.
    pub open spec fn has_default_base_url(&self) -> bool {
        &&& ValidatedUrl::parses_to(DEFAULT_BASE_URL@, self.base_url@)
        &&& self.wf()
    }

    /// `self` holds the empty key: the key equals the empty text and has
    /// no character.
    pub open spec fn has_empty_key(&self) -> bool {
        &&& self.api_key.is_text(""@)
        &&& self.api_key@ == Seq::<char>::empty()
    }

    /// `self` holds the key that was asked for: the given one, or the empty
    /// key where none was given.
    pub open spec fn has_key_or_empty(&self, api_key: Option<ApiKey>) -> bool {
        match api_key {
            Some(key) => self.api_key == key,
            None => self.has_empty_key(),
        }
    }

    /// The outcome of making a model of the parts that are given, as
    /// `from_options` returns it, and `try_default` and `try_new` with the
    /// parts that they leave out absent.
    pub open spec fn made_of_options(
        base_url: Option<ValidatedUrl>,
        api_key: Option<ApiKey>,
        r: Result<DeepSeekModel, InvalidUrl>,
    ) -> bool {
        match base_url {
            Some(given) => r matches Ok(m) && m.base_url == given && m.wf()
                && m.has_key_or_empty(api_key),
            None => match parsed_url(DEFAULT_BASE_URL@) {
                Ok(normalised) => r matches Ok(m) && m.has_default_base_url()
                    && m.has_key_or_empty(api_key),
                Err(reason) => r matches Err(e) && e.input@ == DEFAULT_BASE_URL@ && e.cause
                    == reason,
            },
        }
    }

    /// All models at the default address hold the same address: what
    /// `default` returns and what `new` returns for any key agree in it.
    pub proof fn law_default_address_is_one(a: DeepSeekModel, b: DeepSeekModel)
        requires
            a.has_default_base_url(),
            b.has_default_base_url(),
        ensures
            a.base_url@ == b.base_url@,
    {
    }

    /// A model of the given address and key.
    pub fn from_parts(base_url: ValidatedUrl, api_key: ApiKey) -> (r: Self)
        ensures
            r.base_url == base_url,
            r.api_key == api_key,
            r.wf(),
    {
        proof {
            use_type_invariant(&base_url);
        }
        DeepSeekModel { base_url, api_key }
    }

    /// The model at the default address, with the empty key. The default
    /// address is a fixed text that the parser is expected to accept; a
    /// caller that cannot know this calls `try_default`.
    pub fn default() -> (r: Self)
        requires
            parsed_url(DEFAULT_BASE_URL@) is Ok,
        ensures
            r.has_default_base_url(),
            r.has_empty_key(),
    {
        proof {
            reveal_strlit("");
            assert(""@ =~= Seq::<char>::empty());
        }
        match ValidatedUrl::parse(DEFAULT_BASE_URL) {
            Ok(base_url) => DeepSeekModel { base_url, api_key: ApiKey::new("") },
            Err(_) => vstd::pervasive::unreached(),
        }
    }

    /// The model at the default address, with the given key.
    pub fn new(api_key: ApiKey) -> (r: Self)
        requires
            parsed_url(DEFAULT_BASE_URL@) is Ok,
        ensures
            r.has_default_base_url(),
            r.api_key == api_key,
    {
        let model = Self::default();
        DeepSeekModel { base_url: model.base_url, api_key }
    }

    /// The model at the default address, with the empty key, where the
    /// parser accepts that address; else the parser's refusal.
    pub fn try_default() -> (r: Result<DeepSeekModel, InvalidUrl>)
        ensures
            Self::made_of_options(None, None, r),
    {
        match ValidatedUrl::parse(DEFAULT_BASE_URL) {
            Ok(_) => Ok(Self::default()),
            Err(e) => Err(e),
        }
    }

    /// The model at the default address, with the given key, where the
    /// parser accepts that address; else the parser's refusal.
    pub fn try_new(api_key: ApiKey) -> (r: Result<DeepSeekModel, InvalidUrl>)
        ensures
            Self::made_of_options(None, Some(api_key), r),
    {
        match ValidatedUrl::parse(DEFAULT_BASE_URL) {
            Ok(_) => Ok(Self::new(api_key)),
            Err(e) => Err(e),
        }
    }

    /// A model of the parts that are given, each part that is absent
    /// taking its default: the default address, the empty key. With an
    /// address given nothing is parsed and the call succeeds; without one
    /// it succeeds where the parser accepts the default address.
    pub fn from_options(base_url: Option<ValidatedUrl>, api_key: Option<ApiKey>) -> (r: Result<
        DeepSeekModel,
        InvalidUrl,
    >)
        ensures
            Self::made_of_options(base_url, api_key, r),
    {
        proof {
            reveal_strlit("");
            assert(""@ =~= Seq::<char>::empty());
        }
        let key = match api_key {
            Some(given) => given,
            None => ApiKey::new(""),
        };
        match base_url {
            Some(given) => Ok(Self::from_parts(given, key)),
            None => Self::try_new(key),
        }
    }
}

} // verus!
