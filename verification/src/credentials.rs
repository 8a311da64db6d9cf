//! Where the API key of a request comes from.
//!
//! `K` is the type of a key. Keys pass through unread.
use vstd::hash_map::StringHashMap;
use vstd::prelude::*;

use crate::error::{ErrorDetails, ProviderError};

#[allow(unused_imports)]
use crate::error::ErrorView;

verus! {

/// The name of the provider in messages to people.
pub const PROVIDER_NAME: &'static str = "Ollama";

/// The name of the provider in configuration and in errors.
pub const PROVIDER_TYPE: &'static str = "ollama";

/// Where a configuration says that a credential is to be found.
#[derive(Debug, PartialEq, Eq)]
pub enum CredentialLocation {
    /// In the environment variable of this name.
    Env(String),
    /// In the file whose path is in the environment variable of this name.
    PathFromEnv(String),
    /// In the file at this path.
    Path(String),
    /// In each request, under this name.
    Dynamic(String),
    /// There is none.
    NoKey,
}

/// A credential, as found at its location.
#[derive(Debug)]
pub enum Credential<K> {
    /// The key itself.
    Static(K),
    /// The contents of a file.
    FileContents(K),
    /// The name under which each request brings a key.
    Dynamic(String),
    /// There is no key.
    NoKey,
    /// There should have been a key, and its absence is to be overlooked.
    Missing,
}

/// The credentials that a request brings along: keys by their names.
#[verifier::reject_recursive_types(K)]
pub struct InferenceCredentials<K> {
    keys: StringHashMap<K>,
}

impl<K> View for InferenceCredentials<K> {
    type V = Map<Seq<char>, K>;

    closed spec fn view(&self) -> Map<Seq<char>, K> {
        self.keys@
    }
}

impl<K> InferenceCredentials<K> {
    /// No keys.
    pub fn new() -> (credentials: InferenceCredentials<K>)
        ensures
            credentials@ == Map::<Seq<char>, K>::empty(),
    {
        InferenceCredentials { keys: StringHashMap::new() }
    }

    /// Adds a key under a name, in place of any key of that name.
    pub fn insert(&mut self, name: String, key: K)
        ensures
            final(self)@ == old(self)@.insert(name@, key),
    {
        self.keys.insert(name, key);
    }

    /// The key of the given name.
    pub fn get(&self, name: &str) -> (key: Option<&K>)
        ensures
            match key {
                Some(k) => self@.contains_key(name@) && *k == self@[name@],
                None => !self@.contains_key(name@),
            },
    {
        self.keys.get(name)
    }
}

/// How the provider obtains the key for a request.
#[derive(Debug)]
pub enum OllamaCredentials<K> {
    /// The same key for every request.
    Static(K),
    /// The key that the request brings under this name.
    Dynamic(String),
    /// Requests go without a key.
    NoKey,
}

/// Whether `copy` is what cloning `credentials` gives.
pub open spec fn is_copy_of<K: Clone>(
    copy: OllamaCredentials<K>,
    credentials: OllamaCredentials<K>,
) -> bool {
    match credentials {
        OllamaCredentials::Static(key) => copy matches OllamaCredentials::Static(k) && cloned(
            key,
            k,
        ),
        OllamaCredentials::Dynamic(name) => copy == OllamaCredentials::<K>::Dynamic(name),
        OllamaCredentials::NoKey => copy == OllamaCredentials::<K>::NoKey,
    }
}

impl<K: Clone> Clone for OllamaCredentials<K> {
    fn clone(&self) -> (copy: OllamaCredentials<K>)
        ensures
            is_copy_of(copy, *self),
    {
        match self {
            OllamaCredentials::Static(key) => OllamaCredentials::Static(key.clone()),
            OllamaCredentials::Dynamic(name) => OllamaCredentials::Dynamic(name.clone()),
            OllamaCredentials::NoKey => OllamaCredentials::NoKey,
        }
    }
}

/// The credentials that the provider makes of what was found at their
/// location. It has no use for the contents of a file.
pub open spec fn accepted_credential<K>(credential: Credential<K>) -> Option<OllamaCredentials<K>> {
    match credential {
        Credential::Static(key) => Some(OllamaCredentials::Static(key)),
        Credential::Dynamic(name) => Some(OllamaCredentials::Dynamic(name)),
        Credential::NoKey => Some(OllamaCredentials::NoKey),
        Credential::Missing => Some(OllamaCredentials::NoKey),
        Credential::FileContents(_) => None,
    }
}

/// The error for a credential that the provider has no use for.
pub open spec fn refused_credential() -> ErrorView {
    ErrorView::Config { message: "Invalid api_key_location for Ollama provider"@ }
}

impl<K> TryFrom<Credential<K>> for OllamaCredentials<K> {
    type Error = ProviderError;

    fn try_from(credential: Credential<K>) -> (result: Result<
        OllamaCredentials<K>,
        ProviderError,
    >)
        ensures
            match accepted_credential(credential) {
                Some(credentials) => result == Ok::<OllamaCredentials<K>, ProviderError>(
                    credentials,
                ),
                None => result matches Err(e) && e@ == refused_credential(),
            },
    {
        match credential {
            Credential::Static(key) => Ok(OllamaCredentials::Static(key)),
            Credential::Dynamic(name) => Ok(OllamaCredentials::Dynamic(name)),
            Credential::NoKey => Ok(OllamaCredentials::NoKey),
            Credential::Missing => Ok(OllamaCredentials::NoKey),
            Credential::FileContents(_) => Err(
                ProviderError::new(
                    ErrorDetails::Config {
                        message: "Invalid api_key_location for Ollama provider".to_string(),
                    },
                ),
            ),
        }
    }
}

/// The contract of `try_from` itself says what it returns. No term does: errors
/// are equal by what they say, not as values.
impl<K> vstd::std_specs::convert::TryFromSpecImpl<Credential<K>> for OllamaCredentials<K> {
    open spec fn obeys_try_from_spec() -> bool {
        false
    }

    open spec fn try_from_spec(credential: Credential<K>) -> Result<
        OllamaCredentials<K>,
        ProviderError,
    > {
        match accepted_credential(credential) {
            Some(credentials) => Ok(credentials),
            None => Err(arbitrary()),
        }
    }
}

/// The key that a request is sent with: `Ok(None)` where it needs none, and an
/// error where it should have brought one and did not.
pub open spec fn request_key<K>(
    credentials: OllamaCredentials<K>,
    dynamic_api_keys: Map<Seq<char>, K>,
) -> Result<Option<K>, ErrorView> {
    match credentials {
        OllamaCredentials::Static(key) => Ok(Some(key)),
        OllamaCredentials::Dynamic(name) => if dynamic_api_keys.contains_key(name@) {
            Ok(Some(dynamic_api_keys[name@]))
        } else {
            Err(ErrorView::ApiKeyMissing { provider_name: PROVIDER_NAME@ })
        },
        OllamaCredentials::NoKey => Ok(None),
    }
}

impl<K> OllamaCredentials<K> {
    /// The key to send a request with, if any.
    pub fn get_api_key<'a>(&'a self, dynamic_api_keys: &'a InferenceCredentials<K>) -> (result:
        Result<Option<&'a K>, ProviderError>)
        ensures
            match request_key(*self, dynamic_api_keys@) {
                Ok(Some(key)) => result matches Ok(Some(k)) && *k == key,
                Ok(None) => result matches Ok(None),
                Err(error) => result matches Err(e) && e@ == error,
            },
    {
        match self {
            OllamaCredentials::Static(api_key) => Ok(Some(api_key)),
            OllamaCredentials::Dynamic(key_name) => match dynamic_api_keys.get(key_name.as_str()) {
                Some(api_key) => Ok(Some(api_key)),
                None => Err(
                    ProviderError::new(
                        ErrorDetails::ApiKeyMissing { provider_name: PROVIDER_NAME.to_string() },
                    ),
                ),
            },
            OllamaCredentials::NoKey => Ok(None),
        }
    }
}

/// Where the credential is looked for if the configuration does not say. Ollama
/// needs no API key; the location is there for consistency with other
/// providers.
pub fn default_api_key_location() -> (location: CredentialLocation)
    ensures
        location matches CredentialLocation::Env(name) && name@ == "OLLAMA_API_KEY"@,
{
    CredentialLocation::Env("OLLAMA_API_KEY".to_string())
}

} // verus!
