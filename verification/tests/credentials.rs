use ollama_provider::{
    default_api_key_location, Credential, CredentialLocation, ErrorDetails, InferenceCredentials,
    OllamaCredentials, OllamaProvider, ProviderError,
};
use secrecy::{ExposeSecret, SecretString};

#[test]
fn test_credential_to_ollama_credentials() {
    // Test Static credential
    let generic = Credential::Static(SecretString::from("test_key"));
    let creds: OllamaCredentials<SecretString> = OllamaCredentials::try_from(generic).unwrap();
    assert!(matches!(creds, OllamaCredentials::Static(_)));

    // Test Dynamic credential
    let generic: Credential<SecretString> = Credential::Dynamic("key_name".to_string());
    let creds = OllamaCredentials::try_from(generic).unwrap();
    assert!(matches!(creds, OllamaCredentials::Dynamic(_)));

    // Test absent credential
    let generic: Credential<SecretString> = Credential::NoKey;
    let creds = OllamaCredentials::try_from(generic).unwrap();
    assert!(matches!(creds, OllamaCredentials::NoKey));

    // Test Missing credential
    let generic: Credential<SecretString> = Credential::Missing;
    let creds = OllamaCredentials::try_from(generic).unwrap();
    assert!(matches!(creds, OllamaCredentials::NoKey));

    // Test invalid type
    let generic = Credential::FileContents(SecretString::from("test"));
    let result = OllamaCredentials::try_from(generic);
    assert!(result.is_err());
    assert!(matches!(
        result.unwrap_err().get_owned_details(),
        ErrorDetails::Config { message } if message.contains("Invalid api_key_location")
    ));
}

#[test]
fn static_key_goes_with_every_request() {
    let creds = OllamaCredentials::Static(SecretString::from("fixed"));
    let keys = InferenceCredentials::new();
    let key = creds.get_api_key(&keys).unwrap().unwrap();
    assert_eq!(key.expose_secret(), "fixed");
}

#[test]
fn dynamic_key_is_the_one_that_the_request_brings() {
    let creds = OllamaCredentials::Dynamic("mine".to_string());
    let mut keys = InferenceCredentials::new();
    keys.insert("other".to_string(), SecretString::from("wrong"));
    keys.insert("mine".to_string(), SecretString::from("old"));
    keys.insert("mine".to_string(), SecretString::from("right"));
    let key = creds.get_api_key(&keys).unwrap().unwrap();
    assert_eq!(key.expose_secret(), "right");
}

#[test]
fn absent_dynamic_key_is_an_error() {
    let creds = OllamaCredentials::Dynamic("mine".to_string());
    let mut keys = InferenceCredentials::new();
    keys.insert("other".to_string(), SecretString::from("wrong"));
    let error = creds.get_api_key(&keys).unwrap_err();
    assert_eq!(
        error.get_owned_details(),
        ErrorDetails::ApiKeyMissing { provider_name: "Ollama".to_string() }
    );
}

#[test]
fn no_key_is_needed_without_credentials() {
    let creds: OllamaCredentials<SecretString> = OllamaCredentials::NoKey;
    let keys = InferenceCredentials::new();
    assert!(creds.get_api_key(&keys).unwrap().is_none());
}

#[test]
fn default_location_is_an_environment_variable() {
    assert_eq!(
        default_api_key_location(),
        CredentialLocation::Env("OLLAMA_API_KEY".to_string())
    );
}

#[test]
fn configured_location_is_looked_up_and_not_kept() {
    let mut kept: Option<OllamaCredentials<SecretString>> = None;
    let provider = OllamaProvider::new(
        "llama3".to_string(),
        None,
        Some(CredentialLocation::Env("MY_KEY".to_string())),
        &mut kept,
        |location| {
            assert_eq!(location, CredentialLocation::Env("MY_KEY".to_string()));
            Ok(Credential::Static(SecretString::from("mine")))
        },
    )
    .unwrap();
    assert_eq!(provider.model_name, "llama3");
    assert!(provider.api_base.is_none());
    assert!(matches!(
        provider.credentials,
        OllamaCredentials::Static(key) if key.expose_secret() == "mine"
    ));
    assert!(kept.is_none());
}

#[test]
fn default_credentials_are_looked_up_once() {
    let mut kept: Option<OllamaCredentials<SecretString>> = None;
    let first = OllamaProvider::new("llama3".to_string(), None, None, &mut kept, |location| {
        assert_eq!(location, CredentialLocation::Env("OLLAMA_API_KEY".to_string()));
        Ok(Credential::Static(SecretString::from("default")))
    })
    .unwrap();
    assert!(matches!(first.credentials, OllamaCredentials::Static(_)));

    let second = OllamaProvider::new("mistral".to_string(), None, None, &mut kept, |_| {
        panic!("looked up again")
    })
    .unwrap();
    assert!(matches!(
        second.credentials,
        OllamaCredentials::Static(key) if key.expose_secret() == "default"
    ));
}

#[test]
fn failed_lookup_is_reported_and_not_kept() {
    let mut kept: Option<OllamaCredentials<SecretString>> = None;
    let error = OllamaProvider::new("llama3".to_string(), None, None, &mut kept, |_| {
        Err(ProviderError::new(ErrorDetails::ApiKeyMissing {
            provider_name: "Ollama".to_string(),
        }))
    })
    .unwrap_err();
    assert!(matches!(error.get_owned_details(), ErrorDetails::ApiKeyMissing { .. }));
    assert!(kept.is_none());

    let error = OllamaProvider::new("llama3".to_string(), None, None, &mut kept, |_| {
        Ok(Credential::FileContents(SecretString::from("contents")))
    })
    .unwrap_err();
    assert_eq!(
        error.get_owned_details(),
        ErrorDetails::Config {
            message: "Invalid api_key_location for Ollama provider".to_string()
        }
    );
    assert!(kept.is_none());
}
