use deepseek_model::api_key::ApiKey;
use deepseek_model::endpoint::ValidatedUrl;
use deepseek_model::model::{DeepSeekModel, DEFAULT_BASE_URL};

#[test]
fn test_deepseek_info() {
    let key = ApiKey::new("test_api_key");
    let model = DeepSeekModel::new(key);
    assert_eq!(model.api_key, "test_api_key");
}

#[test]
fn test_deepseek_info_default() {
    let model = DeepSeekModel::default();
    assert_eq!(model.api_key, "");
}

#[test]
fn default_model_has_the_default_address() {
    let model = DeepSeekModel::default();
    let expected = url::Url::parse("https://api.deepseek.com/v1").unwrap();
    assert_eq!(model.base_url.as_str(), expected.as_str());
    assert_eq!(model.base_url.as_str(), "https://api.deepseek.com/v1");
    assert_eq!(model.base_url, ValidatedUrl::parse(DEFAULT_BASE_URL).unwrap());
    assert!(model.api_key.equals(""));
}

#[test]
fn default_address_is_the_documented_one() {
    assert_eq!(DEFAULT_BASE_URL, "https://api.deepseek.com/v1");
}

#[test]
fn new_model_keeps_the_key_and_takes_the_default_address() {
    let model = DeepSeekModel::new(ApiKey::new("test_api_key"));
    assert!(model.api_key.equals("test_api_key"));
    assert_eq!(model.base_url.as_str(), "https://api.deepseek.com/v1");
}

#[test]
fn try_default_gives_the_default_model() {
    let model = DeepSeekModel::try_default().unwrap();
    assert!(model.api_key.equals(""));
    assert_eq!(model.base_url.as_str(), DeepSeekModel::default().base_url.as_str());
}

#[test]
fn try_new_gives_the_model_of_new() {
    let model = DeepSeekModel::try_new(ApiKey::new("k")).unwrap();
    assert!(model.api_key.equals("k"));
    assert_eq!(model.base_url.as_str(), "https://api.deepseek.com/v1");
}

#[test]
fn from_parts_keeps_both_parts() {
    let base_url = ValidatedUrl::parse("http://localhost:8080/api").unwrap();
    let model = DeepSeekModel::from_parts(base_url, ApiKey::new("local"));
    assert_eq!(model.base_url.as_str(), "http://localhost:8080/api");
    assert!(model.api_key.equals("local"));
}

#[test]
fn from_options_defaults_each_absent_part() {
    let none = DeepSeekModel::from_options(None, None).unwrap();
    assert_eq!(none.base_url.as_str(), "https://api.deepseek.com/v1");
    assert!(none.api_key.equals(""));

    let key_only = DeepSeekModel::from_options(None, Some(ApiKey::new("k1"))).unwrap();
    assert_eq!(key_only.base_url.as_str(), "https://api.deepseek.com/v1");
    assert!(key_only.api_key.equals("k1"));

    let url_only =
        DeepSeekModel::from_options(Some(ValidatedUrl::parse("https://example.com/v2").unwrap()), None)
            .unwrap();
    assert_eq!(url_only.base_url.as_str(), "https://example.com/v2");
    assert!(url_only.api_key.equals(""));

    let both = DeepSeekModel::from_options(
        Some(ValidatedUrl::parse("https://example.com/v2").unwrap()),
        Some(ApiKey::new("k2")),
    )
    .unwrap();
    assert_eq!(both.base_url.as_str(), "https://example.com/v2");
    assert!(both.api_key.equals("k2"));
}

#[test]
fn new_and_default_share_the_address() {
    let a = DeepSeekModel::default();
    let b = DeepSeekModel::new(ApiKey::new("any"));
    assert_eq!(a.base_url, b.base_url);
}
