use deepseek_model::api_key::ApiKey;

#[test]
fn test_api_key() {
    let key = ApiKey::new("test");
    assert_eq!(key, "test");
    assert_eq!(key, String::from("test"));
    assert_eq!(key.len(), 4);
    assert_eq!(key.to_uppercase(), "TEST");
}

#[test]
fn key_equals_the_text_it_was_made_of() {
    for text in ["", "test", "sk-0123456789abcdef", "  padded  ", "clé-ключ-鍵"] {
        let key = ApiKey::new(text);
        assert!(key.equals(text));
        assert!(key.equals_string(&String::from(text)));
        assert!(key == text);
        assert!(key == String::from(text));
    }
}

#[test]
fn key_differs_from_any_other_text() {
    let key = ApiKey::new("test");
    assert!(!key.equals("tesT"));
    assert!(!key.equals("test "));
    assert!(!key.equals(""));
    assert!(!key.equals_string(&String::from("other")));
    assert!(key != "TEST");
    assert!(key != String::from("tes"));
}

#[test]
fn key_is_stored_verbatim() {
    let key = ApiKey::new("  Mixed Case\t\n");
    assert_eq!(key.as_str(), "  Mixed Case\t\n");
    assert_eq!(key.as_str().len(), 14);
}

#[test]
fn empty_key_is_a_key() {
    let key = ApiKey::new("");
    assert!(key.equals(""));
    assert_eq!(key.as_str(), "");
    assert!(key.is_empty());
    assert_eq!(key.to_display_string(), "");
}

#[test]
fn key_from_owned_string() {
    let key = ApiKey::from_string(String::from("owned-key"));
    assert_eq!(key.as_str(), "owned-key");
    assert!(key.equals_string(&String::from("owned-key")));
}

#[test]
fn text_queries_go_to_the_text() {
    let key = ApiKey::new("test");
    assert_eq!(key.as_str().len(), 4);
    assert_eq!(key.as_str().to_uppercase(), "TEST");
    assert!(key.starts_with("te"));
    assert_eq!(&key[1..3], "es");
}

#[test]
fn display_string_shows_the_key_unmasked() {
    let key = ApiKey::new("sk-secret-123");
    assert_eq!(key.to_display_string(), "sk-secret-123");
}

#[test]
fn cloned_key_holds_the_same_text() {
    let key = ApiKey::new("test");
    let copy = key.clone();
    assert_eq!(copy.as_str(), key.as_str());
    assert!(copy.equals("test"));
}

#[test]
fn debug_form_names_the_type() {
    let key = ApiKey::new("test");
    assert_eq!(format!("{:?}", key), "ApiKey(\"test\")");
}
