use report_card::input::{endpoint_id, resolve_credential, split_repository, InputError};

#[test]
fn flag_wins_over_environment() {
    assert_eq!(
        resolve_credential(Some("flag".to_string()), Some("env".to_string())),
        Ok("flag".to_string())
    );
    assert_eq!(resolve_credential(Some("flag".to_string()), None), Ok("flag".to_string()));
}

#[test]
fn environment_is_the_fallback() {
    assert_eq!(resolve_credential(None, Some("env".to_string())), Ok("env".to_string()));
}

#[test]
fn missing_credential_is_refused() {
    assert_eq!(resolve_credential(None, None), Err(InputError::MissingCredential));
}

#[test]
fn endpoint_default() {
    assert_eq!(endpoint_id(None), "uxrrr-q7777-77774-qaaaq-cai");
    assert_eq!(endpoint_id(Some("abc-cai".to_string())), "abc-cai");
}

#[test]
fn repository_splits_at_first_slash() {
    assert_eq!(split_repository("asha/cards"), Ok(("asha".to_string(), "cards".to_string())));
    assert_eq!(split_repository("a/b/c"), Ok(("a".to_string(), "b/c".to_string())));
    assert_eq!(split_repository("/x"), Ok(("".to_string(), "x".to_string())));
    assert_eq!(split_repository("x/"), Ok(("x".to_string(), "".to_string())));
    assert_eq!(split_repository("é/ü"), Ok(("é".to_string(), "ü".to_string())));
}

#[test]
fn repository_without_slash_is_refused() {
    assert_eq!(split_repository("asha"), Err(InputError::MalformedRepository));
    assert_eq!(split_repository(""), Err(InputError::MalformedRepository));
}
