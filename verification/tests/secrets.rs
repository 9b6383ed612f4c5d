use n8n_supervisor::secret::{
    ensure_encryption_key, ensure_secret, generated_secret, key_account_id, key_from_bytes,
    key_service_id, retrieved_secret, secret_after_lookup, secret_after_offer, secret_for_entry,
    Secret, SecretOrigin, SecretStoreError, KEY_BYTES,
};

fn is_base64_char(c: char) -> bool {
    c.is_ascii_alphanumeric() || c == '+' || c == '/'
}

fn check_outcome(result: Result<Secret, SecretStoreError>) {
    match result {
        Ok(secret) => match secret.origin {
            SecretOrigin::Retrieved => {}
            SecretOrigin::Generated { .. } => {
                assert_eq!(secret.value.len(), 32);
                assert!(secret.value.chars().all(is_base64_char));
            }
        },
        Err(e) => assert_eq!(e, SecretStoreError::EntryUnavailable),
    }
}

#[test]
fn key_length() {
    assert_eq!(KEY_BYTES, 24);
}

#[test]
fn fixed_entry_names() {
    assert_eq!(key_service_id(), "io.n8n.desktop");
    assert_eq!(key_account_id(), "encryption_key");
}

#[test]
fn key_of_zero_bytes() {
    assert_eq!(key_from_bytes(&[0u8; 24]), "AAAAAAAAAAAAAAAAAAAAAAAAAAAAAAAA");
}

#[test]
fn key_of_counting_bytes() {
    let mut bytes = [0u8; 24];
    for (i, b) in bytes.iter_mut().enumerate() {
        *b = i as u8;
    }
    assert_eq!(key_from_bytes(&bytes), "AAECAwQFBgcICQoLDA0ODxAREhMUFRYX");
}

#[test]
fn key_of_high_bytes() {
    assert_eq!(key_from_bytes(&[255u8; 24]), "////////////////////////////////");
}

#[test]
fn stored_value_is_handed_out_verbatim() {
    assert_eq!(
        retrieved_secret(Some("anything at all \u{1F600}".to_string())),
        Some(Secret {
            value: "anything at all \u{1F600}".to_string(),
            origin: SecretOrigin::Retrieved,
        })
    );
    assert_eq!(
        retrieved_secret(Some(String::new())),
        Some(Secret { value: String::new(), origin: SecretOrigin::Retrieved })
    );
}

#[test]
fn nothing_stored_gives_nothing() {
    assert_eq!(retrieved_secret(None), None);
}

#[test]
fn generated_secret_records_persistence() {
    assert_eq!(
        generated_secret("a2V5".to_string(), true),
        Secret { value: "a2V5".to_string(), origin: SecretOrigin::Generated { persisted: true } }
    );
    assert_eq!(
        generated_secret("a2V5".to_string(), false),
        Secret { value: "a2V5".to_string(), origin: SecretOrigin::Generated { persisted: false } }
    );
}

#[test]
fn ensure_secret_hands_out_a_stored_or_a_new_key() {
    check_outcome(ensure_secret("io.n8n.desktop.selftest", "encryption_key"));
}

#[test]
fn ensure_encryption_key_hands_out_a_stored_or_a_new_key() {
    check_outcome(ensure_encryption_key());
}

#[test]
fn second_call_repeats_a_persisted_secret() {
    let first = ensure_secret("io.n8n.desktop.selftest", "repeat");
    let second = ensure_secret("io.n8n.desktop.selftest", "repeat");
    if let (Ok(first), Ok(second)) = (first, second) {
        let kept = first.origin == SecretOrigin::Retrieved
            || first.origin == (SecretOrigin::Generated { persisted: true });
        if kept && second.origin == SecretOrigin::Retrieved {
            assert_eq!(first.value, second.value);
        }
    }
}

#[test]
fn without_an_entry_there_is_no_secret() {
    assert_eq!(
        secret_for_entry(Err(keyring::Error::NoEntry)),
        Err(SecretStoreError::EntryUnavailable)
    );
    assert_eq!(
        secret_for_entry(Err(keyring::Error::TooLong("service".to_string(), 8))),
        Err(SecretStoreError::EntryUnavailable)
    );
}

#[test]
fn with_an_entry_there_is_always_a_secret() {
    if let Ok(entry) = keyring::Entry::new("io.n8n.desktop.selftest", "entry") {
        let result = secret_for_entry(Ok(entry));
        assert!(result.is_ok());
        check_outcome(result);
    }
}

#[test]
fn password_that_was_read_is_the_secret() {
    if let Ok(entry) = keyring::Entry::new("io.n8n.desktop.selftest", "lookup") {
        assert_eq!(
            secret_after_lookup(&entry, Ok("not base64 at all".to_string())),
            Secret { value: "not base64 at all".to_string(), origin: SecretOrigin::Retrieved }
        );
        assert_eq!(
            secret_after_lookup(&entry, Ok(String::new())),
            Secret { value: String::new(), origin: SecretOrigin::Retrieved }
        );
    }
}

#[test]
fn failed_read_makes_a_new_key() {
    if let Ok(entry) = keyring::Entry::new("io.n8n.desktop.selftest", "miss") {
        let first = secret_after_lookup(&entry, Err(keyring::Error::NoEntry));
        assert!(matches!(first.origin, SecretOrigin::Generated { .. }));
        assert_eq!(first.value.len(), 32);
        assert!(first.value.chars().all(is_base64_char));
        let second = secret_after_lookup(&entry, Err(keyring::Error::BadEncoding(vec![255])));
        assert!(matches!(second.origin, SecretOrigin::Generated { .. }));
        assert_eq!(second.value.len(), 32);
        assert_ne!(first.value, second.value);
    }
}

#[test]
fn offer_decides_whether_the_secret_is_persisted() {
    assert_eq!(
        secret_after_offer("a2V5".to_string(), Ok(())),
        Secret { value: "a2V5".to_string(), origin: SecretOrigin::Generated { persisted: true } }
    );
    assert_eq!(
        secret_after_offer("a2V5".to_string(), Err(keyring::Error::NoEntry)),
        Secret { value: "a2V5".to_string(), origin: SecretOrigin::Generated { persisted: false } }
    );
}
