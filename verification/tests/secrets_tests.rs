use rufendec::config::{Command, FileOptions, HashMode, Mode, Operation};
use rufendec::secrets::{
    clear_keys, derive_key, finalize_keys, generate_keys, parse_credentials, plan_credentials,
    verify_keys_cleared, CredentialError, CredentialPlan, KeyError, KeyStore, Secrets,
};

fn b(s: &str) -> Vec<u8> {
    s.as_bytes().to_vec()
}

#[test]
fn pbkdf2_known_vector() {
    // PBKDF2-HMAC-SHA256("password", "salt", 1 round), first 32 bytes
    let expected: [u8; 32] = [
        0x12, 0x0f, 0xb6, 0xcf, 0xfc, 0xf8, 0xb3, 0x2c, 0x43, 0xe7, 0x22, 0x52, 0x56, 0xc4,
        0xf8, 0x37, 0xa8, 0x65, 0x48, 0xc9, 0x2c, 0xcc, 0x35, 0x48, 0x08, 0x05, 0x98, 0x7c,
        0xb7, 0x0b, 0xe1, 0x7b,
    ];
    let k = derive_key(&b("password"), &b("salt"), HashMode::PBKDF2, 1).unwrap();
    assert_eq!(k.as_slice(), expected.as_slice());
}

#[test]
fn pbkdf2_accepts_any_salt() {
    let k = derive_key(&b("pw"), &b("s"), HashMode::PBKDF2, 10).unwrap();
    assert_eq!(k.len(), 32);
}

#[test]
fn argon2_derives_deterministically() {
    let k1 = derive_key(&b("pw"), &b("saltsalt"), HashMode::Argon2, 2).unwrap();
    let k2 = derive_key(&b("pw"), &b("saltsalt"), HashMode::Argon2, 2).unwrap();
    assert_eq!(k1, k2);
    assert_eq!(k1.len(), 32);
    let other = derive_key(&b("pw"), &b("saltsal2"), HashMode::Argon2, 2).unwrap();
    assert_ne!(k1, other);
}

#[test]
fn argon2_rejects_short_salt() {
    assert_eq!(
        derive_key(&b("pw"), &b("salt"), HashMode::Argon2, 10),
        Err(KeyError::SaltTooShort)
    );
}

#[test]
fn argon2_rejects_zero_iterations() {
    assert_eq!(
        derive_key(&b("pw"), &b("saltsalt"), HashMode::Argon2, 0),
        Err(KeyError::ParamsRejected)
    );
}

#[test]
fn keystore_clears_on_every_path() {
    let mut store = KeyStore::new();
    assert!(verify_keys_cleared(&store, Mode::ECB));
    assert!(verify_keys_cleared(&store, Mode::GCM));

    generate_keys(&mut store, &b("pw"), &b("saltsalt"), HashMode::PBKDF2, 10, Mode::GCM)
        .unwrap();
    assert!(store.has_key(Mode::GCM));
    assert!(!store.has_key(Mode::ECB));

    clear_keys(&mut store);
    assert!(verify_keys_cleared(&store, Mode::ECB));
    assert!(verify_keys_cleared(&store, Mode::GCM));

    // clearing an already-empty store is fine
    clear_keys(&mut store);
    assert!(verify_keys_cleared(&store, Mode::GCM));
}

#[test]
fn keystore_finalize_verifies_both_modes() {
    let mut store = KeyStore::new();
    generate_keys(&mut store, &b("pw"), &b("saltsalt"), HashMode::PBKDF2, 10, Mode::ECB)
        .unwrap();
    generate_keys(&mut store, &b("pw2"), &b("saltsalt"), HashMode::PBKDF2, 10, Mode::GCM)
        .unwrap();
    assert!(finalize_keys(&mut store, Mode::GCM));
    assert!(verify_keys_cleared(&store, Mode::ECB));
    assert!(verify_keys_cleared(&store, Mode::GCM));
}

#[test]
fn keystore_install_replaces_prior_key() {
    let mut store = KeyStore::new();
    generate_keys(&mut store, &b("one"), &b("saltsalt"), HashMode::PBKDF2, 10, Mode::GCM)
        .unwrap();
    let first = store.key_for(Mode::GCM).clone();
    generate_keys(&mut store, &b("two"), &b("saltsalt"), HashMode::PBKDF2, 10, Mode::GCM)
        .unwrap();
    let second = store.key_for(Mode::GCM).clone();
    assert_ne!(first, second);
}

#[test]
fn generate_keys_error_leaves_store_untouched() {
    let mut store = KeyStore::new();
    let r = generate_keys(&mut store, &b("pw"), &b("x"), HashMode::Argon2, 10, Mode::GCM);
    assert_eq!(r, Err(KeyError::SaltTooShort));
    assert!(verify_keys_cleared(&store, Mode::GCM));
}

#[test]
fn credentials_parse_password_then_salt() {
    assert_eq!(
        parse_credentials(&b("secretpw\nsaltsalt\n")),
        Ok((b("secretpw"), b("saltsalt")))
    );
    // surrounding whitespace and carriage returns are tolerated
    assert_eq!(
        parse_credentials(&b("  secretpw\r\nsaltsalt  \n")),
        Ok((b("secretpw"), b("saltsalt")))
    );
    // extra lines beyond the second are ignored
    assert_eq!(
        parse_credentials(&b("pw\nsalt\ncomment")),
        Ok((b("pw"), b("salt")))
    );
}

#[test]
fn credentials_missing_parts_are_named() {
    assert_eq!(parse_credentials(&b("")), Err(CredentialError::PasswordMissing));
    assert_eq!(parse_credentials(&b("   \n  ")), Err(CredentialError::PasswordMissing));
    assert_eq!(parse_credentials(&b("onlypassword")), Err(CredentialError::SaltMissing));
}

#[test]
fn credential_plan_precedence() {
    // a readable password file wins
    let plan = plan_credentials(&Some(b("pw\nsalt")), false, true, &None, &None);
    match plan {
        CredentialPlan::Use { password, salt } => {
            assert_eq!(password, b("pw"));
            assert_eq!(salt, b("salt"));
        },
        _ => panic!("expected credentials from the file"),
    }
    // a directory run without a file prompts
    assert!(matches!(plan_credentials(&None, true, false, &None, &None), CredentialPlan::Prompt));
    // a file run with the terminal free and nothing passed in prompts
    assert!(matches!(plan_credentials(&None, false, false, &None, &None), CredentialPlan::Prompt));
    // a suppressed terminal needs both credentials in hand
    assert!(matches!(
        plan_credentials(&None, false, true, &None, &Some(b("salt"))),
        CredentialPlan::Fail(CredentialError::PasswordMissing)
    ));
    assert!(matches!(
        plan_credentials(&None, false, true, &Some(b("pw")), &None),
        CredentialPlan::Fail(CredentialError::SaltMissing)
    ));
    match plan_credentials(&None, false, true, &Some(b("pw")), &Some(b("salt"))) {
        CredentialPlan::Use { password, salt } => {
            assert_eq!(password, b("pw"));
            assert_eq!(salt, b("salt"));
        },
        _ => panic!("expected the passed-in credentials"),
    }
}

#[test]
fn credential_file_with_bad_content_fails_the_plan() {
    assert!(matches!(
        plan_credentials(&Some(b("")), true, false, &None, &None),
        CredentialPlan::Fail(CredentialError::PasswordMissing)
    ));
    assert!(matches!(
        plan_credentials(&Some(b("pwonly")), true, false, &None, &None),
        CredentialPlan::Fail(CredentialError::SaltMissing)
    ));
}

#[test]
fn secrets_gathered_from_a_file_command() {
    let command = Command::File(FileOptions {
        source_file: "src/a.txt".to_owned(),
        target_dir: None,
        password_file: None,
        skip_passwd_file_search: true,
        passwd: Some("pw".to_owned()),
        salt: Some("saltsalt".to_owned()),
        operation: Operation::Encrypt,
        mode: Mode::ECB,
        delete_src: false,
        hash_with: HashMode::PBKDF2,
        iterations: 7,
        suppress_terminal: true,
        verbose: false,
        dry_run: false,
        anon: false,
        shred: None,
    });
    let s = Secrets::from_command(&command);
    assert_eq!(s.password_file, "");
    assert_eq!(s.passwd.as_deref(), Some("pw"));
    assert_eq!(s.salt.as_deref(), Some("saltsalt"));
    assert_eq!(s.mode, Mode::ECB);
    assert!(s.suppress_terminal);
    assert!(s.skip_passwd_file_search);
    assert_eq!(s.iterations, 7);
    assert_eq!(s.hash_with, HashMode::PBKDF2);
}
