use rufendec::collect::Collector;
use rufendec::config::{
    parse_hash_mode, parse_mode, parse_operation, terminal_suppress, terminal_supress,
    validate_options, Command, DirOptions, EncryptionOptions, FileOptions, HashMode, Mode,
    Operation, OptionsError,
};
use rufendec::log::LogLevel;
use rufendec::paths::pre_validate_source;
use rufendec::pipeline::{process_file, tally_outcomes, DisposalAction, FileOutcome};
use rufendec::secrets::{finalize_keys, generate_keys, verify_keys_cleared, KeyStore};
use std::cell::Cell;

fn b(s: &str) -> Vec<u8> {
    s.as_bytes().to_vec()
}

/// A directory tree `src/{a.txt, sub/b.txt}` encrypted to `dst` in GCM
/// mode, then decrypted to `restored`: the relative paths and the byte
/// contents come back unchanged, everything counts as a success, and the
/// key store ends verified clear.
#[test]
fn gcm_tree_round_trip() {
    let files = vec![b("src/a.txt"), b("src/sub/b.txt")];
    let contents = vec![b("12345"), b("0123456789")];

    assert_eq!(pre_validate_source(&b("src"), Operation::Encrypt, &files), Ok(()));

    let mut store = KeyStore::new();
    generate_keys(&mut store, &b("pw"), &b("saltsalt"), HashMode::PBKDF2, 10, Mode::GCM)
        .unwrap();

    let mut outcomes = Vec::new();
    let mut written: Vec<(Vec<u8>, Vec<u8>)> = Vec::new();
    for (path, data) in files.iter().zip(contents.iter()) {
        let r = process_file(
            Some(data.clone()),
            path,
            &b("src"),
            &b("dst"),
            Operation::Encrypt,
            Mode::GCM,
            store.key_for(Mode::GCM),
            false,
            &None,
            None,
            false,
        );
        assert_eq!(r.outcome, FileOutcome::Succeeded);
        // the source files stay untouched
        assert_eq!(r.disposal, DisposalAction::Keep);
        let w = r.write.unwrap();
        written.push((w.path, w.data));
        outcomes.push(r.outcome);
    }

    assert_eq!(written[0].0, b("dst/a.txt.enom"));
    assert_eq!(written[1].0, b("dst/sub/b.txt.enom"));

    let c = tally_outcomes(&outcomes);
    assert_eq!((c.success, c.failed), (2, 0));

    // decrypt what was produced, into a third root
    let mut restored: Vec<(Vec<u8>, Vec<u8>)> = Vec::new();
    for (path, data) in &written {
        let r = process_file(
            Some(data.clone()),
            path,
            &b("dst"),
            &b("restored"),
            Operation::Decrypt,
            Mode::GCM,
            store.key_for(Mode::GCM),
            false,
            &None,
            None,
            false,
        );
        assert_eq!(r.outcome, FileOutcome::Succeeded);
        let w = r.write.unwrap();
        restored.push((w.path, w.data));
    }

    assert_eq!(restored[0].0, b("restored/a.txt"));
    assert_eq!(restored[0].1, contents[0]);
    assert_eq!(restored[1].0, b("restored/sub/b.txt"));
    assert_eq!(restored[1].1, contents[1]);

    assert!(finalize_keys(&mut store, Mode::GCM));
    assert!(verify_keys_cleared(&store, Mode::ECB));
    assert!(verify_keys_cleared(&store, Mode::GCM));
}

/// The same tree through ECB mode: contents reproduce under the correct
/// key; the mode simply has no failure signal to test.
#[test]
fn ecb_tree_round_trip() {
    let mut store = KeyStore::new();
    generate_keys(&mut store, &b("pw"), &b("saltsalt"), HashMode::Argon2, 2, Mode::ECB)
        .unwrap();
    let msg = b("block cipher payload");
    let enc = process_file(
        Some(msg.clone()),
        &b("src/f"),
        &b("src"),
        &b("dst"),
        Operation::Encrypt,
        Mode::ECB,
        store.key_for(Mode::ECB),
        false,
        &None,
        None,
        false,
    );
    let w = enc.write.unwrap();
    assert_eq!(w.path, b("dst/f.enom"));
    let dec = process_file(
        Some(w.data),
        &w.path,
        &b("dst"),
        &b("restored"),
        Operation::Decrypt,
        Mode::ECB,
        store.key_for(Mode::ECB),
        false,
        &None,
        None,
        false,
    );
    assert_eq!(dec.outcome, FileOutcome::Succeeded);
    let w = dec.write.unwrap();
    assert_eq!(w.path, b("restored/f"));
    assert_eq!(w.data, msg);
    assert!(finalize_keys(&mut store, Mode::ECB));
}

#[test]
fn collector_keeps_order_and_size() {
    let mut c = Collector::new(b("src"));
    assert_eq!(c.dir_count(), 1);
    c.record_dir(b("src/sub"));
    c.record_file(b("src/a.txt"), 5);
    c.record_file(b("src/sub/b.txt"), 10);
    assert_eq!(c.dir_count(), 2);
    assert_eq!(c.file_count(), 2);
    assert_eq!(c.total_size(), 15);
    assert_eq!(c.dirs()[0], b("src"));
    assert_eq!(c.files()[1], b("src/sub/b.txt"));
}

#[test]
fn collector_total_saturates() {
    let mut c = Collector::new(b("src"));
    c.record_file(b("src/big"), u64::MAX);
    c.record_file(b("src/more"), 17);
    assert_eq!(c.total_size(), u64::MAX);
}

#[test]
fn option_strings_parse() {
    assert_eq!(parse_operation(&"encrypt".to_owned()), Some(Operation::Encrypt));
    assert_eq!(parse_operation(&"decrypt".to_owned()), Some(Operation::Decrypt));
    assert_eq!(parse_operation(&"other".to_owned()), None);
    assert_eq!(parse_mode(&"ecb".to_owned()), Some(Mode::ECB));
    assert_eq!(parse_mode(&"gcm".to_owned()), Some(Mode::GCM));
    assert_eq!(parse_mode(&"cbc".to_owned()), None);
    assert_eq!(parse_hash_mode(&"pbkdf2".to_owned()), HashMode::PBKDF2);
    assert_eq!(parse_hash_mode(&"argon2".to_owned()), HashMode::Argon2);
    assert_eq!(parse_hash_mode(&"anything".to_owned()), HashMode::Argon2);
}

fn gui_options(operation: &str, mode: &str, hash_with: &str) -> EncryptionOptions {
    EncryptionOptions {
        source_path: "src".to_owned(),
        target_path: None,
        password: "pw".to_owned(),
        salt: "saltsalt".to_owned(),
        operation: operation.to_owned(),
        mode: mode.to_owned(),
        hash_with: hash_with.to_owned(),
        iterations: 10,
        threads: 8,
        delete_src: false,
        anon: false,
        dry_run: false,
        verbose: false,
    }
}

#[test]
fn gui_option_validation() {
    assert_eq!(
        validate_options(&gui_options("encrypt", "gcm", "argon2")),
        Ok((Operation::Encrypt, Mode::GCM, HashMode::Argon2))
    );
    assert_eq!(
        validate_options(&gui_options("decrypt", "ecb", "pbkdf2")),
        Ok((Operation::Decrypt, Mode::ECB, HashMode::PBKDF2))
    );
    // an unrecognized KDF falls back to Argon2id
    assert_eq!(
        validate_options(&gui_options("encrypt", "gcm", "whirlpool")),
        Ok((Operation::Encrypt, Mode::GCM, HashMode::Argon2))
    );
    assert_eq!(
        validate_options(&gui_options("compress", "gcm", "argon2")),
        Err(OptionsError::InvalidOperation)
    );
    assert_eq!(
        validate_options(&gui_options("encrypt", "cbc", "argon2")),
        Err(OptionsError::InvalidMode)
    );
}

#[test]
fn display_names() {
    assert_eq!(Operation::Encrypt.to_str(), "Encrypt");
    assert_eq!(Operation::Decrypt.to_str(), "Decrypt");
    assert_eq!(Mode::ECB.to_str(), "ECB");
    assert_eq!(Mode::GCM.to_str(), "GCM");
    assert_eq!(LogLevel::INFO.to_str(), "INFO");
    assert_eq!(LogLevel::ERROR.to_str(), "ERROR");
    assert_eq!(LogLevel::WARN.to_str(), "WARN");
}

fn dir_command() -> Command {
    Command::Dir(DirOptions {
        source_dir: "src".to_owned(),
        target_dir: None,
        password_file: None,
        skip_passwd_file_search: false,
        operation: Operation::Encrypt,
        mode: Mode::GCM,
        delete_src: false,
        threads: 8,
        hash_with: HashMode::Argon2,
        iterations: 10,
        verbose: false,
        dry_run: false,
        anon: false,
        shred: None,
    })
}

fn file_command(suppress: bool) -> Command {
    Command::File(FileOptions {
        source_file: "src/a.txt".to_owned(),
        target_dir: None,
        password_file: None,
        skip_passwd_file_search: false,
        passwd: None,
        salt: None,
        operation: Operation::Encrypt,
        mode: Mode::GCM,
        delete_src: false,
        hash_with: HashMode::Argon2,
        iterations: 10,
        suppress_terminal: suppress,
        verbose: false,
        dry_run: false,
        anon: false,
        shred: None,
    })
}

#[test]
fn terminal_suppression_gates_output() {
    let ran = Cell::new(0u32);
    terminal_supress(&dir_command(), || ran.set(ran.get() + 1));
    assert_eq!(ran.get(), 1);
    terminal_suppress(&file_command(false), || ran.set(ran.get() + 1));
    assert_eq!(ran.get(), 2);
    terminal_suppress(&file_command(true), || ran.set(ran.get() + 1));
    assert_eq!(ran.get(), 2);
    terminal_supress(&file_command(true), || ran.set(ran.get() + 1));
    assert_eq!(ran.get(), 2);
}
