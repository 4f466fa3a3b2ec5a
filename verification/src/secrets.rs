//! Key derivation and the key store.
//!
//! A password and salt are turned into a 256-bit cipher key by Argon2id or
//! PBKDF2-HMAC-SHA256.  The key lives in a caller-owned `KeyStore` with one
//! slot per cipher mode; every exit path of a run clears the store, and
//! `verify_keys_cleared` checks that nothing is left.  Credential text read
//! from a password file is parsed here too: first line password, second
//! line salt.

use vstd::prelude::*;
use zeroize::Zeroize;
use crate::config::{HashMode, Mode};
use crate::paths::bytes_range;

verus! {

/// The 32-byte key that PBKDF2-HMAC-SHA256 derives from a password, a salt
/// and a round count.
pub uninterp spec fn pbkdf2_key_of(password: Seq<u8>, salt: Seq<u8>, rounds: u32) -> Seq<u8>;

/// The 32-byte key that Argon2id (version 0x13, parallelism 4, default
/// memory cost) derives from a password, a salt and a time cost.
pub uninterp spec fn argon2_key_of(password: Seq<u8>, salt: Seq<u8>, t_cost: u32) -> Seq<u8>;

/// Why key derivation failed.
#[derive(Clone, Copy, Debug, PartialEq, Eq, Structural)]
pub enum KeyError {
    /// The KDF parameters could not be built (a zero iteration count).
    ParamsRejected,
    /// The salt is shorter than the KDF's minimum of 8 bytes.
    SaltTooShort,
    /// The KDF rejected the inputs for another reason.
    DerivationFailed,
}

/// Relies on pbkdf2's `pbkdf2_hmac_array` with SHA-256: derives exactly 32
/// bytes from the password, salt and round count alone; it cannot fail.
/// The local copy of the key is zeroized before returning.
#[verifier::external_body]
fn pbkdf2_derive(password: &Vec<u8>, salt: &Vec<u8>, rounds: u32) -> (r: Vec<u8>)
    ensures
        r@ == pbkdf2_key_of(password@, salt@, rounds),
        r@.len() == 32,
{
    let mut key = pbkdf2::pbkdf2_hmac_array::<sha2::Sha256, 32>(
        password.as_slice(),
        salt.as_slice(),
        rounds,
    );
    let out = key.to_vec();
    key.zeroize();
    out
}

/// Relies on argon2's `Argon2::hash_password_into` (Argon2id, version 0x13,
/// parallelism 4, time cost as given): parameter building fails exactly for
/// a zero time cost, hashing rejects a salt under 8 bytes, and a success
/// yields the 32 bytes determined by password, salt and time cost alone.
/// The KDF checks its password-length bound (2^32 - 1 bytes) before the
/// salt, so the short-salt error is only promised under that bound; with a
/// valid time cost and salt, any remaining failure (an extreme length, or
/// the KDF's own memory allocation) comes back as `DerivationFailed`.
/// The local copy of the key is zeroized before returning.
#[verifier::external_body]
fn argon2_derive(password: &Vec<u8>, salt: &Vec<u8>, t_cost: u32) -> (r: Result<Vec<u8>, KeyError>)
    ensures
        t_cost == 0 ==> r is Err && r->Err_0 == KeyError::ParamsRejected,
        t_cost >= 1 && salt@.len() < 8 && password@.len() < 0x1_0000_0000 ==> r is Err && r->Err_0 == KeyError::SaltTooShort,
        t_cost >= 1 && salt@.len() >= 8 ==> (r matches Err(e) ==> e == KeyError::DerivationFailed),
        r matches Ok(k) ==> k@ == argon2_key_of(password@, salt@, t_cost) && k@.len() == 32 && salt@.len() >= 8,
{
    let mut builder = argon2::ParamsBuilder::new();
    let params = match builder.t_cost(t_cost).p_cost(4).build() {
        Ok(p) => p,
        Err(_) => return Err(KeyError::ParamsRejected),
    };
    let ctx = argon2::Argon2::new(argon2::Algorithm::Argon2id, argon2::Version::V0x13, params);
    let mut key = [0u8; 32];
    let outcome = ctx.hash_password_into(password.as_slice(), salt.as_slice(), &mut key);
    let r = match outcome {
        Ok(()) => Ok(key.to_vec()),
        Err(argon2::Error::SaltTooShort) => Err(KeyError::SaltTooShort),
        Err(_) => Err(KeyError::DerivationFailed),
    };
    key.zeroize();
    r
}

/// Relies on zeroize's `Zeroize` for `Vec<u8>`: overwrites the contents and
/// the spare capacity with zeroes, then leaves the vector empty.
#[verifier::external_body]
fn wipe_bytes(buf: &mut Vec<u8>)
    ensures
        final(buf)@.len() == 0,
{
    buf.zeroize();
}

/// The key the chosen KDF derives from these inputs.
pub open spec fn derived_key_spec(
    hash_with: HashMode,
    password: Seq<u8>,
    salt: Seq<u8>,
    iterations: u32,
) -> Seq<u8> {
    match hash_with {
        HashMode::PBKDF2 => pbkdf2_key_of(password, salt, iterations),
        HashMode::Argon2 => argon2_key_of(password, salt, iterations),
    }
}

/// Derives the 256-bit cipher key.  PBKDF2 succeeds on every input; the
/// Argon2id path reports a zero iteration count and a short salt as
/// recoverable errors.
pub fn derive_key(
    password: &Vec<u8>,
    salt: &Vec<u8>,
    hash_with: HashMode,
    iterations: u32,
) -> (r: Result<Vec<u8>, KeyError>)
    ensures
        r matches Ok(k) ==> k@ == derived_key_spec(hash_with, password@, salt@, iterations)
            && k@.len() == 32,
        hash_with == HashMode::PBKDF2 ==> r is Ok,
        hash_with == HashMode::Argon2 && iterations == 0 ==> r is Err && r->Err_0 == KeyError::ParamsRejected,
        hash_with == HashMode::Argon2 && iterations >= 1 && salt@.len() < 8 && password@.len()
            < 0x1_0000_0000 ==> r is Err && r->Err_0 == KeyError::SaltTooShort,
        hash_with == HashMode::Argon2 && iterations >= 1 && salt@.len() >= 8 ==> (r matches Err(e)
            ==> e == KeyError::DerivationFailed),
{
    match hash_with {
        HashMode::PBKDF2 => Ok(pbkdf2_derive(password, salt, iterations)),
        HashMode::Argon2 => argon2_derive(password, salt, iterations),
    }
}

/// Holds at most one derived key per cipher mode.  The store is owned by
/// the caller for the duration of one run; clearing it zeroizes and empties
/// both slots.
pub struct KeyStore {
    ecb: Vec<u8>,
    gcm: Vec<u8>,
}

impl KeyStore {
    /// The bytes currently held for `mode`; empty when no key is installed.
    pub closed spec fn slot(&self, mode: Mode) -> Seq<u8> {
        match mode {
            Mode::ECB => self.ecb@,
            Mode::GCM => self.gcm@,
        }
    }

    /// True when no key is held for `mode`.
    pub open spec fn cleared(&self, mode: Mode) -> bool {
        self.slot(mode).len() == 0
    }

    /// Every slot is either empty or holds a full 32-byte key.
    pub open spec fn wf(&self) -> bool {
        &&& (self.slot(Mode::ECB).len() == 0 || self.slot(Mode::ECB).len() == 32)
        &&& (self.slot(Mode::GCM).len() == 0 || self.slot(Mode::GCM).len() == 32)
    }

    /// A store with both slots empty.
    pub fn new() -> (s: KeyStore)
        ensures
            s.cleared(Mode::ECB),
            s.cleared(Mode::GCM),
            s.wf(),
    {
        KeyStore { ecb: Vec::new(), gcm: Vec::new() }
    }

    /// Installs `key` as the one key for `mode`, zeroizing whatever the
    /// slot held before.  The other mode's slot is untouched.
    pub fn install(&mut self, mode: Mode, key: Vec<u8>)
        requires
            old(self).wf(),
            key@.len() == 32,
        ensures
            final(self).wf(),
            final(self).slot(mode) == key@,
            mode == Mode::ECB ==> final(self).slot(Mode::GCM) == old(self).slot(Mode::GCM),
            mode == Mode::GCM ==> final(self).slot(Mode::ECB) == old(self).slot(Mode::ECB),
    {
        match mode {
            Mode::ECB => {
                wipe_bytes(&mut self.ecb);
                self.ecb = key;
            },
            Mode::GCM => {
                wipe_bytes(&mut self.gcm);
                self.gcm = key;
            },
        }
    }

    /// The key installed for `mode`.
    pub fn key_for(&self, mode: Mode) -> (r: &Vec<u8>)
        requires
            !self.cleared(mode),
        ensures
            r@ == self.slot(mode),
    {
        match mode {
            Mode::ECB => &self.ecb,
            Mode::GCM => &self.gcm,
        }
    }

    /// True when a key is installed for `mode`.
    pub fn has_key(&self, mode: Mode) -> (r: bool)
        ensures
            r == !self.cleared(mode),
    {
        match mode {
            Mode::ECB => self.ecb.len() > 0,
            Mode::GCM => self.gcm.len() > 0,
        }
    }
}

/// Zeroizes and empties both key slots.  Safe to call at any time, with or
/// without installed keys.
pub fn clear_keys(store: &mut KeyStore)
    ensures
        final(store).cleared(Mode::ECB),
        final(store).cleared(Mode::GCM),
        final(store).wf(),
{
    wipe_bytes(&mut store.ecb);
    wipe_bytes(&mut store.gcm);
}

/// True when no key is left in the slot for `mode`.  Checked after every
/// run; a `false` here is a defect, never a user error.
pub fn verify_keys_cleared(store: &KeyStore, mode: Mode) -> (r: bool)
    ensures
        r == store.cleared(mode),
{
    match mode {
        Mode::ECB => store.ecb.len() == 0,
        Mode::GCM => store.gcm.len() == 0,
    }
}

/// Closes a run's key lifecycle: clears the store and verifies the result.
/// The verification provably succeeds — after any run, successful or not,
/// no key bytes remain in either slot.
pub fn finalize_keys(store: &mut KeyStore, mode: Mode) -> (verified: bool)
    ensures
        verified,
        final(store).cleared(Mode::ECB),
        final(store).cleared(Mode::GCM),
{
    clear_keys(store);
    verify_keys_cleared(store, mode) && verify_keys_cleared(
        store,
        match mode {
            Mode::ECB => Mode::GCM,
            Mode::GCM => Mode::ECB,
        },
    )
}

/// Derives the key for `mode` and installs it in the store, replacing any
/// key a prior run may have left there.  On failure the store is unchanged;
/// the caller is expected to clear it before surfacing the error.
pub fn generate_keys(
    store: &mut KeyStore,
    password: &Vec<u8>,
    salt: &Vec<u8>,
    hash_with: HashMode,
    iterations: u32,
    mode: Mode,
) -> (r: Result<(), KeyError>)
    requires
        old(store).wf(),
    ensures
        final(store).wf(),
        r matches Ok(()) ==> final(store).slot(mode) == derived_key_spec(
            hash_with,
            password@,
            salt@,
            iterations,
        ) && final(store).slot(mode).len() == 32,
        r is Err ==> *final(store) == *old(store),
        hash_with == HashMode::PBKDF2 ==> r is Ok,
        hash_with == HashMode::Argon2 && iterations == 0 ==> r is Err && r->Err_0 == KeyError::ParamsRejected,
        hash_with == HashMode::Argon2 && iterations >= 1 && salt@.len() < 8 && password@.len()
            < 0x1_0000_0000 ==> r is Err && r->Err_0 == KeyError::SaltTooShort,
        hash_with == HashMode::Argon2 && iterations >= 1 && salt@.len() >= 8 ==> (r matches Err(e)
            ==> e == KeyError::DerivationFailed),
{
    match derive_key(password, salt, hash_with, iterations) {
        Ok(key) => {
            store.install(mode, key);
            Ok(())
        },
        Err(e) => Err(e),
    }
}

/// ASCII whitespace: space, tab, line feed, vertical tab, form feed,
/// carriage return.
pub open spec fn is_space(b: u8) -> bool {
    b == 32 || (9 <= b && b <= 13)
}

/// `s` without leading whitespace.
pub open spec fn trim_start_seq(s: Seq<u8>) -> Seq<u8>
    decreases s.len(),
{
    if s.len() > 0 && is_space(s[0]) {
        trim_start_seq(s.skip(1))
    } else {
        s
    }
}

/// `s` without trailing whitespace.
pub open spec fn trim_end_seq(s: Seq<u8>) -> Seq<u8>
    decreases s.len(),
{
    if s.len() > 0 && is_space(s[s.len() - 1]) {
        trim_end_seq(s.drop_last())
    } else {
        s
    }
}

/// `s` without leading or trailing whitespace.
pub open spec fn trimmed(s: Seq<u8>) -> Seq<u8> {
    trim_end_seq(trim_start_seq(s))
}

/// The index of the first line feed in `s`, or `s.len()` when there is
/// none.
pub open spec fn first_nl(s: Seq<u8>) -> int
    decreases s.len(),
{
    if s.len() == 0 {
        0
    } else if s[0] == 10 {
        0
    } else {
        1 + first_nl(s.skip(1))
    }
}

proof fn lemma_first_nl_at(s: Seq<u8>, i: int)
    requires
        0 <= i <= s.len(),
        forall|j: int| 0 <= j < i ==> s[j] != 10,
        i < s.len() ==> s[i] == 10,
    ensures
        first_nl(s) == i,
    decreases i,
{
    if i == 0 {
    } else {
        assert(s.len() > 0 && s[0] != 10);
        let rest = s.skip(1);
        assert forall|j: int| 0 <= j < i - 1 implies rest[j] != 10 by {
            assert(rest[j] == s[j + 1]);
        }
        assert(i - 1 < rest.len() ==> rest[i - 1] == s[i as int]);
        lemma_first_nl_at(rest, i - 1);
    }
}

/// The first line of `s`: everything before the first line feed, with a
/// trailing carriage return stripped.
pub open spec fn line_of(s: Seq<u8>) -> Seq<u8> {
    let l = s.take(first_nl(s));
    if l.len() > 0 && l[l.len() - 1] == 13 {
        l.drop_last()
    } else {
        l
    }
}

/// What a credential text failed to provide.
#[derive(Clone, Copy, Debug, PartialEq, Eq, Structural)]
pub enum CredentialError {
    /// The text holds no first line: a password was expected.
    PasswordMissing,
    /// The text holds no second line: a salt was expected.
    SaltMissing,
}

/// The password and salt that a credential text yields: after trimming,
/// the first line is the password and the second the salt.  An empty text
/// lacks the password; a single line lacks the salt.
pub open spec fn parse_credentials_spec(content: Seq<u8>) -> Result<
    (Seq<u8>, Seq<u8>),
    CredentialError,
> {
    let t = trimmed(content);
    if t.len() == 0 {
        Err(CredentialError::PasswordMissing)
    } else if first_nl(t) == t.len() {
        Err(CredentialError::SaltMissing)
    } else {
        Ok((line_of(t), line_of(t.skip(first_nl(t) + 1))))
    }
}

/// True when `b` is ASCII whitespace.
fn is_space_byte(b: u8) -> (r: bool)
    ensures
        r == is_space(b),
{
    b == 32 || (9 <= b && b <= 13)
}

/// A copy of `s` without leading or trailing ASCII whitespace.
pub fn trim_bytes(s: &Vec<u8>) -> (r: Vec<u8>)
    ensures
        r@ == trimmed(s@),
{
    let mut a: usize = 0;
    proof {
        assert(s@.skip(0) =~= s@);
    }
    while a < s.len() && is_space_byte(s[a])
        invariant
            a <= s@.len(),
            trim_start_seq(s@) == trim_start_seq(s@.skip(a as int)),
        decreases s@.len() - a,
    {
        proof {
            let t = s@.skip(a as int);
            assert(t[0] == s@[a as int]);
            assert(t.skip(1) =~= s@.skip(a + 1));
        }
        a += 1;
    }
    proof {
        let t = s@.skip(a as int);
        if a < s@.len() {
            assert(t[0] == s@[a as int]);
        }
        assert(trim_start_seq(s@) == t);
    }
    let mut b: usize = s.len();
    proof {
        assert(s@.subrange(a as int, s@.len() as int) =~= s@.skip(a as int));
    }
    while b > a && is_space_byte(s[b - 1])
        invariant
            a <= b <= s@.len(),
            trim_end_seq(s@.skip(a as int)) == trim_end_seq(s@.subrange(a as int, b as int)),
        decreases b,
    {
        proof {
            let t = s@.subrange(a as int, b as int);
            assert(t[t.len() - 1] == s@[b - 1]);
            assert(t.drop_last() =~= s@.subrange(a as int, b - 1));
        }
        b -= 1;
    }
    proof {
        let t = s@.subrange(a as int, b as int);
        if b > a {
            assert(t[t.len() - 1] == s@[b - 1]);
        }
        assert(trim_end_seq(s@.skip(a as int)) == t);
    }
    bytes_range(s, a, b)
}

/// The index of the first line feed in `s`, or `s.len()` when none occurs.
pub fn find_nl(s: &Vec<u8>) -> (k: usize)
    ensures
        k == first_nl(s@),
        k <= s@.len(),
{
    let mut i: usize = 0;
    while i < s.len()
        invariant
            i <= s@.len(),
            forall|j: int| 0 <= j < i ==> s@[j] != 10,
        decreases s@.len() - i,
    {
        if s[i] == 10 {
            proof {
                lemma_first_nl_at(s@, i as int);
            }
            return i;
        }
        i += 1;
    }
    proof {
        lemma_first_nl_at(s@, s@.len() as int);
    }
    i
}

/// The first line of `s`, starting at `from`: up to the next line feed,
/// with a trailing carriage return stripped.
fn read_line(s: &Vec<u8>, from: usize) -> (r: Vec<u8>)
    requires
        from <= s@.len(),
    ensures
        r@ == line_of(s@.skip(from as int)),
{
    let rest = bytes_range(s, from, s.len());
    let k = find_nl(&rest);
    let mut line = bytes_range(&rest, 0, k);
    proof {
        assert(line@ =~= rest@.take(first_nl(rest@)));
    }
    if line.len() > 0 && line[line.len() - 1] == 13 {
        let n = line.len() - 1;
        line.truncate(n);
        proof {
            assert(line@ =~= rest@.take(first_nl(rest@)).drop_last());
        }
    }
    line
}

/// Parses a credential text: after trimming, the first line is the
/// password and the second the salt.  Says exactly which of the two is
/// missing otherwise.
pub fn parse_credentials(content: &Vec<u8>) -> (r: Result<(Vec<u8>, Vec<u8>), CredentialError>)
    ensures
        r matches Ok(c) ==> parse_credentials_spec(content@) matches Ok(sc) && c.0@ == sc.0
            && c.1@ == sc.1,
        r matches Err(e) ==> parse_credentials_spec(content@) matches Err(se) && e == se,
{
    let t = trim_bytes(content);
    if t.len() == 0 {
        return Err(CredentialError::PasswordMissing);
    }
    let k = find_nl(&t);
    if k == t.len() {
        return Err(CredentialError::SaltMissing);
    }
    proof {
        assert(t@.skip(0) =~= t@);
    }
    let password = read_line(&t, 0);
    let salt = read_line(&t, k + 1);
    Ok((password, salt))
}

/// Where a run's password and salt come from.
#[derive(Debug, Clone)]
pub enum CredentialPlan {
    /// Both credentials are in hand.
    Use { password: Vec<u8>, salt: Vec<u8> },
    /// The user must be prompted interactively.
    Prompt,
    /// The run cannot proceed: a required credential is missing.
    Fail(CredentialError),
}

/// Decides where the credentials of a run come from, mirroring the
/// engine's precedence: a readable password file always wins and must
/// parse; otherwise a directory run prompts, and a file run prompts only
/// when the terminal is available and neither credential was passed in.
/// A file run with a suppressed terminal (or with a credential passed in)
/// must carry both credentials.
pub fn plan_credentials(
    file_content: &Option<Vec<u8>>,
    is_dir_command: bool,
    suppress_terminal: bool,
    passwd: &Option<Vec<u8>>,
    salt: &Option<Vec<u8>>,
) -> (r: CredentialPlan)
    ensures
        match file_content {
            Some(content) => match parse_credentials_spec(content@) {
                Ok(sc) => r matches CredentialPlan::Use { password, salt } && password@ == sc.0
                    && salt@ == sc.1,
                Err(se) => r matches CredentialPlan::Fail(e) && e == se,
            },
            None => {
                if is_dir_command || (!suppress_terminal && passwd is None && salt is None) {
                    r is Prompt
                } else if passwd is None {
                    r matches CredentialPlan::Fail(e) && e == CredentialError::PasswordMissing
                } else if salt is None {
                    r matches CredentialPlan::Fail(e) && e == CredentialError::SaltMissing
                } else {
                    r matches CredentialPlan::Use { password, salt: s } && password@
                        == passwd->0@ && s@ == salt->0@
                }
            },
        },
{
    match file_content {
        Some(content) => match parse_credentials(content) {
            Ok((password, salt)) => CredentialPlan::Use { password, salt },
            Err(e) => CredentialPlan::Fail(e),
        },
        None => {
            if is_dir_command {
                CredentialPlan::Prompt
            } else if !suppress_terminal && passwd.is_none() && salt.is_none() {
                CredentialPlan::Prompt
            } else {
                match (passwd, salt) {
                    (Some(p), Some(s)) => CredentialPlan::Use {
                        password: bytes_range(p, 0, p.len()),
                        salt: bytes_range(s, 0, s.len()),
                    },
                    (None, _) => CredentialPlan::Fail(CredentialError::PasswordMissing),
                    (Some(_), None) => CredentialPlan::Fail(CredentialError::SaltMissing),
                }
            }
        },
    }
}

/// Credentials and key-derivation settings for one run, gathered off the
/// command that describes it.
#[derive(Debug, Clone)]
pub struct Secrets {
    pub password_file: String,
    pub passwd: Option<String>,
    pub salt: Option<String>,
    pub mode: Mode,
    pub suppress_terminal: bool,
    pub skip_passwd_file_search: bool,
    pub iterations: u32,
    pub hash_with: HashMode,
}

impl Secrets {
    /// Collects the credential-related settings of a command: a directory
    /// run never suppresses the terminal and carries no inline
    /// credentials; a file run may do both.  A missing password file is
    /// kept as an empty name.
    pub fn from_command(command: &crate::config::Command) -> (s: Secrets)
        ensures
            match command {
                crate::config::Command::Dir(o) => {
                    &&& s.password_file@ == (match o.password_file {
                        Some(p) => p@,
                        None => Seq::<char>::empty(),
                    })
                    &&& s.passwd is None
                    &&& s.salt is None
                    &&& s.mode == o.mode
                    &&& s.suppress_terminal == false
                    &&& s.skip_passwd_file_search == o.skip_passwd_file_search
                    &&& s.iterations == o.iterations
                    &&& s.hash_with == o.hash_with
                },
                crate::config::Command::File(o) => {
                    &&& s.password_file@ == (match o.password_file {
                        Some(p) => p@,
                        None => Seq::<char>::empty(),
                    })
                    &&& (s.passwd matches Some(p) <==> o.passwd is Some)
                    &&& (s.passwd matches Some(p) ==> o.passwd matches Some(q) && p@ == q@)
                    &&& (s.salt matches Some(p) <==> o.salt is Some)
                    &&& (s.salt matches Some(p) ==> o.salt matches Some(q) && p@ == q@)
                    &&& s.mode == o.mode
                    &&& s.suppress_terminal == o.suppress_terminal
                    &&& s.skip_passwd_file_search == o.skip_passwd_file_search
                    &&& s.iterations == o.iterations
                    &&& s.hash_with == o.hash_with
                },
            },
    {
        match command {
            crate::config::Command::Dir(o) => Secrets {
                password_file: match &o.password_file {
                    Some(p) => p.clone(),
                    None => String::new(),
                },
                passwd: None,
                salt: None,
                mode: o.mode,
                suppress_terminal: false,
                skip_passwd_file_search: o.skip_passwd_file_search,
                iterations: o.iterations,
                hash_with: o.hash_with,
            },
            crate::config::Command::File(o) => Secrets {
                password_file: match &o.password_file {
                    Some(p) => p.clone(),
                    None => String::new(),
                },
                passwd: match &o.passwd {
                    Some(p) => Some(p.clone()),
                    None => None,
                },
                salt: match &o.salt {
                    Some(p) => Some(p.clone()),
                    None => None,
                },
                mode: o.mode,
                suppress_terminal: o.suppress_terminal,
                skip_passwd_file_search: o.skip_passwd_file_search,
                iterations: o.iterations,
                hash_with: o.hash_with,
            },
        }
    }
}

} // verus!
