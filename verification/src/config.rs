//! Options that drive a single run of the engine.
//!
//! A run is described by a `Command`: either a whole directory
//! (`DirOptions`) or a single file (`FileOptions`).  The values here are
//! plain data; an outer command-line or GUI layer fills them in and the
//! engine treats them as immutable for the duration of the run.

use vstd::prelude::*;

verus! {

/// Whether the run encrypts or decrypts the source files.
#[derive(Clone, Copy, Debug, PartialEq, Eq, Structural)]
pub enum Operation {
    Encrypt,
    Decrypt,
}

/// The cipher mode: authenticated AES-256-GCM, or plain AES-256-ECB with
/// block padding.  Only GCM can detect a wrong key or corrupted ciphertext.
#[derive(Clone, Copy, Debug, PartialEq, Eq, Structural)]
pub enum Mode {
    ECB,
    GCM,
}

/// The key-derivation function used to turn a password and salt into the
/// 256-bit cipher key.
#[derive(Clone, Copy, Debug, PartialEq, Eq, Structural)]
pub enum HashMode {
    Argon2,
    PBKDF2,
}

impl Operation {
    /// The operation's display name.
    pub fn to_str(&self) -> (r: &str)
        ensures
            r@ == match self {
                Operation::Encrypt => "Encrypt"@,
                Operation::Decrypt => "Decrypt"@,
            },
    {
        match self {
            Operation::Encrypt => "Encrypt",
            Operation::Decrypt => "Decrypt",
        }
    }
}

impl Mode {
    /// The mode's display name.
    pub fn to_str(&self) -> (r: &str)
        ensures
            r@ == match self {
                Mode::ECB => "ECB"@,
                Mode::GCM => "GCM"@,
            },
    {
        match self {
            Mode::ECB => "ECB",
            Mode::GCM => "GCM",
        }
    }
}

/// How a source file is destroyed after a successful secure overwrite:
/// `random_iterations` random-fill passes, then `rename_times` renames
/// before deletion.
#[derive(Clone, Copy, Debug, PartialEq, Eq, Structural)]
pub struct ShredOptions {
    pub random_iterations: u32,
    pub rename_times: u32,
}

/// Subcommand that requests secure shredding of the source files.
#[derive(Clone, Copy, Debug, PartialEq, Eq, Structural)]
pub enum Shred {
    Shred(ShredOptions),
}

/// Options for a run over a whole directory tree.
#[derive(Debug, Clone)]
pub struct DirOptions {
    pub source_dir: String,
    pub target_dir: Option<String>,
    pub password_file: Option<String>,
    pub skip_passwd_file_search: bool,
    pub operation: Operation,
    pub mode: Mode,
    pub delete_src: bool,
    pub threads: usize,
    pub hash_with: HashMode,
    pub iterations: u32,
    pub verbose: bool,
    pub dry_run: bool,
    pub anon: bool,
    pub shred: Option<Shred>,
}

/// Options for a run over a single file.
#[derive(Debug, Clone)]
pub struct FileOptions {
    pub source_file: String,
    pub target_dir: Option<String>,
    pub password_file: Option<String>,
    pub skip_passwd_file_search: bool,
    pub passwd: Option<String>,
    pub salt: Option<String>,
    pub operation: Operation,
    pub mode: Mode,
    pub delete_src: bool,
    pub hash_with: HashMode,
    pub iterations: u32,
    pub suppress_terminal: bool,
    pub verbose: bool,
    pub dry_run: bool,
    pub anon: bool,
    pub shred: Option<Shred>,
}

/// One run: a directory tree or a single file.
#[derive(Debug, Clone)]
pub enum Command {
    Dir(DirOptions),
    File(FileOptions),
}

/// The full argument set of one invocation.
#[derive(Debug, Clone)]
pub struct Args {
    pub command: Command,
}

/// One run as an external GUI layer describes it, with the enum choices
/// still in their string form.
#[derive(Debug, Clone)]
pub struct EncryptionOptions {
    pub source_path: String,
    pub target_path: Option<String>,
    pub password: String,
    pub salt: String,
    pub operation: String,
    pub mode: String,
    pub hash_with: String,
    pub iterations: u32,
    pub threads: usize,
    pub delete_src: bool,
    pub anon: bool,
    pub dry_run: bool,
    pub verbose: bool,
}

/// Reads an operation choice: `encrypt` or `decrypt`, nothing else.
pub fn parse_operation(s: &String) -> (r: Option<Operation>)
    ensures
        match r {
            Some(Operation::Encrypt) => s@ == "encrypt"@,
            Some(Operation::Decrypt) => s@ == "decrypt"@,
            None => s@ != "encrypt"@ && s@ != "decrypt"@,
        },
{
    if s.eq(&String::from_str("encrypt")) {
        Some(Operation::Encrypt)
    } else if s.eq(&String::from_str("decrypt")) {
        Some(Operation::Decrypt)
    } else {
        None
    }
}

/// Reads a mode choice: `ecb` or `gcm`, nothing else.
pub fn parse_mode(s: &String) -> (r: Option<Mode>)
    ensures
        match r {
            Some(Mode::ECB) => s@ == "ecb"@,
            Some(Mode::GCM) => s@ == "gcm"@,
            None => s@ != "ecb"@ && s@ != "gcm"@,
        },
{
    if s.eq(&String::from_str("ecb")) {
        Some(Mode::ECB)
    } else if s.eq(&String::from_str("gcm")) {
        Some(Mode::GCM)
    } else {
        None
    }
}

/// Reads a KDF choice: `pbkdf2` selects PBKDF2, anything else falls back
/// to Argon2id.
pub fn parse_hash_mode(s: &String) -> (r: HashMode)
    ensures
        r == if s@ == "pbkdf2"@ {
            HashMode::PBKDF2
        } else {
            HashMode::Argon2
        },
{
    if s.eq(&String::from_str("pbkdf2")) {
        HashMode::PBKDF2
    } else {
        HashMode::Argon2
    }
}

/// Why an externally supplied option set was rejected before any work.
#[derive(Clone, Copy, Debug, PartialEq, Eq, Structural)]
pub enum OptionsError {
    /// The operation string is neither `encrypt` nor `decrypt`.
    InvalidOperation,
    /// The mode string is neither `ecb` nor `gcm`.
    InvalidMode,
}

/// Checks the string choices of an externally supplied option set before
/// any work begins: the operation and mode must be recognized; the KDF
/// choice falls back to Argon2id.
pub fn validate_options(options: &EncryptionOptions) -> (r: Result<
    (Operation, Mode, HashMode),
    OptionsError,
>)
    ensures
        (r matches Err(e) && e == OptionsError::InvalidOperation) <==> (options.operation@
            != "encrypt"@ && options.operation@ != "decrypt"@),
        (r matches Err(e) && e == OptionsError::InvalidMode) <==> ((options.operation@
            == "encrypt"@ || options.operation@ == "decrypt"@) && options.mode@ != "ecb"@
            && options.mode@ != "gcm"@),
        r matches Ok(t) ==> (t.0 == Operation::Encrypt <==> options.operation@ == "encrypt"@),
        r matches Ok(t) ==> (t.1 == Mode::ECB <==> options.mode@ == "ecb"@),
        r matches Ok(t) ==> t.2 == (if options.hash_with@ == "pbkdf2"@ {
            HashMode::PBKDF2
        } else {
            HashMode::Argon2
        }),
{
    proof {
        reveal_strlit("encrypt");
        reveal_strlit("decrypt");
        reveal_strlit("ecb");
        reveal_strlit("gcm");
        assert("encrypt"@[0] == 'e' && "decrypt"@[0] == 'd');
        assert("encrypt"@ != "decrypt"@);
        assert("ecb"@[0] == 'e' && "gcm"@[0] == 'g');
        assert("ecb"@ != "gcm"@);
    }
    let operation = match parse_operation(&options.operation) {
        Some(op) => op,
        None => {
            return Err(OptionsError::InvalidOperation);
        },
    };
    let mode = match parse_mode(&options.mode) {
        Some(m) => m,
        None => {
            return Err(OptionsError::InvalidMode);
        },
    };
    let hash_with = parse_hash_mode(&options.hash_with);
    Ok((operation, mode, hash_with))
}

/// Runs `f` unless the command asks for terminal output to be
/// suppressed: only a single-file run can ask for quiet operation.
pub fn terminal_suppress<F: Fn() -> ()>(command: &Command, f: F)
    requires
        call_requires(f, ()),
{
    match command {
        Command::File(options) => {
            if !options.suppress_terminal {
                f();
            }
        },
        Command::Dir(_) => {
            f();
        },
    }
}

/// An older spelling of `terminal_suppress`, kept for callers that use
/// it.
pub fn terminal_supress<F: Fn() -> ()>(command: &Command, f: F)
    requires
        call_requires(f, ()),
{
    terminal_suppress(command, f)
}

} // verus!
