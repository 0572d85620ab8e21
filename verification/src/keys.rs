//! Where Ed25519 keys come from, and what counts as one.
//!
//! Opening files, reading PEM blocks and decoding base64 happen elsewhere;
//! what they found comes in here, and here it is decided which file to read
//! next and what the outcome means. Paths are byte strings.
use crate::paths::{copy_bytes, join, starts_with};
use vstd::prelude::*;

verus! {

/// Length of an Ed25519 public key.
pub const PUBLIC_LEN: usize = 32;

/// Length of a private key on disk: the expanded secret and the public key.
pub const PRIVATE_BLOB_LEN: usize = 96;

/// Length of a public key in base64, which is not padded here.
pub const PUBLIC_B64_LEN: usize = 43;

/// Type of the PEM block of a private key.
pub const TY_PRIVATE: &'static str = "ED25519 PRIVATE KEY";

/// Type of the PEM block of a public key.
pub const TY_PUBLIC: &'static str = "ED25519 PUBLIC KEY";

/// The bytes of a text.
pub open spec fn text_bytes(text: &str) -> Seq<u8> {
    vstd::utf8::encode_utf8(text@)
}

/// Why a PEM block could not be read, with the reader's words for it.
#[derive(Debug, PartialEq, Eq)]
pub enum PemError {
    /// The file holds no block of the wanted type.
    NotFound(String),
    /// The block is damaged, of another type or of another length.
    Malformed(String),
}

/// Why a file could not be opened.
#[derive(Debug, PartialEq, Eq)]
pub enum OpenError {
    /// There is no such file.
    NotFound,
    /// Any other failure, in the system's words.
    Other(String),
}

/// Why there is no private key.
#[derive(Debug, PartialEq, Eq)]
pub enum PrivKeyError {
    /// The file does not exist; the path is for the hint to generate keys.
    Missing(Vec<u8>),
    /// The file could not be opened.
    Io(Vec<u8>, String),
    /// The file holds no usable key.
    Pem(Vec<u8>, PemError),
}

/// The text that `String::from_utf8_lossy` makes of a byte string.
pub uninterp spec fn lossy_text(bytes: Seq<u8>) -> Seq<char>;

/// A path as it is shown to people, by `String::from_utf8_lossy`. Taken on
/// trust: the text depends on the bytes alone, and bytes that are valid UTF-8
/// come out as the text they encode. What else becomes of bytes that are not,
/// where U+FFFD stands for each invalid sequence, is only named.
#[verifier::external_body]
fn shown_path(path: &[u8]) -> (r: String)
    ensures
        r@ == lossy_text(path@),
        vstd::utf8::valid_utf8(path@) ==> r@ == vstd::utf8::decode_utf8(path@),
{
    String::from_utf8_lossy(path).into_owned()
}

impl PemError {
    /// What the error says.
    pub open spec fn text(self) -> Seq<char> {
        match self {
            PemError::NotFound(why) => why@,
            PemError::Malformed(why) => why@,
        }
    }
}

impl PrivKeyError {
    /// The file that the key was to come from.
    pub open spec fn path(self) -> Seq<u8> {
        match self {
            PrivKeyError::Missing(path) => path@,
            PrivKeyError::Io(path, _) => path@,
            PrivKeyError::Pem(path, _) => path@,
        }
    }

    /// What the error says: the file, shown like this, then the cause.
    pub open spec fn text(self, shown: Seq<char>) -> Seq<char> {
        match self {
            PrivKeyError::Missing(_) => "Error reading Ed25519 private key file `"@ + shown
                + "': No such file or directory"@,
            PrivKeyError::Io(_, why) => "Error reading Ed25519 private key file `"@ + shown
                + "': "@ + why@,
            PrivKeyError::Pem(_, why) => "Ed25519 private key in `"@ + shown + "' malformed: "@
                + why.text(),
        }
    }

    /// What the error says, with the file shown like this.
    pub fn message_about(&self, shown: &str) -> (r: String)
        ensures
            r@ == self.text(shown@),
    {
        match self {
            PrivKeyError::Missing(_) => {
                let mut out: String = "Error reading Ed25519 private key file `".to_owned();
                out.append(shown);
                out.append("': No such file or directory");
                out
            },
            PrivKeyError::Io(_, why) => {
                let mut out: String = "Error reading Ed25519 private key file `".to_owned();
                out.append(shown);
                out.append("': ");
                out.append(why.as_str());
                out
            },
            PrivKeyError::Pem(_, why) => {
                let mut out: String = "Ed25519 private key in `".to_owned();
                out.append(shown);
                out.append("' malformed: ");
                match why {
                    PemError::NotFound(cause) => out.append(cause.as_str()),
                    PemError::Malformed(cause) => out.append(cause.as_str()),
                }
                out
            },
        }
    }

    /// What the error says. A path that is not valid UTF-8 is shown as far as
    /// it is.
    pub fn message(&self) -> (r: String)
        ensures
            r@ == self.text(lossy_text(self.path())),
            vstd::utf8::valid_utf8(self.path()) ==> r@ == self.text(
                vstd::utf8::decode_utf8(self.path()),
            ),
    {
        let shown: String = match self {
            PrivKeyError::Missing(path) => shown_path(path.as_slice()),
            PrivKeyError::Io(path, _) => shown_path(path.as_slice()),
            PrivKeyError::Pem(path, _) => shown_path(path.as_slice()),
        };
        self.message_about(shown.as_str())
    }
}

/// The mode bits that a private key file may have: a regular file, for its
/// owner alone. Inside the credentials directory of a service, which only the
/// service can enter, the group may read it too.
pub open spec fn allowed_mode(path: Seq<u8>, credentials_directory: Option<Seq<u8>>) -> u32 {
    if credentials_directory is Some && crate::paths::lies_under(
        path,
        credentials_directory->Some_0,
    ) {
        0o100_740
    } else {
        0o100_700
    }
}

/// The view of an optional byte string.
pub open spec fn optional_bytes(bytes: Option<&[u8]>) -> Option<Seq<u8>> {
    match bytes {
        Some(b) => Some(b@),
        None => None,
    }
}

/// A private key file has a mode bit that it should not have.
pub open spec fn insecure_mode(
    path: Seq<u8>,
    mode: u32,
    credentials_directory: Option<Seq<u8>>,
) -> bool {
    mode & !allowed_mode(path, credentials_directory) != 0
}

/// Whether a private key file has a mode bit that it should not have. Stray
/// type and set-id bits count, whether or not they do harm.
pub fn private_key_permissions_insecure(
    path: &[u8],
    mode: u32,
    credentials_directory: Option<&[u8]>,
) -> (r: bool)
    ensures
        r == insecure_mode(path@, mode, optional_bytes(credentials_directory)),
{
    let confined: bool = match credentials_directory {
        Some(dir) => starts_with(path, dir),
        None => false,
    };
    let allowed: u32 = if confined {
        0o100_740
    } else {
        0o100_700
    };
    mode & !allowed != 0
}

/// Copies a key of known length out of a vector.
fn array_of<const N: usize>(bytes: &Vec<u8>) -> (r: [u8; N])
    requires
        bytes@.len() == N,
    ensures
        r@ == bytes@,
{
    let mut out: [u8; N] = [0u8;N];
    let mut i: usize = 0;
    while i < N
        invariant
            i <= N,
            bytes@.len() == N,
            forall|j: int| 0 <= j < i ==> out@[j] == bytes@[j],
        decreases N - i,
    {
        out[i] = bytes[i];
        i = i + 1;
    }
    assert(out@ == bytes@);
    out
}

/// Where the private key is: what the environment says, else what the
/// configuration says, else `ed25519_key.priv` in the configuration directory.
pub open spec fn private_key_location(
    env_override: Option<Seq<u8>>,
    configured: Option<Seq<u8>>,
    confbase: Seq<u8>,
) -> Seq<u8> {
    match (env_override, configured) {
        (Some(path), _) => path,
        (None, Some(path)) => path,
        (None, None) => crate::paths::joined(confbase, text_bytes("ed25519_key.priv")),
    }
}

/// Where the private key is. A service manager can name the file in the
/// environment without touching the configuration.
pub fn private_key_path(
    env_override: Option<&[u8]>,
    configured: Option<&[u8]>,
    confbase: &[u8],
) -> (r: Vec<u8>)
    ensures
        r@ == private_key_location(
            optional_bytes(env_override),
            optional_bytes(configured),
            confbase@,
        ),
{
    match env_override {
        Some(path) => copy_bytes(path),
        None => match configured {
            Some(path) => copy_bytes(path),
            None => join(confbase, "ed25519_key.priv".as_bytes()),
        },
    }
}

/// What opening the private key file brought.
#[derive(Debug, PartialEq, Eq)]
pub struct OpenedKey {
    /// The file's mode, if the system told it.
    pub mode: Option<u32>,
    /// The [`TY_PRIVATE`] block, whose length the reader has checked.
    pub pem: Result<Vec<u8>, PemError>,
}

/// The outcome of loading the private key.
#[derive(Debug, PartialEq, Eq)]
pub struct PrivateKeyLoad {
    /// The file's permissions deserve a warning. The key is loaded anyway.
    pub insecure: bool,
    /// The key as it stands on disk.
    pub key: Result<[u8; 96], PrivKeyError>,
}

/// What loading the private key comes to, from what opening its file brought:
/// a warning where the file's mode deserves one, and the key or the error,
/// which names the file.
pub open spec fn loads(
    env_override: Option<Seq<u8>>,
    configured: Option<Seq<u8>>,
    confbase: Seq<u8>,
    credentials_directory: Option<Seq<u8>>,
    opened: Result<OpenedKey, OpenError>,
    load: PrivateKeyLoad,
) -> bool {
    let path = private_key_location(env_override, configured, confbase);
    &&& load.insecure == (opened is Ok && opened->Ok_0.mode is Some && insecure_mode(
        path,
        opened->Ok_0.mode->Some_0,
        credentials_directory,
    ))
    &&& match opened {
        Err(OpenError::NotFound) => {
            load.key matches Err(PrivKeyError::Missing(at)) && at@ == path
        },
        Err(OpenError::Other(why)) => {
            load.key matches Err(PrivKeyError::Io(at, said)) && at@ == path && said == why
        },
        Ok(file) => match file.pem {
            Err(why) => {
                load.key matches Err(PrivKeyError::Pem(at, said)) && at@ == path && said == why
            },
            Ok(blob) => load.key matches Ok(key) && key@ == blob@,
        },
    }
}

/// The private key, from what opening the file at [`private_key_path`]
/// brought.
pub fn read_ecdsa_private_key(
    env_override: Option<&[u8]>,
    configured: Option<&[u8]>,
    confbase: &[u8],
    credentials_directory: Option<&[u8]>,
    opened: Result<OpenedKey, OpenError>,
) -> (r: PrivateKeyLoad)
    requires
        opened is Ok && opened->Ok_0.pem is Ok ==> opened->Ok_0.pem->Ok_0@.len() == PRIVATE_BLOB_LEN,
    ensures
        loads(
            optional_bytes(env_override),
            optional_bytes(configured),
            confbase@,
            optional_bytes(credentials_directory),
            opened,
            r,
        ),
{
    let path: Vec<u8> = private_key_path(env_override, configured, confbase);
    match opened {
        Err(OpenError::NotFound) => PrivateKeyLoad {
            insecure: false,
            key: Err(PrivKeyError::Missing(path)),
        },
        Err(OpenError::Other(why)) => PrivateKeyLoad {
            insecure: false,
            key: Err(PrivKeyError::Io(path, why)),
        },
        Ok(file) => {
            let insecure: bool = match file.mode {
                Some(mode) => private_key_permissions_insecure(
                    path.as_slice(),
                    mode,
                    credentials_directory,
                ),
                None => false,
            };
            let key: Result<[u8; 96], PrivKeyError> = match file.pem {
                Ok(blob) => Ok(array_of(&blob)),
                Err(why) => Err(PrivKeyError::Pem(path, why)),
            };
            PrivateKeyLoad { insecure, key }
        },
    }
}

/// The public key that a base64 text stands for, given what it decodes to.
pub open spec fn decoded_key(text: Seq<u8>, decoded: Option<Seq<u8>>) -> Option<Seq<u8>> {
    if text.len() == PUBLIC_B64_LEN && decoded is Some && decoded->Some_0.len() == PUBLIC_LEN {
        decoded
    } else {
        None
    }
}

/// The view of an optional vector.
pub open spec fn optional_vec(bytes: Option<Vec<u8>>) -> Option<Seq<u8>> {
    match bytes {
        Some(b) => Some(b@),
        None => None,
    }
}

/// A public key from its base64 text, given what the text decodes to: a text
/// of any other length than 43 is refused, whatever it decodes to, and so is
/// one that does not decode to 32 bytes.
pub fn pubkey_from_b64(text: &[u8], decoded: Option<Vec<u8>>) -> (r: Option<[u8; 32]>)
    ensures
        key_bytes(r) == decoded_key(text@, optional_vec(decoded)),
{
    if text.len() != PUBLIC_B64_LEN {
        return None;
    }
    match decoded {
        Some(bytes) => if bytes.len() == PUBLIC_LEN {
            Some(array_of(&bytes))
        } else {
            None
        },
        None => None,
    }
}

/// What to log about a peer's key that could not be had.
#[derive(Debug, PartialEq, Eq)]
pub enum KeyFault {
    /// The inline text has that length, not 43.
    InvalidSize(usize),
    /// The inline text decodes to that many bytes, not 32.
    InvalidFormat(usize),
    /// The file could not be opened.
    Unreadable(OpenError),
    /// The file's PEM block is damaged.
    Unparsable(PemError),
}

/// What happened since the last step of the search for a peer's key.
#[derive(Debug, PartialEq, Eq)]
pub enum PublicKeyEvent {
    /// Nothing yet.
    Start,
    /// The inline text decodes to this, or not at all.
    Decoded(Option<Vec<u8>>),
    /// The file was opened and its [`TY_PUBLIC`] block read; the reader has
    /// checked the block's length.
    Opened(Result<Result<Vec<u8>, PemError>, OpenError>),
}

/// The next step of the search for a peer's key.
#[derive(Debug, PartialEq, Eq)]
pub enum PublicKeyStep {
    /// Decode the inline text.
    Decode,
    /// Open this file and read its PEM block.
    Open(Vec<u8>),
    /// The search is over.
    Done { key: Option<[u8; 32]>, fault: Option<KeyFault> },
}

/// The file that holds a peer's key when its host file has no inline key: the
/// one that the host file names, else the host file itself.
pub open spec fn public_key_location(
    file: Option<Seq<u8>>,
    confbase: Seq<u8>,
    name: Seq<u8>,
) -> Seq<u8> {
    match file {
        Some(path) => path,
        None => host_file(confbase, name),
    }
}

/// The host file of a node.
pub open spec fn host_file(confbase: Seq<u8>, name: Seq<u8>) -> Seq<u8> {
    crate::paths::joined(crate::paths::joined(confbase, text_bytes("hosts")), name)
}

/// The host file of a node.
pub fn host_path(confbase: &[u8], name: &[u8]) -> (r: Vec<u8>)
    ensures
        r@ == host_file(confbase@, name@),
{
    let hosts: Vec<u8> = join(confbase, "hosts".as_bytes());
    join(hosts.as_slice(), name)
}

/// The bytes of a key.
pub open spec fn key_bytes(key: Option<[u8; 32]>) -> Option<Seq<u8>> {
    match key {
        Some(k) => Some(k@),
        None => None,
    }
}

/// The key that a search ends with: the decoded inline text where there is
/// one, and nothing else then; the block of the file otherwise.
pub open spec fn key_found(inline: Option<Seq<u8>>, event: PublicKeyEvent) -> Option<Seq<u8>> {
    match (inline, event) {
        (Some(text), PublicKeyEvent::Decoded(decoded)) => decoded_key(text, optional_vec(decoded)),
        (None, PublicKeyEvent::Opened(Ok(Ok(blob)))) => Some(blob@),
        _ => None,
    }
}

/// The step of the search for a peer's key that follows from an event.
pub open spec fn search_follows(
    inline: Option<Seq<u8>>,
    file: Option<Seq<u8>>,
    confbase: Seq<u8>,
    name: Seq<u8>,
    event: PublicKeyEvent,
    step: PublicKeyStep,
) -> bool {
    match event {
        PublicKeyEvent::Start => match inline {
            Some(text) => if text.len() == PUBLIC_B64_LEN {
                step is Decode
            } else {
                step == (PublicKeyStep::Done {
                    key: None,
                    fault: Some(KeyFault::InvalidSize(text.len() as usize)),
                })
            },
            None => step matches PublicKeyStep::Open(path) && path@ == public_key_location(
                file,
                confbase,
                name,
            ),
        },
        PublicKeyEvent::Decoded(None) => step == (PublicKeyStep::Done { key: None, fault: None }),
        PublicKeyEvent::Decoded(Some(bytes)) => if bytes@.len() == PUBLIC_LEN {
            step matches PublicKeyStep::Done { key, fault } && key_bytes(key) == Some(bytes@)
                && fault is None
        } else {
            step == (PublicKeyStep::Done {
                key: None,
                fault: Some(KeyFault::InvalidFormat(bytes@.len() as usize)),
            })
        },
        PublicKeyEvent::Opened(Ok(Ok(blob))) => step matches PublicKeyStep::Done { key, fault }
            && key_bytes(key) == Some(blob@) && fault is None,
        PublicKeyEvent::Opened(Ok(Err(PemError::NotFound(_)))) => step == (PublicKeyStep::Done {
            key: None,
            fault: None,
        }),
        PublicKeyEvent::Opened(Ok(Err(why))) => step == (PublicKeyStep::Done {
            key: None,
            fault: Some(KeyFault::Unparsable(why)),
        }),
        PublicKeyEvent::Opened(Err(why)) => step == (PublicKeyStep::Done {
            key: None,
            fault: Some(KeyFault::Unreadable(why)),
        }),
    }
}

/// One step of the search for a peer's public key. `inline` is the
/// `Ed25519PublicKey` of its host file, `file` the `Ed25519PublicKeyFile`.
///
/// An inline key is the only source there is then: a malformed one is no key,
/// rather than a reason to look at an old block further down the file. A file
/// without a block is not worth a log line; other failures are.
pub fn read_ecdsa_public_key(
    inline: Option<&[u8]>,
    file: Option<&[u8]>,
    confbase: &[u8],
    name: &[u8],
    event: PublicKeyEvent,
) -> (r: PublicKeyStep)
    requires
        event is Decoded ==> inline is Some && inline->Some_0@.len() == PUBLIC_B64_LEN,
        event is Opened ==> inline is None,
        event matches PublicKeyEvent::Opened(Ok(Ok(blob))) ==> blob@.len() == PUBLIC_LEN,
    ensures
        r matches PublicKeyStep::Done { key, .. } ==> key_bytes(key) == key_found(
            optional_bytes(inline),
            event,
        ),
        search_follows(
            optional_bytes(inline),
            optional_bytes(file),
            confbase@,
            name@,
            event,
            r,
        ),
{
    match event {
        PublicKeyEvent::Start => match inline {
            Some(text) => if text.len() == PUBLIC_B64_LEN {
                PublicKeyStep::Decode
            } else {
                PublicKeyStep::Done { key: None, fault: Some(KeyFault::InvalidSize(text.len())) }
            },
            None => match file {
                Some(path) => PublicKeyStep::Open(copy_bytes(path)),
                None => PublicKeyStep::Open(host_path(confbase, name)),
            },
        },
        PublicKeyEvent::Decoded(decoded) => {
            let fault: Option<KeyFault> = match &decoded {
                Some(bytes) => if bytes.len() == PUBLIC_LEN {
                    None
                } else {
                    Some(KeyFault::InvalidFormat(bytes.len()))
                },
                None => None,
            };
            let key: Option<[u8; 32]> = match inline {
                Some(text) => pubkey_from_b64(text, decoded),
                None => None,
            };
            PublicKeyStep::Done { key, fault }
        },
        PublicKeyEvent::Opened(Ok(Ok(blob))) => PublicKeyStep::Done {
            key: Some(array_of(&blob)),
            fault: None,
        },
        PublicKeyEvent::Opened(Ok(Err(PemError::NotFound(_)))) => PublicKeyStep::Done {
            key: None,
            fault: None,
        },
        PublicKeyEvent::Opened(Ok(Err(why))) => PublicKeyStep::Done {
            key: None,
            fault: Some(KeyFault::Unparsable(why)),
        },
        PublicKeyEvent::Opened(Err(why)) => PublicKeyStep::Done {
            key: None,
            fault: Some(KeyFault::Unreadable(why)),
        },
    }
}

/// Ciphers for the data channel.
#[derive(Debug, Clone, Copy, PartialEq, Eq, Structural)]
pub enum SptpsAead {
    ChaCha20Poly1305,
    Aes256Gcm,
}

/// What a host file says about the cipher.
#[derive(Debug, Clone, Copy, PartialEq, Eq, Structural)]
pub enum CipherSetting {
    /// No `SPTPSCipher` line.
    Absent,
    /// A name that is not known here.
    Unknown,
    /// A known cipher.
    Known(SptpsAead),
}

/// Which cipher to use with a peer, and what to log about it.
#[derive(Debug, Clone, Copy, PartialEq, Eq, Structural)]
pub struct CipherChoice {
    /// `None`: fall back to the global default.
    pub aead: Option<SptpsAead>,
    /// The setting names a cipher that is not known here. That is no reason
    /// to refuse: host files are often synced from newer peers.
    pub warn_unknown: bool,
    /// AES was chosen on a processor without AES instructions.
    pub warn_slow_aes: bool,
}

/// A selection of AES is worth a warning: the first, on a processor without
/// AES instructions.
pub open spec fn aes_warns(considered: bool, hw_aes_available: bool) -> bool {
    !considered && !hw_aes_available
}

/// The cipher that a setting asks for, and what to log about it.
pub open spec fn cipher_choice(
    considered: bool,
    setting: CipherSetting,
    hw_aes_available: bool,
) -> CipherChoice {
    CipherChoice {
        aead: match setting {
            CipherSetting::Known(aead) => Some(aead),
            _ => None,
        },
        warn_unknown: setting is Unknown,
        warn_slow_aes: setting == CipherSetting::Known(SptpsAead::Aes256Gcm) && aes_warns(
            considered,
            hw_aes_available,
        ),
    }
}

/// Whether the processor was looked at once a setting was read.
pub open spec fn considers(considered: bool, setting: CipherSetting) -> bool {
    considered || setting == CipherSetting::Known(SptpsAead::Aes256Gcm)
}

/// The warning about slow AES, which comes at most once per process.
#[derive(Debug, Clone, Copy, PartialEq, Eq, Structural)]
pub struct AesWarning {
    /// The processor was looked at already.
    pub considered: bool,
}

impl AesWarning {
    /// Nothing was looked at yet.
    pub fn new() -> (r: AesWarning)
        ensures
            !r.considered,
    {
        AesWarning { considered: false }
    }

    /// Whether to warn that AES is slow here: on the first call only, and
    /// only without hardware support.
    pub fn warn_aes_no_hw_once(&mut self, hw_aes_available: bool) -> (r: bool)
        ensures
            final(self).considered,
            r == aes_warns(old(self).considered, hw_aes_available),
    {
        let warn: bool = !self.considered && !hw_aes_available;
        self.considered = true;
        warn
    }

    /// The cipher that a host file asks for.
    pub fn read_sptps_cipher(&mut self, setting: CipherSetting, hw_aes_available: bool) -> (r:
        CipherChoice)
        ensures
            r == cipher_choice(old(self).considered, setting, hw_aes_available),
            final(self).considered == considers(old(self).considered, setting),
    {
        match setting {
            CipherSetting::Absent => CipherChoice {
                aead: None,
                warn_unknown: false,
                warn_slow_aes: false,
            },
            CipherSetting::Unknown => CipherChoice {
                aead: None,
                warn_unknown: true,
                warn_slow_aes: false,
            },
            CipherSetting::Known(aead) => {
                let slow: bool = if aead == SptpsAead::Aes256Gcm {
                    self.warn_aes_no_hw_once(hw_aes_available)
                } else {
                    false
                };
                CipherChoice { aead: Some(aead), warn_unknown: false, warn_slow_aes: slow }
            },
        }
    }
}

} // verus!
