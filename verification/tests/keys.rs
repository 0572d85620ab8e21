//! Where keys come from.
use std::path::Path;
use tincd::hosts::{FileTime, HostCache, HostConfigStep, Stamp};
use tincd::keys::{
    private_key_path, private_key_permissions_insecure, pubkey_from_b64, read_ecdsa_private_key,
    read_ecdsa_public_key, AesWarning, CipherSetting, KeyFault, OpenError, OpenedKey, PemError,
    PrivKeyError, PublicKeyEvent, PublicKeyStep, SptpsAead, PRIVATE_BLOB_LEN,
};
use tincd::paths::{join, starts_with};

/// A public key that is easy to tell from others.
fn det_key(tag: u8) -> [u8; 32] {
    [tag; 32]
}

const DIGITS: &[u8; 64] = b"ABCDEFGHIJKLMNOPQRSTUVWXYZabcdefghijklmnopqrstuvwxyz0123456789+/";

/// Base64 without padding.
fn encode(bytes: &[u8]) -> String {
    let mut text = String::new();
    for group in bytes.chunks(3) {
        let mut bits = [0u8; 3];
        bits[..group.len()].copy_from_slice(group);
        let bits = u32::from_be_bytes([0, bits[0], bits[1], bits[2]]);
        for digit in 0..=group.len() {
            text.push(char::from(DIGITS[(bits >> (18 - 6 * digit)) as usize & 63]));
        }
    }
    text
}

/// What [`encode`] has made a text of.
fn decode(text: &str) -> Option<Vec<u8>> {
    let mut bytes = Vec::new();
    for group in text.as_bytes().chunks(4) {
        let mut bits = 0u32;
        for (i, digit) in group.iter().enumerate() {
            let value = DIGITS.iter().position(|d| d == digit)? as u32;
            bits |= value << (18 - 6 * i);
        }
        bytes.extend_from_slice(&bits.to_be_bytes()[1..group.len()]);
    }
    Some(bytes)
}

/// A private key file that holds `tag` all over.
fn opened(tag: u8, mode: u32) -> Result<OpenedKey, OpenError> {
    Ok(OpenedKey { mode: Some(mode), pem: Ok(vec![tag; PRIVATE_BLOB_LEN]) })
}

fn done(key: Option<[u8; 32]>) -> PublicKeyStep {
    PublicKeyStep::Done { key, fault: None }
}

fn not_found() -> PemError {
    PemError::NotFound("no such block".to_owned())
}

// pubkey_from_b64

#[test]
fn b64_roundtrip() {
    let pk = det_key(1);
    let b64 = encode(&pk);
    assert_eq!(b64.len(), 43, "tinc-b64 of 32 bytes is 43 chars");
    let back = pubkey_from_b64(b64.as_bytes(), decode(&b64)).expect("decode");
    assert_eq!(back, pk);
}

#[test]
fn b64_wrong_len() {
    for text in ["A".repeat(42), "A".repeat(44), String::new()] {
        assert!(pubkey_from_b64(text.as_bytes(), decode(&text)).is_none());
    }
    // Whatever it decodes to.
    assert!(pubkey_from_b64("A".repeat(42).as_bytes(), Some(vec![0; 32])).is_none());
}

#[test]
fn b64_bad_char() {
    let bad: String = std::iter::repeat_n('A', 42).chain(['!']).collect();
    assert_eq!(bad.len(), 43);
    assert!(pubkey_from_b64(bad.as_bytes(), decode(&bad)).is_none());
}

#[test]
fn b64_wrong_decoded_len() {
    let text = "A".repeat(43);
    assert!(pubkey_from_b64(text.as_bytes(), Some(vec![0; 31])).is_none());
    let step = read_ecdsa_public_key(
        Some(text.as_bytes()),
        None,
        b"/etc/tinc",
        b"peer",
        PublicKeyEvent::Decoded(Some(vec![0; 31])),
    );
    assert_eq!(
        step,
        PublicKeyStep::Done { key: None, fault: Some(KeyFault::InvalidFormat(31)) }
    );
}

// read_ecdsa_private_key

#[test]
fn priv_default_path() {
    let path = private_key_path(None, None, b"/tmp/priv-def");
    assert_eq!(path, b"/tmp/priv-def/ed25519_key.priv");
    let load = read_ecdsa_private_key(None, None, b"/tmp/priv-def", None, opened(2, 0o100_600));
    assert!(!load.insecure);
    assert_eq!(load.key.unwrap(), [2u8; 96]);
}

#[test]
fn priv_explicit_path() {
    let custom: &[u8] = b"/tmp/priv-exp/weird-name.key";
    assert_eq!(private_key_path(None, Some(custom), b"/tmp/priv-exp"), custom);
    assert_ne!(
        private_key_path(None, Some(custom), b"/tmp/priv-exp"),
        b"/tmp/priv-exp/ed25519_key.priv"
    );
    // The environment has the last word.
    let env: &[u8] = b"/run/credentials/key";
    assert_eq!(private_key_path(Some(env), Some(custom), b"/tmp/priv-exp"), env);
    let wrong: u8 = 99;
    let load = read_ecdsa_private_key(
        None,
        Some(custom),
        b"/tmp/priv-exp",
        None,
        opened(3, 0o100_600),
    );
    let key = load.key.unwrap();
    assert_eq!(key, [3u8; 96]);
    assert_ne!(key, [wrong; 96]);
}

#[test]
fn priv_missing_is_distinct_variant() {
    let load =
        read_ecdsa_private_key(None, None, b"/tmp/priv-miss", None, Err(OpenError::NotFound));
    let Err(err) = load.key else {
        panic!("expected error");
    };
    assert!(
        matches!(err, PrivKeyError::Missing(ref p) if p.ends_with(b"ed25519_key.priv")),
        "got {err:?}"
    );
    let msg = err.message();
    assert!(msg.contains("No such file or directory"), "msg: {msg}");
    assert_eq!(
        msg,
        "Error reading Ed25519 private key file `/tmp/priv-miss/ed25519_key.priv': \
         No such file or directory"
    );
}

#[test]
fn priv_unreadable_carries_the_cause() {
    let why = "Permission denied".to_owned();
    let load = read_ecdsa_private_key(None, None, b"/etc/tinc/", None, Err(OpenError::Other(why)));
    let err = load.key.unwrap_err();
    assert!(matches!(err, PrivKeyError::Io(_, _)));
    assert_eq!(
        err.message(),
        "Error reading Ed25519 private key file `/etc/tinc/ed25519_key.priv': Permission denied"
    );
}

#[test]
fn priv_perm_condition() {
    let path: &[u8] = b"/run/key";
    assert!(!private_key_permissions_insecure(path, 0o100_600, None));
    assert!(private_key_permissions_insecure(path, 0o100_644, None));
    assert!(!private_key_permissions_insecure(path, 0o100_700, None));
    assert!(!private_key_permissions_insecure(path, 0o100_400, None));
    // Set-id and sticky bits count, harmless as they are.
    assert!(private_key_permissions_insecure(path, 0o102_600, None));
    assert!(private_key_permissions_insecure(path, 0o101_600, None));
}

#[test]
fn systemd_credential_permissions_are_confined() {
    let credentials: &[u8] = b"/run/credentials/tincr-naru.service";
    let key = join(credentials, b"ed25519_key");

    assert!(!private_key_permissions_insecure(
        &key,
        0o100_440,
        Some(credentials),
    ));
    assert!(private_key_permissions_insecure(
        &key,
        0o100_444,
        Some(credentials),
    ));
    assert!(private_key_permissions_insecure(
        b"/run/secrets/key",
        0o100_440,
        Some(credentials),
    ));
    // A longer name is another directory.
    assert!(private_key_permissions_insecure(
        b"/run/credentials/tincr-naru.service2/ed25519_key",
        0o100_440,
        Some(credentials),
    ));
    assert!(!private_key_permissions_insecure(
        b"/run/./credentials//tincr-naru.service/ed25519_key",
        0o100_440,
        Some(credentials),
    ));
}

#[test]
fn priv_insecure_perms_loads_anyway() {
    let load = read_ecdsa_private_key(None, None, b"/tmp/priv-perm", None, opened(4, 0o100_644));
    assert!(load.insecure);
    assert_eq!(load.key.unwrap(), [4u8; 96]);
    // A mode that the system does not tell is no reason to warn.
    let load = read_ecdsa_private_key(
        None,
        None,
        b"/tmp/priv-perm",
        None,
        Ok(OpenedKey { mode: None, pem: Ok(vec![4; 96]) }),
    );
    assert!(!load.insecure);
}

#[test]
fn priv_malformed() {
    // A file without a block, and one with a damaged block.
    for (why, said) in [
        (not_found(), "no such block"),
        (PemError::Malformed("bad armor".to_owned()), "bad armor"),
    ] {
        let load = read_ecdsa_private_key(
            None,
            None,
            b"/tmp/priv-mal",
            None,
            Ok(OpenedKey { mode: Some(0o100_600), pem: Err(why) }),
        );
        let Err(err) = load.key else {
            panic!("expected error");
        };
        assert!(matches!(err, PrivKeyError::Pem(_, _)), "got {err:?}");
        assert_eq!(
            err.message(),
            format!("Ed25519 private key in `/tmp/priv-mal/ed25519_key.priv' malformed: {said}")
        );
    }
}

#[test]
fn paths_are_shown_as_far_as_they_are_text() {
    let odd = b"/k\xffe\xc3\xa9".to_vec();
    assert_eq!(
        PrivKeyError::Missing(odd).message(),
        "Error reading Ed25519 private key file `/k\u{fffd}e\u{e9}': No such file or directory"
    );
    let err = PrivKeyError::Io(b"/k".to_vec(), "busy".to_owned());
    assert_eq!(
        err.message_about("elsewhere"),
        "Error reading Ed25519 private key file `elsewhere': busy"
    );
}

// read_ecdsa_public_key

#[test]
fn pub_source1_inline_b64() {
    let pk = det_key(5);
    let b64 = encode(&pk);
    let start = read_ecdsa_public_key(
        Some(b64.as_bytes()),
        None,
        b"/tmp/pub-s1",
        b"peer",
        PublicKeyEvent::Start,
    );
    assert_eq!(start, PublicKeyStep::Decode);
    let end = read_ecdsa_public_key(
        Some(b64.as_bytes()),
        None,
        b"/tmp/pub-s1",
        b"peer",
        PublicKeyEvent::Decoded(decode(&b64)),
    );
    assert_eq!(end, done(Some(pk)));
}

#[test]
fn pub_source1_bad_no_fallthrough() {
    let b64 = "A".repeat(42);
    let step = read_ecdsa_public_key(
        Some(b64.as_bytes()),
        Some(b"/tmp/pub-s1bad/peer.pub"),
        b"/tmp/pub-s1bad",
        b"peer",
        PublicKeyEvent::Start,
    );
    assert_eq!(
        step,
        PublicKeyStep::Done { key: None, fault: Some(KeyFault::InvalidSize(42)) },
        "must not fall through to PEM block"
    );
    let text = "!".repeat(43);
    let step = read_ecdsa_public_key(
        Some(text.as_bytes()),
        None,
        b"/tmp/pub-s1bad",
        b"peer",
        PublicKeyEvent::Decoded(None),
    );
    assert_eq!(step, done(None));
}

#[test]
fn pub_source3_pem_in_hosts() {
    let pk = det_key(7);
    let start =
        read_ecdsa_public_key(None, None, b"/tmp/pub-s3", b"peer", PublicKeyEvent::Start);
    assert_eq!(start, PublicKeyStep::Open(b"/tmp/pub-s3/hosts/peer".to_vec()));
    let end = read_ecdsa_public_key(
        None,
        None,
        b"/tmp/pub-s3",
        b"peer",
        PublicKeyEvent::Opened(Ok(Ok(pk.to_vec()))),
    );
    assert_eq!(end, done(Some(pk)));
}

#[test]
fn pub_source2_explicit_file() {
    let pk = det_key(8);
    let file: &[u8] = b"/tmp/pub-s2/peer.pub";
    let start =
        read_ecdsa_public_key(None, Some(file), b"/tmp/pub-s2", b"peer", PublicKeyEvent::Start);
    assert_eq!(start, PublicKeyStep::Open(file.to_vec()));
    let end = read_ecdsa_public_key(
        None,
        Some(file),
        b"/tmp/pub-s2",
        b"peer",
        PublicKeyEvent::Opened(Ok(Ok(pk.to_vec()))),
    );
    assert_eq!(end, done(Some(pk)));
}

#[test]
fn pub_no_key_silent_none() {
    let end = read_ecdsa_public_key(
        None,
        None,
        b"/tmp/pub-nokey",
        b"peer",
        PublicKeyEvent::Opened(Ok(Err(not_found()))),
    );
    assert_eq!(end, done(None));
}

#[test]
fn pub_damaged_block_is_reported() {
    let end = read_ecdsa_public_key(
        None,
        None,
        b"/tmp/pub-bad",
        b"peer",
        PublicKeyEvent::Opened(Ok(Err(PemError::Malformed("short".to_owned())))),
    );
    let fault = KeyFault::Unparsable(PemError::Malformed("short".to_owned()));
    assert_eq!(end, PublicKeyStep::Done { key: None, fault: Some(fault) });
}

#[test]
fn pub_hosts_file_missing() {
    let end = read_ecdsa_public_key(
        None,
        None,
        b"/tmp/pub-nohosts",
        b"peer",
        PublicKeyEvent::Opened(Err(OpenError::NotFound)),
    );
    assert_eq!(
        end,
        PublicKeyStep::Done {
            key: None,
            fault: Some(KeyFault::Unreadable(OpenError::NotFound)),
        }
    );
}

#[test]
fn pub_inline_wins_over_pem() {
    let pk_inline = det_key(10);
    let pk_pem = det_key(11);
    assert_ne!(pk_inline, pk_pem);
    let b64 = encode(&pk_inline);
    let file: &[u8] = b"/tmp/pub-order/hosts/peer";
    let start = read_ecdsa_public_key(
        Some(b64.as_bytes()),
        Some(file),
        b"/tmp/pub-order",
        b"peer",
        PublicKeyEvent::Start,
    );
    assert_eq!(start, PublicKeyStep::Decode);
    let end = read_ecdsa_public_key(
        Some(b64.as_bytes()),
        Some(file),
        b"/tmp/pub-order",
        b"peer",
        PublicKeyEvent::Decoded(decode(&b64)),
    );
    assert_eq!(end, done(Some(pk_inline)), "inline var should win");
    assert_ne!(end, done(Some(pk_pem)));
}

// ciphers

#[test]
fn slow_aes_is_mentioned_once() {
    let mut warning = AesWarning::new();
    let aes = CipherSetting::Known(SptpsAead::Aes256Gcm);
    let chacha = CipherSetting::Known(SptpsAead::ChaCha20Poly1305);
    let choice = warning.read_sptps_cipher(chacha, false);
    assert_eq!(choice.aead, Some(SptpsAead::ChaCha20Poly1305));
    assert!(!choice.warn_slow_aes);
    let first = warning.read_sptps_cipher(aes, false);
    assert_eq!(first.aead, Some(SptpsAead::Aes256Gcm));
    assert!(first.warn_slow_aes);
    let second = warning.read_sptps_cipher(aes, false);
    assert_eq!(second.aead, Some(SptpsAead::Aes256Gcm));
    assert!(!second.warn_slow_aes);
    assert!(!warning.warn_aes_no_hw_once(false));
}

#[test]
fn fast_aes_is_not_mentioned() {
    let mut warning = AesWarning::new();
    assert!(!warning.warn_aes_no_hw_once(true));
    assert!(!warning.warn_aes_no_hw_once(false));
}

#[test]
fn unknown_ciphers_fall_back() {
    let mut warning = AesWarning::new();
    let unknown = warning.read_sptps_cipher(CipherSetting::Unknown, false);
    assert_eq!(unknown.aead, None);
    assert!(unknown.warn_unknown);
    let absent = warning.read_sptps_cipher(CipherSetting::Absent, false);
    assert_eq!(absent.aead, None);
    assert!(!absent.warn_unknown);
}

// host files

#[test]
fn host_files_are_read_again_when_they_change() {
    let mut cache: HostCache<&str> = HostCache::new();
    let base: &[u8] = b"/etc/tinc";
    let written = FileTime { secs: 1_700_000_000, nanos: 5 };
    let stamp = Stamp { modified: Some(written), len: 120 };
    let grown = Stamp { modified: Some(written), len: 121 };
    let touched = Stamp { modified: Some(FileTime { secs: 1_700_000_001, nanos: 5 }), len: 120 };

    assert_eq!(cache.read_host_config(base, b"a", Some(stamp)), HostConfigStep::Parse);
    cache.store(base, b"a", stamp, Some("Port = 655"), "");
    assert_eq!(cache.read_host_config(base, b"a", Some(stamp)), HostConfigStep::Cached);
    assert_eq!(cache.cached(base, b"a"), Some(&"Port = 655"));
    assert_eq!(cache.read_host_config(base, b"a", Some(grown)), HostConfigStep::Parse);
    assert_eq!(cache.read_host_config(base, b"a", Some(touched)), HostConfigStep::Parse);
    assert_eq!(cache.read_host_config(base, b"b", Some(stamp)), HostConfigStep::Parse);

    // Another spelling of the path names the same file.
    let spelled: &[u8] = b"/etc/./tinc/";
    assert_eq!(cache.read_host_config(spelled, b"a", Some(stamp)), HostConfigStep::Cached);
    assert_eq!(cache.cached(spelled, b"./a"), Some(&"Port = 655"));

    // One that does not parse is kept as empty.
    cache.store(base, b"a", grown, None, "");
    assert_eq!(cache.read_host_config(base, b"a", Some(grown)), HostConfigStep::Cached);
    assert_eq!(cache.cached(base, b"a"), Some(&""));
    assert_eq!(cache.read_host_config(base, b"a", Some(stamp)), HostConfigStep::Parse);

    // One that is gone is forgotten; the others stay.
    cache.store(base, b"b", stamp, Some("b"), "");
    assert_eq!(cache.read_host_config(base, b"a", None), HostConfigStep::Empty);
    assert_eq!(cache.cached(base, b"a"), None);
    assert_eq!(cache.read_host_config(base, b"a", Some(grown)), HostConfigStep::Parse);
    assert_eq!(cache.cached(base, b"b"), Some(&"b"));
}

// paths

#[test]
fn paths_join_as_the_system_joins_them() {
    for base in ["", "/", "a", "a/", "/etc/tinc", "/etc/tinc/"] {
        for part in ["", "b", "b/c", "/b", "..", "./b"] {
            let expected = Path::new(base).join(part);
            assert_eq!(
                join(base.as_bytes(), part.as_bytes()),
                expected.to_str().unwrap().as_bytes(),
                "{base} and {part}"
            );
        }
    }
}

#[test]
fn paths_compare_as_the_system_compares_them() {
    let samples = [
        "", ".", "./", "..", "/", "//", "/.", "a", "./a", "a/", "a/b", "a//b", "a/./b", "a/../b",
        "/a", "//a", "/./a", "/a/b", "/a/b/", "/a/b/c", "/ab", "/a/bc", ".a", "a.", "a/.", "a/..",
        "./a/b", "././a", "../a", "/..", "/a/..",
    ];
    for path in samples {
        for dir in samples {
            assert_eq!(
                starts_with(path.as_bytes(), dir.as_bytes()),
                Path::new(path).starts_with(dir),
                "{path} under {dir}"
            );
        }
    }
}
