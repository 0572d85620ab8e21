//! Which files are read and what they come to, byte for byte.
use crate::hosts::{HostConfigStep, Stamp};
use crate::keys::{
    CipherSetting, KeyFault, OpenError, OpenedKey, PemError, PrivKeyError, PrivateKeyLoad,
    PublicKeyEvent, PublicKeyStep, SptpsAead,
};
use vstd::prelude::*;

verus! {

/// The path is absolute.
pub open spec fn absolute(path: Seq<u8>) -> bool {
    path.len() > 0 && path[0] == 47
}

/// Joining keeps an absolute part as it is. It puts any other behind the base,
/// with one slash between them where the base does not end in one.
pub proof fn law_paths_join(base: Seq<u8>, part: Seq<u8>)
    ensures
        absolute(part) ==> crate::paths::joined(base, part) == part,
        !absolute(part) ==> ({
            let path = crate::paths::joined(base, part);
            let slash: int = if base.len() > 0 && base[base.len() - 1] != 47 {
                1
            } else {
                0
            };
            &&& path.len() == base.len() + slash + part.len()
            &&& path.take(base.len() as int) == base
            &&& slash == 1 ==> path[base.len() as int] == 47
            &&& path.skip(base.len() + slash) == part
        }),
{
    if !absolute(part) {
        let path = crate::paths::joined(base, part);
        let slash: int = if base.len() > 0 && base[base.len() - 1] != 47 {
            1
        } else {
            0
        };
        assert(path.take(base.len() as int) == base);
        assert(path.skip(base.len() + slash) == part);
    }
}

/// Slashes separate names: those before one and those after it follow each
/// other.
pub proof fn law_slashes_separate_names(a: Seq<u8>, b: Seq<u8>)
    ensures
        crate::paths::names(a + seq![47u8] + b) == crate::paths::names(a) + crate::paths::names(b),
{
    crate::paths::lemma_names_across_slash(a, b);
}

/// What holds no slash is one name, except that nothing and `.` are none.
pub proof fn law_plain_names_stand_for_themselves(name: Seq<u8>)
    requires
        forall|i: int| 0 <= i < name.len() ==> name[i] != 47,
    ensures
        name.len() == 0 || (name.len() == 1 && name[0] == 46) ==> crate::paths::names(name).len()
            == 0,
        name.len() > 1 || (name.len() == 1 && name[0] != 46) ==> crate::paths::names(name) == seq![
            name,
        ],
{
    crate::paths::lemma_head_len(name, name.len());
    assert(name.take(name.len() as int) == name);
    assert(crate::paths::names(Seq::<u8>::empty()) == Seq::<Seq<u8>>::empty());
    if name.len() == 1 && name[0] == 46 {
        assert(name == seq![46u8]);
    }
    assert(seq![name] + Seq::<Seq<u8>>::empty() == seq![name]);
}

/// A path's components are its names, behind `/` if it is absolute, and behind
/// `.` if it is that or begins with `./`.
pub proof fn law_components_are_names(path: Seq<u8>)
    ensures
        ({
            let dotted = path.len() > 0 && path[0] == 46 && (path.len() == 1 || path[1] == 47);
            &&& absolute(path) ==> crate::paths::components(path) == seq![seq![47u8]]
                + crate::paths::names(path)
            &&& dotted ==> crate::paths::components(path) == seq![seq![46u8]]
                + crate::paths::names(path)
            &&& !absolute(path) && !dotted ==> crate::paths::components(path)
                == crate::paths::names(path)
        }),
{
    let head = path.take(crate::paths::head_len(path) as int);
    if path.len() > 0 && path[0] == 46 && (path.len() == 1 || path[1] == 47) {
        crate::paths::lemma_head_len(path, 1);
        assert(head == seq![46u8]);
    } else if head == seq![46u8] {
        crate::paths::lemma_single_dot(path);
    }
}

/// A path lies under a directory exactly if its components are those of the
/// directory and then some, or none.
pub proof fn law_lying_under_is_having_more(path: Seq<u8>, dir: Seq<u8>, rest: Seq<Seq<u8>>)
    ensures
        crate::paths::components(path) == crate::paths::components(dir) + rest
            ==> crate::paths::lies_under(path, dir),
        crate::paths::lies_under(path, dir) ==> crate::paths::components(path)
            == crate::paths::components(dir) + crate::paths::components(path).skip(
            crate::paths::components(dir).len() as int,
        ),
{
    let p = crate::paths::components(path);
    let d = crate::paths::components(dir);
    if p == d + rest {
        assert(p.subrange(0, d.len() as int) == d);
    }
    if crate::paths::lies_under(path, dir) {
        assert(d == p.subrange(0, d.len() as int));
        assert(p == d + p.skip(d.len() as int));
    }
}

/// The private key is where the environment says, wherever that is; else where
/// the configuration says; else `ed25519_key.priv` in the configuration
/// directory.
pub proof fn law_private_key_files(
    env_override: Option<Seq<u8>>,
    configured: Option<Seq<u8>>,
    confbase: Seq<u8>,
)
    ensures
        ({
            let path = crate::keys::private_key_location(env_override, configured, confbase);
            &&& env_override matches Some(named) ==> path == named
            &&& env_override is None ==> (configured matches Some(named) ==> path == named)
            &&& env_override is None && configured is None ==> path == crate::paths::joined(
                confbase,
                seq![101u8, 100, 50, 53, 53, 49, 57, 95, 107, 101, 121, 46, 112, 114, 105, 118],
            )
        }),
{
    reveal_strlit("ed25519_key.priv");
    vstd::utf8::is_ascii_chars_encode_utf8("ed25519_key.priv"@);
    assert(vstd::utf8::encode_utf8("ed25519_key.priv"@) == seq![
        101u8,
        100,
        50,
        53,
        53,
        49,
        57,
        95,
        107,
        101,
        121,
        46,
        112,
        114,
        105,
        118,
    ]);
}

/// A node's host file is its name in the directory `hosts` of the
/// configuration.
pub proof fn law_host_files(confbase: Seq<u8>, name: Seq<u8>)
    ensures
        crate::keys::host_file(confbase, name) == crate::paths::joined(
            crate::paths::joined(confbase, seq![104u8, 111, 115, 116, 115]),
            name,
        ),
        crate::hosts::host_key(confbase, name) == crate::paths::components(
            crate::paths::joined(
                crate::paths::joined(confbase, seq![104u8, 111, 115, 116, 115]),
                name,
            ),
        ),
{
    reveal_strlit("hosts");
    vstd::utf8::is_ascii_chars_encode_utf8("hosts"@);
    assert(vstd::utf8::encode_utf8("hosts"@) == seq![104u8, 111, 115, 116, 115]);
}

/// Without an inline key, whenever the host file names a key file, the file
/// opened is exactly the one named, byte for byte, wherever it lies and
/// whoever's it is; the node's host file is opened only if none is named.
pub proof fn law_named_key_files_are_opened(
    file: Option<Seq<u8>>,
    confbase: Seq<u8>,
    name: Seq<u8>,
    step: PublicKeyStep,
)
    requires
        crate::keys::search_follows(None, file, confbase, name, PublicKeyEvent::Start, step),
    ensures
        step is Open,
        file matches Some(named) ==> step->Open_0@ == named,
        file is None ==> step->Open_0@ == crate::paths::joined(
            crate::paths::joined(confbase, seq![104u8, 111, 115, 116, 115]),
            name,
        ),
{
    law_host_files(confbase, name);
}

/// With an inline key no file is ever opened, whatever is named: a text of 43
/// bytes is decoded, and any other is no key, with its length to be logged.
pub proof fn law_inline_keys_are_decoded(
    text: Seq<u8>,
    file: Option<Seq<u8>>,
    confbase: Seq<u8>,
    name: Seq<u8>,
    step: PublicKeyStep,
)
    requires
        crate::keys::search_follows(
            Some(text),
            file,
            confbase,
            name,
            PublicKeyEvent::Start,
            step,
        ),
        text.len() <= usize::MAX,
    ensures
        text.len() == 43 <==> step is Decode,
        text.len() != 43 ==> step is Done && step->key is None && (step->fault matches Some(
            KeyFault::InvalidSize(len),
        ) && len == text.len()),
{
}

/// What an inline text decodes to is the key if it is 32 bytes long. What it
/// decodes to otherwise is none, which is logged; nor is a text that does not
/// decode, which is not.
pub proof fn law_decoded_texts_are_keys(
    inline: Option<Seq<u8>>,
    file: Option<Seq<u8>>,
    confbase: Seq<u8>,
    name: Seq<u8>,
    decoded: Option<Vec<u8>>,
    step: PublicKeyStep,
)
    requires
        crate::keys::search_follows(
            inline,
            file,
            confbase,
            name,
            PublicKeyEvent::Decoded(decoded),
            step,
        ),
    ensures
        step is Done,
        decoded is None ==> step->key is None && step->fault is None,
        decoded matches Some(bytes) ==> {
            &&& bytes@.len() == 32 ==> step->key is Some && step->key->Some_0@ == bytes@
                && step->fault is None
            &&& bytes@.len() != 32 ==> step->key is None && (step->fault matches Some(
                KeyFault::InvalidFormat(len),
            ) && len == bytes@.len())
        },
{
    match decoded {
        Some(bytes) => {
            assert(bytes.len() == bytes@.len());
        },
        None => {},
    }
}

/// A file's block is the key. A file without one has none, which is not worth
/// a word; a damaged block and a file that cannot be opened are, each with its
/// own cause.
pub proof fn law_blocks_are_keys(
    inline: Option<Seq<u8>>,
    file: Option<Seq<u8>>,
    confbase: Seq<u8>,
    name: Seq<u8>,
    opened: Result<Result<Vec<u8>, PemError>, OpenError>,
    step: PublicKeyStep,
)
    requires
        crate::keys::search_follows(
            inline,
            file,
            confbase,
            name,
            PublicKeyEvent::Opened(opened),
            step,
        ),
    ensures
        step is Done,
        opened matches Ok(Ok(blob)) ==> step->key is Some && step->key->Some_0@ == blob@
            && step->fault is None,
        !(opened matches Ok(Ok(_))) ==> step->key is None,
        opened matches Ok(Err(why)) ==> (if why is NotFound {
            step->fault is None
        } else {
            step->fault == Some(KeyFault::Unparsable(why))
        }),
        opened matches Err(why) ==> step->fault == Some(KeyFault::Unreadable(why)),
{
}

/// A text stands for a key exactly if it is 43 bytes long and decodes to 32;
/// then for what it decodes to.
pub proof fn law_texts_stand_for_keys(
    text: Seq<u8>,
    decoded: Option<Seq<u8>>,
    key: Seq<u8>,
)
    ensures
        crate::keys::decoded_key(text, decoded) == Some(key) <==> text.len() == 43 && decoded
            == Some(key) && key.len() == 32,
{
}

/// A private key file is reported exactly if it has any mode bit besides those
/// of a regular file for its owner, where the group may also read it if it
/// lies under the credentials directory.
pub proof fn law_modes_are_held_to_the_owner(
    path: Seq<u8>,
    mode: u32,
    credentials_directory: Option<Seq<u8>>,
)
    ensures
        ({
            let confined = credentials_directory is Some && crate::paths::lies_under(
                path,
                credentials_directory->Some_0,
            );
            let insecure = crate::keys::insecure_mode(path, mode, credentials_directory);
            &&& confined ==> (insecure <==> mode & 0xffff_7e1f != 0)
            &&& !confined ==> (insecure <==> mode & 0xffff_7e3f != 0)
        }),
{
    assert(mode & !0o100_740u32 == mode & 0xffff_7e1f) by (bit_vector);
    assert(mode & !0o100_700u32 == mode & 0xffff_7e3f) by (bit_vector);
}

/// A key that could be read is loaded whatever its file's mode; its mode is
/// only reported, and only where it was told. A failure names the file that
/// was tried: missing, not to be opened, or without a usable key, each with
/// its own cause.
pub proof fn law_private_keys_load(
    env_override: Option<Seq<u8>>,
    configured: Option<Seq<u8>>,
    confbase: Seq<u8>,
    credentials_directory: Option<Seq<u8>>,
    opened: Result<OpenedKey, OpenError>,
    load: PrivateKeyLoad,
)
    requires
        crate::keys::loads(
            env_override,
            configured,
            confbase,
            credentials_directory,
            opened,
            load,
        ),
    ensures
        ({
            let path = crate::keys::private_key_location(env_override, configured, confbase);
            &&& load.key is Ok <==> (opened is Ok && opened->Ok_0.pem is Ok)
            &&& load.key is Ok ==> load.key->Ok_0@ == opened->Ok_0.pem->Ok_0@
            &&& load.key matches Err(error) ==> error.path() == path
            &&& opened matches Err(OpenError::NotFound) ==> load.key->Err_0 is Missing
            &&& opened matches Err(OpenError::Other(why)) ==> (load.key->Err_0 matches
                PrivKeyError::Io(_, said) && said == why)
            &&& opened is Ok && opened->Ok_0.pem is Err ==> (load.key->Err_0 matches
                PrivKeyError::Pem(_, said) && said == opened->Ok_0.pem->Err_0)
            &&& opened is Err || opened->Ok_0.mode is None ==> !load.insecure
            &&& opened is Ok && opened->Ok_0.mode is Some ==> (load.insecure
                <==> crate::keys::insecure_mode(
                path,
                opened->Ok_0.mode->Some_0,
                credentials_directory,
            ))
        }),
{
}

/// An error keeps the path that it is about.
pub proof fn law_errors_keep_their_path(path: Vec<u8>, why: String, cause: PemError)
    ensures
        PrivKeyError::Missing(path).path() == path@,
        PrivKeyError::Io(path, why).path() == path@,
        PrivKeyError::Pem(path, cause).path() == path@,
{
}

/// What an error says holds the file as it is shown, in quotes, and ends with
/// the cause.
pub proof fn law_errors_name_the_file(error: PrivKeyError, shown: Seq<char>)
    ensures
        ({
            let text = error.text(shown);
            let start: int = if error is Pem {
                24
            } else {
                40
            };
            let end = start + shown.len();
            &&& text.subrange(start, end) == shown
            &&& text[start - 1] == '`' && text[end] == '\''
            &&& error is Pem ==> text.take(start) == "Ed25519 private key in `"@
            &&& !(error is Pem) ==> text.take(start) == "Error reading Ed25519 private key file `"@
            &&& error is Missing ==> text.skip(end) == "': No such file or directory"@
            &&& error matches PrivKeyError::Io(_, why) ==> text.skip(end + 3) == why@
            &&& error matches PrivKeyError::Pem(_, PemError::NotFound(why)) ==> text.skip(end + 13)
                == why@
            &&& error matches PrivKeyError::Pem(_, PemError::Malformed(why)) ==> text.skip(end + 13)
                == why@
        }),
{
    reveal_strlit("Error reading Ed25519 private key file `");
    reveal_strlit("Ed25519 private key in `");
    reveal_strlit("': No such file or directory");
    reveal_strlit("': ");
    reveal_strlit("' malformed: ");
    let text = error.text(shown);
    let start: int = if error is Pem {
        24
    } else {
        40
    };
    let end = start + shown.len();
    assert(text.subrange(start, end) == shown);
    match error {
        PrivKeyError::Missing(_) => {
            assert(text.take(start) == "Error reading Ed25519 private key file `"@);
            assert(text.skip(end) == "': No such file or directory"@);
        },
        PrivKeyError::Io(_, why) => {
            assert(text.take(start) == "Error reading Ed25519 private key file `"@);
            assert(text.skip(end + 3) == why@);
        },
        PrivKeyError::Pem(_, why) => {
            assert(text.take(start) == "Ed25519 private key in `"@);
            assert(text.skip(end + 13) == why.text());
        },
    }
}

/// A setting's cipher is used if it is known, and the default otherwise; an
/// unknown name is worth a warning, an absent one is not. AES is worth one if
/// it is the first and the processor is slow at it, and counts as looked at
/// from then on; other ciphers do not.
pub proof fn law_settings_choose_the_cipher(
    considered: bool,
    aead: SptpsAead,
    hw: bool,
)
    ensures
        ({
            let absent = crate::keys::cipher_choice(considered, CipherSetting::Absent, hw);
            let unknown = crate::keys::cipher_choice(considered, CipherSetting::Unknown, hw);
            let known = crate::keys::cipher_choice(considered, CipherSetting::Known(aead), hw);
            &&& absent.aead is None && !absent.warn_unknown && !absent.warn_slow_aes
            &&& unknown.aead is None && unknown.warn_unknown && !unknown.warn_slow_aes
            &&& known.aead == Some(aead) && !known.warn_unknown
            &&& known.warn_slow_aes <==> aead is Aes256Gcm && !considered && !hw
            &&& crate::keys::considers(considered, CipherSetting::Absent) == considered
            &&& crate::keys::considers(considered, CipherSetting::Unknown) == considered
            &&& crate::keys::considers(considered, CipherSetting::Known(aead)) <==> considered
                || aead is Aes256Gcm
        }),
{
}

/// The one warning about slow AES comes with the first selection, if the
/// processor is slow at it.
pub proof fn law_first_slow_selection_warns(selections: Seq<bool>)
    ensures
        crate::key_laws::aes_warnings(false, selections) == 1 <==> selections.len() > 0
            && !selections[0],
        selections.len() > 0 ==> (crate::keys::aes_warns(false, selections[0]) <==> !selections[0]),
{
    if selections.len() > 0 {
        crate::key_laws::law_aes_warning_comes_once(true, selections.drop_first());
    }
}

/// What is kept for a host file is used exactly as long as the file has the
/// time and the length that it had. Without a file the configuration is empty.
pub proof fn law_files_are_read_when_they_change<C>(
    kept: Map<Seq<Seq<u8>>, (Stamp, C)>,
    path: Seq<Seq<u8>>,
    now: Stamp,
)
    ensures
        crate::hosts::served(kept, path, None) is Empty,
        crate::hosts::served(kept, path, Some(now)) is Cached <==> kept.contains_key(path)
            && kept[path].0.modified == now.modified && kept[path].0.len == now.len,
        crate::hosts::served(kept, path, Some(now)) is Cached || crate::hosts::served(
            kept,
            path,
            Some(now),
        ) is Parse,
{
}

/// What was parsed is kept with the stamp that the file had, and an empty
/// configuration where it could not be; then it is served. Looking for a file
/// that is there changes nothing, and one that is gone is forgotten. No other
/// file is touched by any of this.
pub proof fn law_parsed_files_are_kept<C>(
    kept: Map<Seq<Seq<u8>>, (Stamp, C)>,
    path: Seq<Seq<u8>>,
    other: Seq<Seq<u8>>,
    stamp: Stamp,
    parsed: Option<C>,
    empty: C,
)
    requires
        other != path,
    ensures
        ({
            let stored = crate::hosts::kept_after_store(kept, path, stamp, parsed, empty);
            &&& stored.contains_key(path) && stored[path].0 == stamp
            &&& parsed matches Some(config) ==> crate::hosts::kept_config(stored, path) == Some(
                config,
            )
            &&& parsed is None ==> crate::hosts::kept_config(stored, path) == Some(empty)
            &&& crate::hosts::kept_config(stored, other) == crate::hosts::kept_config(kept, other)
            &&& crate::hosts::served(stored, path, Some(stamp)) is Cached
            &&& stored.contains_key(other) <==> kept.contains_key(other)
            &&& kept.contains_key(other) ==> stored[other] == kept[other]
        }),
        crate::hosts::kept_after_read(kept, path, Some(stamp)) == kept,
        ({
            let gone = crate::hosts::kept_after_read(kept, path, None);
            &&& !gone.contains_key(path)
            &&& crate::hosts::kept_config(gone, path) is None
            &&& crate::hosts::kept_config(gone, other) == crate::hosts::kept_config(kept, other)
            &&& gone.contains_key(other) <==> kept.contains_key(other)
            &&& kept.contains_key(other) ==> gone[other] == kept[other]
        }),
{
}

} // verus!
