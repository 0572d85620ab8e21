//! What holds of key files and key warnings as a whole.
use crate::keys::PublicKeyEvent;
use vstd::prelude::*;

verus! {

/// A mode is reported as insecure.
pub open spec fn mode_insecure(
    path: Seq<u8>,
    mode: u32,
    credentials_directory: Option<Seq<u8>>,
) -> bool {
    crate::keys::insecure_mode(path, mode, credentials_directory)
}

/// The credentials directory relaxes one bit only: reading by the group.
/// Nothing else that is insecure outside is secure inside.
pub proof fn law_credentials_relax_group_read_only(path: Seq<u8>, mode: u32, dir: Seq<u8>)
    ensures
        mode_insecure(path, mode, Some(dir)) ==> mode_insecure(path, mode, None),
        mode_insecure(path, mode, None) && !mode_insecure(path, mode, Some(dir)) ==> mode & 0o040
            != 0 && crate::paths::lies_under(path, dir),
        !mode_insecure(path, mode & !0o040, Some(dir)) ==> !mode_insecure(path, mode & !0o040, None),
{
    assert(mode & !0o100_740u32 != 0 ==> mode & !0o100_700u32 != 0) by (bit_vector);
    assert(mode & !0o100_700u32 != 0 && mode & !0o100_740u32 == 0 ==> mode & 0o040 != 0)
        by (bit_vector);
    assert((mode & !0o040) & !0o100_740u32 == 0 ==> (mode & !0o040) & !0o100_700u32 == 0)
        by (bit_vector);
}

/// A key that others can touch, or that the group can write or execute, is
/// insecure wherever it lies.
pub proof fn law_wider_access_is_insecure(
    path: Seq<u8>,
    mode: u32,
    credentials_directory: Option<Seq<u8>>,
)
    requires
        mode & 0o037 != 0,
    ensures
        mode_insecure(path, mode, credentials_directory),
{
    assert(mode & 0o037 != 0 ==> mode & !0o100_740u32 != 0) by (bit_vector);
    assert(mode & 0o037 != 0 ==> mode & !0o100_700u32 != 0) by (bit_vector);
}

/// A regular file for its owner alone is never reported.
pub proof fn law_owner_only_is_secure(
    path: Seq<u8>,
    owner_bits: u32,
    credentials_directory: Option<Seq<u8>>,
)
    requires
        owner_bits & !0o700u32 == 0,
    ensures
        !mode_insecure(path, owner_bits | 0o100_000, credentials_directory),
{
    assert(owner_bits & !0o700u32 == 0 ==> (owner_bits | 0o100_000) & !0o100_740u32 == 0)
        by (bit_vector);
    assert(owner_bits & !0o700u32 == 0 ==> (owner_bits | 0o100_000) & !0o100_700u32 == 0)
        by (bit_vector);
}

/// The environment decides where the private key is, then the configuration;
/// the default lies in the configuration directory.
pub proof fn law_private_key_sources_in_order(
    env_override: Seq<u8>,
    configured: Option<Seq<u8>>,
    setting: Seq<u8>,
    confbase: Seq<u8>,
)
    ensures
        crate::keys::private_key_location(Some(env_override), configured, confbase) == env_override,
        crate::keys::private_key_location(None, Some(setting), confbase) == setting,
        crate::paths::lies_under(crate::keys::private_key_location(None, None, confbase), confbase),
{
    let name = crate::keys::text_bytes("ed25519_key.priv");
    reveal_strlit("ed25519_key.priv");
    vstd::utf8::is_ascii_chars_encode_utf8("ed25519_key.priv"@);
    assert(name[0] == 'e' as u8);
    crate::paths::law_joined_lies_under(confbase, name);
}

/// Host files lie in the `hosts` directory of the configuration, as long as
/// the node's name is not itself an absolute path.
pub proof fn law_host_files_lie_under_hosts(confbase: Seq<u8>, name: Seq<u8>)
    requires
        name.len() == 0 || name[0] != crate::paths::SLASH,
    ensures
        crate::paths::lies_under(
            crate::keys::host_file(confbase, name),
            crate::paths::joined(confbase, crate::keys::text_bytes("hosts")),
        ),
        crate::paths::lies_under(crate::keys::host_file(confbase, name), confbase),
{
    let hosts = crate::keys::text_bytes("hosts");
    reveal_strlit("hosts");
    vstd::utf8::is_ascii_chars_encode_utf8("hosts"@);
    assert(hosts[0] == 'h' as u8);
    let dir = crate::paths::joined(confbase, hosts);
    crate::paths::law_joined_lies_under(confbase, hosts);
    crate::paths::law_joined_lies_under(dir, name);
    crate::paths::law_lies_under_is_an_order(crate::keys::host_file(confbase, name), dir, confbase);
}

/// An inline key is the only source there is then: no file makes up for one
/// that is malformed, and none outdoes one that is sound. Without an inline
/// key, only a file's block is one.
pub proof fn law_inline_keys_are_final(text: Seq<u8>, event: PublicKeyEvent)
    ensures
        event is Opened ==> crate::keys::key_found(Some(text), event) is None,
        text.len() != crate::keys::PUBLIC_B64_LEN ==> crate::keys::key_found(Some(text), event)
            is None,
        crate::keys::key_found(Some(text), event) matches Some(key) ==> {
            &&& event matches PublicKeyEvent::Decoded(Some(bytes)) && bytes@ == key
            &&& key.len() == crate::keys::PUBLIC_LEN
        },
        crate::keys::key_found(None, event) matches Some(key) ==> (
        event matches PublicKeyEvent::Opened(Ok(Ok(blob))) && blob@ == key),
{
}

/// Length of a base64 text of `len` bytes without padding: four digits for
/// three bytes, rounded up.
pub open spec fn unpadded_len(len: nat) -> nat {
    (4 * len + 2) / 3
}

/// A public key comes back from its own base64 text, which is 43 digits long,
/// whatever alphabet and bit order the coder uses: all it takes is that it
/// does not pad and that decoding undoes encoding for this key.
pub proof fn law_keys_survive_base64(
    encode: spec_fn(Seq<u8>) -> Seq<u8>,
    decode: spec_fn(Seq<u8>) -> Option<Seq<u8>>,
    key: Seq<u8>,
)
    requires
        key.len() == crate::keys::PUBLIC_LEN,
        encode(key).len() == unpadded_len(key.len()),
        decode(encode(key)) == Some(key),
    ensures
        encode(key).len() == crate::keys::PUBLIC_B64_LEN,
        crate::keys::decoded_key(encode(key), decode(encode(key))) == Some(key),
{
}

/// How many warnings a series of AES selections gives; each tells whether the
/// processor has AES instructions.
pub open spec fn aes_warnings(considered: bool, selections: Seq<bool>) -> nat
    decreases selections.len(),
{
    if selections.len() == 0 {
        0
    } else {
        (if crate::keys::aes_warns(considered, selections[0]) {
            1nat
        } else {
            0nat
        }) + aes_warnings(true, selections.drop_first())
    }
}

/// However often AES is selected, the warning comes at most once.
pub proof fn law_aes_warning_comes_once(considered: bool, selections: Seq<bool>)
    ensures
        aes_warnings(considered, selections) <= 1,
        considered ==> aes_warnings(considered, selections) == 0,
    decreases selections.len(),
{
    if selections.len() > 0 {
        law_aes_warning_comes_once(true, selections.drop_first());
    }
}

} // verus!
