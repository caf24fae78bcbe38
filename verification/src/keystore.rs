//! The layout of the secret store on disk.
//!
//! A store keeps, under its root, a node key per node, a keystore directory
//! per node with one file per typed key, and one file per wallet. This
//! module decides names, places and which files stand for a key; reading and
//! writing them is the caller's work.

use vstd::prelude::*;
use vstd::string::*;
use crate::paths::{is_dir, join, path_join};
use crate::text::{join_text, starts_with, str_eq, strip_prefix};

verus! {

/// A decoding error of the identity library.
#[verifier::external_type_specification]
#[verifier::external_body]
pub struct ExDecodingError(libp2p::identity::DecodingError);

/// An error of the JSON library.
#[verifier::external_type_specification]
#[verifier::external_body]
pub struct ExJsonError(serde_json::Error);

/// Number of characters of the role tag of a typed key.
pub const ROLE_TAG_LEN: usize = 4;

/// Number of bytes of a node's secret key.
pub const NODE_SECRET_LEN: usize = 32;

/// The directory that stands for the keystore of a node without keys.
pub const EMPTY_KEYSTORE_DIR: &'static str = "/var/empty";

/// Why a store operation was refused.
#[derive(Debug)]
pub enum KeystoreError {
    /// The bytes of a node key are no secret key.
    IdentityDecoding(libp2p::identity::DecodingError),
    /// A role tag does not have four characters.
    InvalidKeystoreTy,
    /// A keystore directory holds something that is no file.
    UnsupportedKeystoreEntry,
    /// A secret file does not hold a JSON string.
    Json(serde_json::Error),
    /// More than one file stands for the typed key with this role tag.
    DuplicateKeyByType(String),
    /// A parameter is missing or wrong.
    InvalidParameter(&'static str),
}

/// The lower-case hexadecimal digit of `n`, for `n` below sixteen.
pub open spec fn hex_digit(n: int) -> char {
    if n < 10 {
        (48 + n) as char
    } else {
        (87 + n) as char
    }
}

/// `bytes` in lower-case hexadecimal, two digits per byte.
pub open spec fn hex_text(bytes: Seq<u8>) -> Seq<char> {
    Seq::new(
        2 * bytes.len(),
        |i: int|
            if i % 2 == 0 {
                hex_digit(bytes[i / 2] as int / 16)
            } else {
                hex_digit(bytes[i / 2] as int % 16)
            },
    )
}

/// The JSON string literal that holds `text`.
pub uninterp spec fn json_text(text: Seq<char>) -> Seq<char>;

/// The text that the JSON string `data` holds, where `data` is one.
pub uninterp spec fn json_parsed_text(data: Seq<char>) -> Option<Seq<char>>;

/// The peer id, in base 58, of the node whose secret key is `secret`.
pub uninterp spec fn peer_id_of_secret(secret: Seq<u8>) -> Seq<char>;

/// `hex::encode`: each byte as two lower-case hexadecimal digits.
#[verifier::external_body]
fn hex_encode(bytes: &[u8]) -> (text: String)
    ensures
        text@ == hex_text(bytes@),
{
    hex::encode(bytes)
}

/// `serde_json::to_string` on a string: its JSON literal. A string always
/// has one.
#[verifier::external_body]
fn json_encode_text(text: &str) -> (data: String)
    ensures
        data@ == json_text(text@),
{
    serde_json::to_string(text).expect("a string has a JSON form")
}

/// `serde_json::from_str` for a string: the text of the JSON string that
/// `data` is, or the library's error.
#[verifier::external_body]
fn json_decode_text(data: &str) -> (text: Result<String, serde_json::Error>)
    ensures
        text matches Ok(t) ==> json_parsed_text(data@) == Some(t@),
        text is Err ==> json_parsed_text(data@) is None,
{
    serde_json::from_str::<String>(data)
}

/// `ed25519::Keypair::generate`, then its secret key's bytes. The key is
/// random; it has thirty-two bytes.
#[verifier::external_body]
fn generate_secret() -> (secret: Vec<u8>)
    ensures
        secret.len() == NODE_SECRET_LEN,
{
    libp2p::identity::ed25519::Keypair::generate().secret().as_ref().to_vec()
}

/// `ed25519::SecretKey::try_from_bytes`, then `PeerId::from_public_key` on
/// the key pair's public key and `PeerId::to_base58`. Decoding fails exactly
/// where the bytes are not thirty-two.
#[verifier::external_body]
fn peer_id(secret: Vec<u8>) -> (peer: Result<String, libp2p::identity::DecodingError>)
    ensures
        peer is Ok <==> secret.len() == NODE_SECRET_LEN,
        peer matches Ok(text) ==> text@ == peer_id_of_secret(secret@),
{
    let key = libp2p::identity::ed25519::SecretKey::try_from_bytes(secret)?;
    let pair = libp2p::identity::ed25519::Keypair::from(key);
    Ok(libp2p::identity::PeerId::from_public_key(&pair.public().into()).to_base58())
}

/// A fresh secret key for a node.
pub fn generate_node_key() -> (secret: Vec<u8>)
    ensures
        secret.len() == NODE_SECRET_LEN,
{
    generate_secret()
}

/// The identity of the node whose secret key is `secret`.
pub fn node_id(secret: Vec<u8>) -> (id: Result<String, KeystoreError>)
    ensures
        secret.len() == NODE_SECRET_LEN ==> (id matches Ok(text) && text@ == peer_id_of_secret(secret@)),
        secret.len() != NODE_SECRET_LEN ==> (id matches Err(KeystoreError::IdentityDecoding(_))),
{
    match peer_id(secret) {
        Ok(text) => Ok(text),
        Err(error) => Err(KeystoreError::IdentityDecoding(error)),
    }
}

/// What a secret file holds for the secret `suri`.
pub fn encode_secret(suri: &str) -> (data: String)
    ensures
        data@ == json_text(suri@),
{
    json_encode_text(suri)
}

/// The secret that a secret file with the contents `data` holds.
pub fn decode_secret(data: &str) -> (suri: Result<String, KeystoreError>)
    ensures
        json_parsed_text(data@) matches Some(text) ==> (suri matches Ok(s) && s@ == text),
        json_parsed_text(data@) is None ==> (suri matches Err(KeystoreError::Json(_))),
{
    match json_decode_text(data) {
        Ok(text) => Ok(text),
        Err(error) => Err(KeystoreError::Json(error)),
    }
}

/// The prefix that the files of the typed key `ty` begin with: the tag's
/// bytes in hexadecimal.
pub open spec fn typed_prefix(ty: Seq<char>) -> Seq<char> {
    hex_text(vstd::utf8::encode_utf8(ty))
}

/// The prefix of the files that stand for the typed key with the role tag
/// `ty`. A tag that does not have four characters is refused, before any
/// file is named.
pub fn typed_key_prefix(ty: &str) -> (prefix: Result<String, KeystoreError>)
    ensures
        ty@.len() == ROLE_TAG_LEN ==> (prefix matches Ok(p) && p@ == typed_prefix(ty@)),
        ty@.len() != ROLE_TAG_LEN ==> (prefix matches Err(KeystoreError::InvalidKeystoreTy)),
{
    if ty.unicode_len() != ROLE_TAG_LEN {
        return Err(KeystoreError::InvalidKeystoreTy);
    }
    Ok(hex_encode(ty.as_bytes()))
}

/// The name of the file that stands for the typed key with the role tag `ty`
/// and the public key `public`: both in hexadecimal, one after the other.
pub fn typed_key_name(ty: &str, public: &[u8]) -> (name: Result<String, KeystoreError>)
    ensures
        ty@.len() == ROLE_TAG_LEN ==> (name matches Ok(n) && n@ == typed_prefix(ty@) + hex_text(
            public@,
        )),
        ty@.len() != ROLE_TAG_LEN ==> (name matches Err(KeystoreError::InvalidKeystoreTy)),
{
    let mut name = typed_key_prefix(ty)?;
    let public_hex = hex_encode(public);
    name.append(public_hex.as_str());
    Ok(name)
}

/// The name of the file that holds the wallet of `name` with the role tag
/// `ty`.
pub fn wallet_file_name(name: &str, ty: &str) -> (file: String)
    ensures
        file@ == name@ + "-"@ + ty@,
{
    let mut file = join_text(name, "-");
    file.append(ty);
    file
}

/// An entry of a keystore directory.
#[derive(Debug, Clone)]
pub struct KeystoreEntry {
    /// The entry's name.
    pub name: String,
    /// Whether the entry is a regular file.
    pub is_file: bool,
    /// What the file holds. It is read only where the name begins with the
    /// prefix looked for.
    pub data: String,
}

/// What removing the stale files of a typed key comes to.
#[derive(Debug)]
pub struct Sweep {
    /// The names of the files to remove, in the directory's order.
    pub remove: Vec<String>,
    /// Whether the sweep met an entry that is no file, and stopped there.
    pub blocked: bool,
}

/// Whether the entry `entry` is a stale file of the key whose files begin
/// with `prefix` and whose current file is `current`.
pub open spec fn is_stale(entry: KeystoreEntry, prefix: Seq<char>, current: Seq<char>) -> bool {
    prefix.is_prefix_of(entry.name@) && entry.name@ != current
}

/// The names to remove among the first `upto` of `entries`, and whether one
/// of them is no file. The sweep stops at the first entry that is no file.
pub open spec fn swept(entries: Seq<KeystoreEntry>, prefix: Seq<char>, current: Seq<char>, upto: int) -> (
    Seq<Seq<char>>,
    bool,
)
    decreases upto,
{
    if upto <= 0 || upto > entries.len() {
        (Seq::empty(), false)
    } else {
        let before = swept(entries, prefix, current, upto - 1);
        if before.1 {
            before
        } else if !entries[upto - 1].is_file {
            (before.0, true)
        } else if is_stale(entries[upto - 1], prefix, current) {
            (before.0.push(entries[upto - 1].name@), false)
        } else {
            before
        }
    }
}

/// After the file `current` was written for a typed key, says which files of
/// `entries` to remove: those that begin with `prefix` and are not
/// `current`, so that one file is left for the key.
pub fn sweep_stale(entries: &Vec<KeystoreEntry>, prefix: &str, current: &str) -> (sweep: Sweep)
    ensures
        sweep.remove.deep_view() == swept(entries@, prefix@, current@, entries.len() as int).0,
        sweep.blocked == swept(entries@, prefix@, current@, entries.len() as int).1,
{
    let mut remove: Vec<String> = Vec::new();
    let mut i: usize = 0;
    while i < entries.len()
        invariant
            i <= entries.len(),
            remove.deep_view() == swept(entries@, prefix@, current@, i as int).0,
            !swept(entries@, prefix@, current@, i as int).1,
        decreases entries.len() - i,
    {
        if !entries[i].is_file {
            proof {
                lemma_blocked_stays(entries@, prefix@, current@, i as int + 1, entries.len() as int);
            }
            return Sweep { remove, blocked: true };
        }
        if starts_with(entries[i].name.as_str(), prefix) && !str_eq(entries[i].name.as_str(), current) {
            let ghost before = remove.deep_view();
            remove.push(entries[i].name.clone());
            assert(remove.deep_view() =~= before.push(entries[i as int].name@));
        }
        i += 1;
    }
    Sweep { remove, blocked: false }
}

/// Once a sweep is blocked it stays as it is.
proof fn lemma_blocked_stays(
    entries: Seq<KeystoreEntry>,
    prefix: Seq<char>,
    current: Seq<char>,
    at: int,
    upto: int,
)
    requires
        0 < at <= upto <= entries.len(),
        swept(entries, prefix, current, at).1,
    ensures
        swept(entries, prefix, current, upto) == swept(entries, prefix, current, at),
    decreases upto - at,
{
    if at < upto {
        lemma_blocked_stays(entries, prefix, current, at, upto - 1);
    }
}

/// What looking a typed key up in a keystore directory comes to.
pub enum Lookup {
    /// The secret of the one file that stands for the key, or nothing.
    Found(Option<Seq<char>>),
    /// An entry is no file.
    Unsupported,
    /// A file of the key does not hold a JSON string.
    BadSecret,
    /// A second file stands for the key.
    Duplicate,
}

/// The lookup over the entries from `from` on, where `found` is what the
/// entries before gave.
pub open spec fn looked_up(entries: Seq<KeystoreEntry>, prefix: Seq<char>, from: int, found: Option<
    Seq<char>,
>) -> Lookup
    decreases entries.len() - from,
{
    if from < 0 || from >= entries.len() {
        Lookup::Found(found)
    } else if !entries[from].is_file {
        Lookup::Unsupported
    } else if !prefix.is_prefix_of(entries[from].name@) {
        looked_up(entries, prefix, from + 1, found)
    } else {
        match json_parsed_text(entries[from].data@) {
            None => Lookup::BadSecret,
            Some(suri) => if found is Some {
                Lookup::Duplicate
            } else {
                looked_up(entries, prefix, from + 1, Some(suri))
            },
        }
    }
}

/// The secret of the typed key with the role tag `ty` among the entries of a
/// keystore directory.
///
/// The files of the key are those whose names begin with the key's prefix.
/// None gives nothing, one gives its secret, and a second one is a
/// duplicate. The role tag is checked before any entry is looked at.
pub fn find_typed(entries: &Vec<KeystoreEntry>, ty: &str) -> (result: Result<Option<String>, KeystoreError>)
    ensures
        ty@.len() != ROLE_TAG_LEN ==> (result matches Err(KeystoreError::InvalidKeystoreTy)),
        ty@.len() == ROLE_TAG_LEN ==> match looked_up(entries@, typed_prefix(ty@), 0, None) {
            Lookup::Found(found) => result matches Ok(secret) && secret.deep_view() == found,
            Lookup::Unsupported => result matches Err(KeystoreError::UnsupportedKeystoreEntry),
            Lookup::BadSecret => result matches Err(KeystoreError::Json(_)),
            Lookup::Duplicate => result matches Err(KeystoreError::DuplicateKeyByType(tag)) && tag@ == ty@,
        },
{
    let prefix = typed_key_prefix(ty)?;
    let mut found: Option<String> = None;
    let mut i: usize = 0;
    while i < entries.len()
        invariant
            i <= entries.len(),
            ty@.len() == ROLE_TAG_LEN,
            prefix@ == typed_prefix(ty@),
            looked_up(entries@, typed_prefix(ty@), 0, None) == looked_up(
                entries@,
                typed_prefix(ty@),
                i as int,
                found.deep_view(),
            ),
        decreases entries.len() - i,
    {
        if !entries[i].is_file {
            return Err(KeystoreError::UnsupportedKeystoreEntry);
        }
        if starts_with(entries[i].name.as_str(), prefix.as_str()) {
            let suri = decode_secret(entries[i].data.as_str())?;
            if found.is_some() {
                return Err(KeystoreError::DuplicateKeyByType(String::from_str(ty)));
            }
            found = Some(suri);
        }
        i += 1;
    }
    Ok(found)
}

/// A sweep over files only removes every stale file of the key.
pub proof fn law_sweep_removes_every_stale(
    entries: Seq<KeystoreEntry>,
    prefix: Seq<char>,
    current: Seq<char>,
    upto: int,
    index: int,
)
    requires
        0 <= index < upto <= entries.len(),
        forall|i: int| 0 <= i < entries.len() ==> (#[trigger] entries[i]).is_file,
        is_stale(entries[index], prefix, current),
    ensures
        !swept(entries, prefix, current, upto).1,
        swept(entries, prefix, current, upto).0.contains(entries[index].name@),
    decreases upto,
{
    lemma_sweep_of_files(entries, prefix, current, upto);
    let names = swept(entries, prefix, current, upto).0;
    if index == upto - 1 {
        lemma_sweep_of_files(entries, prefix, current, upto - 1);
        assert(names[names.len() - 1] == entries[index].name@);
    } else {
        law_sweep_removes_every_stale(entries, prefix, current, upto - 1, index);
        let before = swept(entries, prefix, current, upto - 1).0;
        let k = choose|k: int| 0 <= k < before.len() && before[k] == entries[index].name@;
        assert(names[k] == entries[index].name@);
    }
}

/// A sweep removes nothing but stale files of the key.
pub proof fn law_sweep_removes_only_stale(
    entries: Seq<KeystoreEntry>,
    prefix: Seq<char>,
    current: Seq<char>,
    upto: int,
    position: int,
)
    requires
        0 <= upto <= entries.len(),
        0 <= position < swept(entries, prefix, current, upto).0.len(),
    ensures
        exists|i: int|
            0 <= i < upto && is_stale(#[trigger] entries[i], prefix, current) && entries[i].is_file
                && swept(entries, prefix, current, upto).0[position] == entries[i].name@,
    decreases upto,
{
    if upto > 0 {
        let before = swept(entries, prefix, current, upto - 1);
        if position < before.0.len() {
            law_sweep_removes_only_stale(entries, prefix, current, upto - 1, position);
            let i = choose|i: int|
                0 <= i < upto - 1 && is_stale(#[trigger] entries[i], prefix, current)
                    && entries[i].is_file && before.0[position] == entries[i].name@;
            assert(is_stale(entries[i], prefix, current));
        } else {
            assert(is_stale(entries[upto - 1], prefix, current));
        }
    }
}

proof fn lemma_sweep_of_files(entries: Seq<KeystoreEntry>, prefix: Seq<char>, current: Seq<char>, upto: int)
    requires
        0 <= upto <= entries.len(),
        forall|i: int| 0 <= i < entries.len() ==> (#[trigger] entries[i]).is_file,
    ensures
        !swept(entries, prefix, current, upto).1,
    decreases upto,
{
    if upto > 0 {
        lemma_sweep_of_files(entries, prefix, current, upto - 1);
    }
}

/// In a directory where at most one file begins with the prefix, a lookup
/// finds no duplicate.
pub proof fn law_single_file_is_no_duplicate(
    entries: Seq<KeystoreEntry>,
    prefix: Seq<char>,
    from: int,
    found: Option<Seq<char>>,
)
    requires
        0 <= from <= entries.len(),
        forall|i: int, j: int|
            0 <= i < entries.len() && 0 <= j < entries.len() && prefix.is_prefix_of(
                (#[trigger] entries[i]).name@,
            ) && prefix.is_prefix_of((#[trigger] entries[j]).name@) ==> i == j,
        found is Some ==> exists|j: int|
            0 <= j < from && prefix.is_prefix_of((#[trigger] entries[j]).name@),
    ensures
        !(looked_up(entries, prefix, from, found) is Duplicate),
    decreases entries.len() - from,
{
    if from < entries.len() && entries[from].is_file {
        if !prefix.is_prefix_of(entries[from].name@) {
            law_single_file_is_no_duplicate(entries, prefix, from + 1, found);
        } else {
            match json_parsed_text(entries[from].data@) {
                None => {},
                Some(suri) => {
                    if found is Some {
                        let j = choose|j: int|
                            0 <= j < from && prefix.is_prefix_of((#[trigger] entries[j]).name@);
                        assert(j == from);
                    } else {
                        assert(prefix.is_prefix_of(entries[from].name@));
                        law_single_file_is_no_duplicate(entries, prefix, from + 1, Some(suri));
                    }
                },
            }
        }
    }
}

/// After a sweep, the directory holds no duplicate of the key.
///
/// `kept` is what is left of the files `entries` once the names that the
/// sweep gives are removed. No two entries of a directory have one name.
pub proof fn law_swept_directory_has_no_duplicate(
    entries: Seq<KeystoreEntry>,
    kept: Seq<KeystoreEntry>,
    prefix: Seq<char>,
    current: Seq<char>,
)
    requires
        forall|i: int| 0 <= i < entries.len() ==> (#[trigger] entries[i]).is_file,
        forall|k: int|
            0 <= k < kept.len() ==> exists|i: int|
                0 <= i < entries.len() && #[trigger] entries[i] == #[trigger] kept[k],
        forall|k: int|
            0 <= k < kept.len() ==> !swept(
                entries,
                prefix,
                current,
                entries.len() as int,
            ).0.contains((#[trigger] kept[k]).name@),
        forall|i: int, j: int|
            0 <= i < j < kept.len() ==> (#[trigger] kept[i]).name@ != (#[trigger] kept[j]).name@,
    ensures
        !(looked_up(kept, prefix, 0, None) is Duplicate),
{
    assert forall|k: int|
        0 <= k < kept.len() && prefix.is_prefix_of((#[trigger] kept[k]).name@) implies kept[k].name@
        == current by {
        let i = choose|i: int| 0 <= i < entries.len() && #[trigger] entries[i] == kept[k];
        if is_stale(entries[i], prefix, current) {
            law_sweep_removes_every_stale(entries, prefix, current, entries.len() as int, i);
        }
    }
    assert forall|i: int, j: int|
        0 <= i < kept.len() && 0 <= j < kept.len() && prefix.is_prefix_of(
            (#[trigger] kept[i]).name@,
        ) && prefix.is_prefix_of((#[trigger] kept[j]).name@) implies i == j by {
        if i < j {
            assert(kept[i].name@ != kept[j].name@);
        }
        if j < i {
            assert(kept[j].name@ != kept[i].name@);
        }
    }
    law_single_file_is_no_duplicate(kept, prefix, 0, None);
}

/// The secret store on disk, by its root directory.
#[derive(Debug, Clone)]
pub struct FileNodeKeys {
    /// The directory that holds the store.
    pub root: String,
}

/// `path` where it names a directory, nothing where it does not.
pub fn existing_dir(path: String, is_dir: bool) -> (found: Option<String>)
    ensures
        is_dir ==> found == Some(path),
        !is_dir ==> found is None,
{
    if is_dir {
        Some(path)
    } else {
        None
    }
}

impl FileNodeKeys {
    /// Where the node keys are kept.
    pub open spec fn node_keys_place(self) -> Seq<char> {
        path_join(self.root@, "node"@)
    }

    /// Where the keystore of `node` is kept.
    pub open spec fn keystore_place(self, node: Seq<char>) -> Seq<char> {
        path_join(self.root@, "keystore/"@ + node)
    }

    /// Where the wallets are kept.
    pub open spec fn wallet_place(self) -> Seq<char> {
        path_join(self.root@, "wallet"@)
    }

    /// The directory of the node keys, whether it exists or not. It lies
    /// under the root.
    pub fn node_keys_path(&self) -> (path: String)
        ensures
            path@ == self.node_keys_place(),
            self.root@.is_prefix_of(path@),
    {
        proof {
            reveal_strlit("node");
        }
        join(self.root.as_str(), "node")
    }

    /// The keystore directory of `node`, whether it exists or not. It lies
    /// under the root.
    pub fn keystore_path(&self, node: &str) -> (path: String)
        ensures
            path@ == self.keystore_place(node@),
            self.root@.is_prefix_of(path@),
    {
        proof {
            reveal_strlit("keystore/");
        }
        let rel = join_text("keystore/", node);
        join(self.root.as_str(), rel.as_str())
    }

    /// The directory of the wallets, whether it exists or not. It lies
    /// under the root.
    pub fn wallet_path(&self) -> (path: String)
        ensures
            path@ == self.wallet_place(),
            self.root@.is_prefix_of(path@),
    {
        proof {
            reveal_strlit("wallet");
        }
        join(self.root.as_str(), "wallet")
    }

    /// The directory of the node keys, where the disk has it. What the disk
    /// answers decides between the two outcomes, as [`existing_dir`] says.
    pub fn node_keys_dir(&self) -> (result: Result<Option<String>, KeystoreError>)
        ensures
            result matches Ok(found) && (found matches Some(dir) ==> dir@ == self.node_keys_place()),
    {
        let path = self.node_keys_path();
        let found = is_dir(path.as_str());
        Ok(existing_dir(path, found))
    }

    /// The keystore directory of `node`, where the disk has it.
    pub fn keystore_dir(&self, node: &str) -> (result: Result<Option<String>, KeystoreError>)
        ensures
            result matches Ok(found) && (found matches Some(dir) ==> dir@ == self.keystore_place(
                node@,
            )),
    {
        let path = self.keystore_path(node);
        let found = is_dir(path.as_str());
        Ok(existing_dir(path, found))
    }

    /// The directory of the wallets, where the disk has it.
    pub fn wallet_dir(&self) -> (result: Result<Option<String>, KeystoreError>)
        ensures
            result matches Ok(found) && (found matches Some(dir) ==> dir@ == self.wallet_place()),
    {
        let path = self.wallet_path();
        let found = is_dir(path.as_str());
        Ok(existing_dir(path, found))
    }

    /// The file that holds the key of the node `name`.
    pub fn node_key_file(&self, name: &str) -> (file: String)
        ensures
            file@ == path_join(self.node_keys_place(), name@),
    {
        let dir = self.node_keys_path();
        join(dir.as_str(), name)
    }

    /// The file that holds the wallet of `name` with the role tag `ty`.
    pub fn wallet_file(&self, name: &str, ty: &str) -> (file: String)
        ensures
            file@ == path_join(self.wallet_place(), name@ + "-"@ + ty@),
    {
        let dir = self.wallet_path();
        let file = wallet_file_name(name, ty);
        join(dir.as_str(), file.as_str())
    }

    /// The keystore directory to mount for `node`: its own where the disk
    /// has it, the empty directory where it does not. What the disk answers
    /// decides between the two, as [`keystore_or_placeholder`] says.
    pub fn local_keystore_dir(&self, node: &str) -> (result: Result<Option<String>, KeystoreError>)
        ensures
            result matches Ok(Some(dir)) && (dir@ == self.keystore_place(node@) || dir@
                == EMPTY_KEYSTORE_DIR@),
    {
        let found = self.keystore_dir(node)?;
        Ok(Some(keystore_or_placeholder(found)))
    }

    /// The file of the key of `node`, where the disk has the directory of
    /// the node keys. What the disk answers decides between the two
    /// outcomes, as [`node_file_in`] says.
    pub fn local_node_file(&self, node: &str) -> (result: Result<Option<String>, KeystoreError>)
        ensures
            result matches Ok(found) && (found matches Some(file) ==> file@ == path_join(
                self.node_keys_place(),
                node@,
            )),
    {
        let dir = self.node_keys_dir()?;
        Ok(node_file_in(dir, node))
    }
}

/// The keystore directory that was found, or the directory that stands for
/// an empty keystore where none was.
pub fn keystore_or_placeholder(found: Option<String>) -> (dir: String)
    ensures
        found matches Some(d) ==> dir == d,
        found is None ==> dir@ == EMPTY_KEYSTORE_DIR@,
{
    match found {
        Some(dir) => dir,
        None => String::from_str(EMPTY_KEYSTORE_DIR),
    }
}

/// The file of the key of `node` in the directory `dir` of the node keys,
/// nothing where there is no such directory.
pub fn node_file_in(dir: Option<String>, node: &str) -> (file: Option<String>)
    ensures
        dir matches Some(d) ==> (file matches Some(f) && f@ == path_join(d@, node@)),
        dir is None ==> file is None,
{
    match dir {
        Some(dir) => Some(join(dir.as_str(), node)),
        None => None,
    }
}

/// Where and how secrets are stored.
#[derive(Debug, Clone)]
pub enum SecretBackend {
    /// In files under a root directory.
    File(FileNodeKeys),
    /// Nowhere: every use fails.
    Unset,
}

impl SecretBackend {
    /// Reads a backend from its command-line form: `file=` and a path, taken
    /// relative to the working directory `cwd`. Anything else is unset.
    pub fn from_str(s: &str, cwd: &str) -> (backend: SecretBackend)
        ensures
            "file="@.is_prefix_of(s@) ==> (backend matches SecretBackend::File(store) && store.root@
                == path_join(cwd@, s@.skip("file="@.len() as int))),
            !"file="@.is_prefix_of(s@) ==> backend is Unset,
    {
        match strip_prefix(s, "file=") {
            Some(file) => SecretBackend::File(FileNodeKeys { root: join(cwd, file) }),
            None => SecretBackend::Unset,
        }
    }

    /// The store behind the backend. An unset backend has none.
    pub fn store(&self) -> (result: Result<&FileNodeKeys, KeystoreError>)
        ensures
            self matches SecretBackend::File(store) ==> result == Ok::<&FileNodeKeys, KeystoreError>(store),
            self is Unset ==> (result matches Err(KeystoreError::InvalidParameter(text)) && text@
                == "secret backend is not set"@),
    {
        match self {
            SecretBackend::File(store) => Ok(store),
            SecretBackend::Unset => Err(KeystoreError::InvalidParameter("secret backend is not set")),
        }
    }
}

impl Default for SecretBackend {
    fn default() -> (backend: SecretBackend)
        ensures
            backend is Unset,
    {
        SecretBackend::Unset
    }
}

} // verus!
