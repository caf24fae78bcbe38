use baedeker::keystore::{
    decode_secret, encode_secret, existing_dir, find_typed, generate_node_key, keystore_or_placeholder,
    node_file_in, node_id, sweep_stale,
    typed_key_name, typed_key_prefix, wallet_file_name, FileNodeKeys, KeystoreEntry, KeystoreError,
    SecretBackend, EMPTY_KEYSTORE_DIR,
};

fn file(name: &str, data: &str) -> KeystoreEntry {
    KeystoreEntry { name: name.to_string(), is_file: true, data: data.to_string() }
}

fn dir(name: &str) -> KeystoreEntry {
    KeystoreEntry { name: name.to_string(), is_file: false, data: String::new() }
}

#[test]
fn typed_key_prefix_is_hex_of_tag() {
    assert_eq!(typed_key_prefix("aura").unwrap(), "61757261");
}

#[test]
fn typed_key_name_joins_tag_and_public_key() {
    let name = typed_key_name("gran", &[0x00, 0x0f, 0xa0, 0xff]).unwrap();
    assert_eq!(name, "6772616e000fa0ff");
}

#[test]
fn role_tag_of_three_or_five_characters_is_refused() {
    assert!(matches!(typed_key_prefix("aur"), Err(KeystoreError::InvalidKeystoreTy)));
    assert!(matches!(typed_key_prefix("auras"), Err(KeystoreError::InvalidKeystoreTy)));
    assert!(matches!(typed_key_name("abc", &[1]), Err(KeystoreError::InvalidKeystoreTy)));
    assert!(matches!(
        find_typed(&vec![dir("blocking")], "toolong"),
        Err(KeystoreError::InvalidKeystoreTy)
    ));
}

#[test]
fn role_tag_counts_characters_not_bytes() {
    assert_eq!(typed_key_prefix("aur\u{e9}").unwrap(), "617572c3a9");
}

#[test]
fn wallet_file_name_joins_name_and_tag() {
    assert_eq!(wallet_file_name("alice", "stash"), "alice-stash");
}

#[test]
fn secret_round_trips_through_its_file_form() {
    let data = encode_secret("bottom drive \"obey\" lake");
    assert_eq!(data, r#""bottom drive \"obey\" lake""#);
    assert_eq!(decode_secret(&data).unwrap(), "bottom drive \"obey\" lake");
}

#[test]
fn secret_file_must_hold_a_json_string() {
    assert!(matches!(decode_secret("not json"), Err(KeystoreError::Json(_))));
    assert!(matches!(decode_secret("12"), Err(KeystoreError::Json(_))));
}

#[test]
fn lookup_finds_the_one_file_of_the_tag() {
    let entries = vec![
        file("6772616eaa", "\"other secret\""),
        file("61757261bb", "\"aura secret\""),
        file("unrelated", "not even json"),
    ];
    assert_eq!(find_typed(&entries, "aura").unwrap(), Some("aura secret".to_string()));
    assert_eq!(find_typed(&entries, "gran").unwrap(), Some("other secret".to_string()));
    assert_eq!(find_typed(&entries, "babe").unwrap(), None);
    assert_eq!(find_typed(&Vec::new(), "aura").unwrap(), None);
}

#[test]
fn two_files_of_one_tag_are_a_duplicate() {
    let entries = vec![file("61757261aa", "\"first\""), file("61757261bb", "\"second\"")];
    assert!(matches!(
        find_typed(&entries, "aura"),
        Err(KeystoreError::DuplicateKeyByType(tag)) if tag == "aura"
    ));
}

#[test]
fn lookup_refuses_entries_that_are_no_files() {
    let entries = vec![file("61757261aa", "\"first\""), dir("sub")];
    assert!(matches!(find_typed(&entries, "aura"), Err(KeystoreError::UnsupportedKeystoreEntry)));
}

#[test]
fn lookup_reports_a_file_that_holds_no_secret() {
    let entries = vec![file("61757261aa", "\"first\""), file("61757261bb", "garbage")];
    assert!(matches!(find_typed(&entries, "aura"), Err(KeystoreError::Json(_))));
}

#[test]
fn sweep_removes_other_files_of_the_tag() {
    let entries = vec![
        file("61757261old1", ""),
        file("6772616ekeep", ""),
        file("61757261new", ""),
        file("61757261old2", ""),
    ];
    let sweep = sweep_stale(&entries, "61757261", "61757261new");
    assert_eq!(sweep.remove, vec!["61757261old1".to_string(), "61757261old2".to_string()]);
    assert!(!sweep.blocked);
    let sweep = sweep_stale(&entries, "00000000", "00000000new");
    assert!(sweep.remove.is_empty());
}

#[test]
fn sweep_stops_at_an_entry_that_is_no_file() {
    let entries = vec![file("61757261old1", ""), dir("sub"), file("61757261old2", "")];
    let sweep = sweep_stale(&entries, "61757261", "61757261new");
    assert_eq!(sweep.remove, vec!["61757261old1".to_string()]);
    assert!(sweep.blocked);
}

#[test]
fn node_key_has_thirty_two_bytes_and_an_identity() {
    let secret = generate_node_key();
    assert_eq!(secret.len(), 32);
    assert_ne!(secret, generate_node_key());
    let id = node_id(secret.clone()).unwrap();
    assert!(id.starts_with("12D3KooW"));
    assert_eq!(id, node_id(secret).unwrap());
}

#[test]
fn node_identity_of_known_secret() {
    let id = node_id(vec![0u8; 32]).unwrap();
    assert_eq!(id, "12D3KooWDpJ7As7BWAwRMfu1VU2WCqNjvq387JEYKDBj4kx6nXTN");
    assert_ne!(id, node_id(vec![1u8; 32]).unwrap());
}

#[test]
fn node_key_of_wrong_length_is_refused() {
    assert!(matches!(node_id(vec![0u8; 31]), Err(KeystoreError::IdentityDecoding(_))));
    assert!(matches!(node_id(Vec::new()), Err(KeystoreError::IdentityDecoding(_))));
}

#[test]
fn store_places_lie_under_the_root() {
    let store = FileNodeKeys { root: "/secrets".to_string() };
    assert_eq!(store.node_keys_path(), "/secrets/node");
    assert_eq!(store.keystore_path("alice"), "/secrets/keystore/alice");
    assert_eq!(store.wallet_path(), "/secrets/wallet");
    assert_eq!(store.node_key_file("alice"), "/secrets/node/alice");
    assert_eq!(store.wallet_file("alice", "stash"), "/secrets/wallet/alice-stash");
}

#[test]
fn existing_dir_follows_the_disk() {
    assert_eq!(existing_dir("/a".to_string(), true), Some("/a".to_string()));
    assert_eq!(existing_dir("/a".to_string(), false), None);
}

#[test]
fn directories_that_do_not_exist_are_absent() {
    let root = tempfile::tempdir().unwrap();
    let store = FileNodeKeys { root: root.path().to_str().unwrap().to_string() };
    assert_eq!(store.node_keys_dir().unwrap(), None);
    assert_eq!(store.keystore_dir("alice").unwrap(), None);
    assert_eq!(store.wallet_dir().unwrap(), None);
    assert_eq!(store.local_keystore_dir("alice").unwrap(), Some(EMPTY_KEYSTORE_DIR.to_string()));
    assert_eq!(store.local_node_file("alice").unwrap(), None);
}

#[test]
fn directories_that_exist_are_found() {
    let root = tempfile::tempdir().unwrap();
    let node = tempfile::Builder::new().prefix("node").rand_bytes(0).tempdir_in(root.path()).unwrap();
    let wallet = tempfile::Builder::new().prefix("wallet").rand_bytes(0).tempdir_in(root.path()).unwrap();
    let keystore = tempfile::Builder::new().prefix("keystore").rand_bytes(0).tempdir_in(root.path()).unwrap();
    let alice = tempfile::Builder::new().prefix("alice").rand_bytes(0).tempdir_in(keystore.path()).unwrap();
    let store = FileNodeKeys { root: root.path().to_str().unwrap().to_string() };
    assert_eq!(store.node_keys_dir().unwrap(), Some(node.path().to_str().unwrap().to_string()));
    assert_eq!(store.wallet_dir().unwrap(), Some(wallet.path().to_str().unwrap().to_string()));
    assert_eq!(store.keystore_dir("alice").unwrap(), Some(alice.path().to_str().unwrap().to_string()));
    assert_eq!(store.keystore_dir("bob").unwrap(), None);
    assert_eq!(store.local_keystore_dir("alice").unwrap(), Some(alice.path().to_str().unwrap().to_string()));
    assert_eq!(
        store.local_node_file("alice").unwrap(),
        Some(node.path().join("alice").to_str().unwrap().to_string())
    );
}

#[test]
fn secret_backend_reads_file_form() {
    match SecretBackend::from_str("file=secrets", "/work") {
        SecretBackend::File(store) => assert_eq!(store.root, "/work/secrets"),
        other => panic!("unexpected {:?}", other),
    }
    match SecretBackend::from_str("file=/abs/secrets", "/work") {
        SecretBackend::File(store) => assert_eq!(store.root, "/abs/secrets"),
        other => panic!("unexpected {:?}", other),
    }
    assert!(matches!(SecretBackend::from_str("kubernetes", "/work"), SecretBackend::Unset));
    assert!(matches!(SecretBackend::default(), SecretBackend::Unset));
}

#[test]
fn unset_backend_fails_distinguishably() {
    assert!(matches!(
        SecretBackend::Unset.store(),
        Err(KeystoreError::InvalidParameter("secret backend is not set"))
    ));
    let backend = SecretBackend::from_str("file=s", "/w");
    assert_eq!(backend.store().unwrap().root, "/w/s");
}

#[test]
fn node_file_lies_in_the_directory_of_the_node_keys() {
    assert_eq!(node_file_in(Some("/secrets/node".to_string()), "alice"), Some("/secrets/node/alice".to_string()));
    assert_eq!(node_file_in(None, "alice"), None);
}

#[test]
fn missing_keystore_gives_the_placeholder() {
    assert_eq!(keystore_or_placeholder(None), "/var/empty");
    assert_eq!(keystore_or_placeholder(Some("/secrets/keystore/n".to_string())), "/secrets/keystore/n");
    let store = FileNodeKeys { root: "/nonexistent".to_string() };
    assert_eq!(store.local_keystore_dir("n").unwrap(), Some("/var/empty".to_string()));
}

#[test]
fn store_places_join_with_one_separator() {
    let store = FileNodeKeys { root: "/secrets/".to_string() };
    assert_eq!(store.node_keys_path(), "/secrets/node");
    assert_eq!(store.keystore_path("n"), "/secrets/keystore/n");
    let store = FileNodeKeys { root: String::new() };
    assert_eq!(store.wallet_path(), "wallet");
    let store = FileNodeKeys { root: "rel".to_string() };
    assert_eq!(store.node_key_file(""), "rel/node/");
    assert_eq!(store.node_key_file("/abs"), "/abs");
}
