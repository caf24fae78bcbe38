use std::collections::BTreeMap;

use baedeker::provision::{
    collect_aliases, collect_keys, generate_mnemonic, key_kind, key_lookups, lookup_for, node_write,
    plan_writes,
    AliasName, KeyKind, KeyLookup, KeyRequest, KeyWrite, ProvisionError, ProvisionedKeys, Provisioning,
    SignatureSchema, StoreAction, StoreEvent, TextMap, WantedKey, TYPED_KEY_WORDS, WALLET_WORDS,
};

fn scheme(name: &str) -> WantedKey {
    WantedKey { name: name.to_string(), request: KeyRequest::Scheme(SignatureSchema::Sr25519) }
}

fn alias(name: &str, target: &str) -> WantedKey {
    WantedKey {
        name: name.to_string(),
        request: KeyRequest::Alias(AliasName { alias: target.to_string() }),
    }
}

fn opaque(name: &str) -> WantedKey {
    WantedKey { name: name.to_string(), request: KeyRequest::Opaque }
}

/// A secret store in memory: what the provisioning protocol runs against.
struct Store {
    node: Option<String>,
    typed: BTreeMap<String, String>,
    wallets: BTreeMap<String, String>,
    writes: usize,
    generated: Vec<String>,
}

impl Store {
    fn empty() -> Store {
        Store { node: None, typed: BTreeMap::new(), wallets: BTreeMap::new(), writes: 0, generated: Vec::new() }
    }

    fn address(schema: SignatureSchema, suri: &str) -> String {
        format!("{:?}/{}", schema, suri)
    }

    fn answer(&self, lookup: &Option<KeyLookup>) -> Option<String> {
        let lookup = lookup.as_ref()?;
        let suri = if lookup.wallet { self.wallets.get(&lookup.role) } else { self.typed.get(&lookup.role) };
        suri.map(|suri| Store::address(lookup.scheme, suri))
    }

    fn apply(&mut self, write: &KeyWrite) {
        self.writes += 1;
        match write {
            KeyWrite::NodeKey => self.node = Some("node-identity".to_string()),
            KeyWrite::Wallet { role, words, .. } => {
                let suri = generate_mnemonic(*words).expect("a wallet has a word count");
                self.generated.push(suri.clone());
                self.wallets.insert(role.clone(), suri);
            }
            KeyWrite::Typed { roles, words, .. } => {
                let suri = generate_mnemonic(*words).expect("a typed key has a word count");
                self.generated.push(suri.clone());
                for role in roles {
                    self.typed.insert(role.clone(), suri.clone());
                }
            }
        }
    }
}

fn answers(store: &Store, lookups: &[Option<KeyLookup>]) -> Vec<Option<String>> {
    lookups.iter().map(|l| store.answer(l)).collect()
}

fn ensure_keys(store: &mut Store, wanted: &Vec<WantedKey>) -> Result<ProvisionedKeys, ProvisionError> {
    let mut call = Provisioning::new(wanted.clone());
    let mut event = StoreEvent::Begin;
    loop {
        event = match call.step(event) {
            StoreAction::AskNode => StoreEvent::NodeIdentity(store.node.clone()),
            StoreAction::Ask(lookups) => StoreEvent::Answers { answers: answers(store, &lookups) },
            StoreAction::Write(writes) => {
                for write in &writes {
                    store.apply(write);
                }
                StoreEvent::Written
            }
            StoreAction::ReadBack(lookups) => StoreEvent::Populated {
                answers: answers(store, &lookups),
                node_identity: store.node.clone(),
                local_keystore_dir: Some("/var/empty".to_string()),
                local_node_file: Some("/secrets/node/n1".to_string()),
            },
            StoreAction::Done(keys) => {
                assert!(call.is_finished());
                return Ok(keys);
            }
            StoreAction::Failed(error) => {
                assert!(call.is_finished());
                return Err(error);
            }
        };
    }
}

fn pairs(map: &TextMap) -> BTreeMap<String, String> {
    map.entries().iter().cloned().collect()
}

#[test]
fn names_are_told_apart_by_form() {
    assert_eq!(key_kind("_stash"), KeyKind::Wallet);
    assert_eq!(key_kind("_"), KeyKind::Wallet);
    assert_eq!(key_kind("_Keys"), KeyKind::Wallet);
    assert_eq!(key_kind("sessionKeys"), KeyKind::KeySet);
    assert_eq!(key_kind("nodeKey"), KeyKind::KeySet);
    assert_eq!(key_kind("Keys"), KeyKind::Typed);
    assert_eq!(key_kind("Key"), KeyKind::Typed);
    assert_eq!(key_kind("aKey"), KeyKind::KeySet);
    assert_eq!(key_kind("aura"), KeyKind::Typed);
    assert_eq!(key_kind("keys"), KeyKind::Typed);
}

#[test]
fn lookup_for_says_what_to_ask() {
    let lookup = lookup_for(&scheme("aura")).unwrap().unwrap();
    assert!(!lookup.wallet);
    assert_eq!(lookup.role, "aura");
    assert_eq!(lookup.scheme, SignatureSchema::Sr25519);
    let lookup = lookup_for(&scheme("_stash")).unwrap().unwrap();
    assert!(lookup.wallet);
    assert_eq!(lookup.role, "stash");
    assert!(lookup_for(&alias("babe", "aura")).unwrap().is_none());
    assert!(lookup_for(&opaque("sessionKeys")).unwrap().is_none());
    assert!(lookup_for(&scheme("nodeKey")).unwrap().is_none());
}

#[test]
fn wallet_must_be_asked_for_by_a_scheme() {
    assert!(matches!(
        lookup_for(&alias("_stash", "aura")),
        Err(ProvisionError::WalletNotSchemeBased { name }) if name == "_stash"
    ));
    assert!(matches!(
        lookup_for(&opaque("_w")),
        Err(ProvisionError::WalletNotSchemeBased { name }) if name == "_w"
    ));
}

#[test]
fn opaque_request_for_a_typed_key_is_skipped() {
    assert!(lookup_for(&opaque("aura")).unwrap().is_none());
    let lookups = key_lookups(&vec![opaque("aura"), scheme("babe")]);
    assert!(lookups[0].is_none());
    assert!(lookups[1].is_some());
    let mut store = Store::empty();
    store.node = Some("node-identity".to_string());
    let keys = ensure_keys(&mut store, &vec![opaque("aura")]).unwrap();
    assert_eq!(store.writes, 0);
    assert!(store.typed.is_empty());
    assert!(keys.keys.get("aura").is_none());
    assert!(keys.keys.entries().is_empty());
    assert!(keys.wallets.entries().is_empty());
}

#[test]
fn role_tag_of_wrong_length_is_refused_in_its_turn() {
    for name in ["aur", "auras", ""] {
        assert!(matches!(
            lookup_for(&scheme(name)),
            Err(ProvisionError::InvalidRoleTag { name: refused }) if refused == name
        ));
        let wanted = vec![scheme("babe"), scheme(name), scheme("gran")];
        let lookups = key_lookups(&wanted);
        assert!(lookups[0].is_some());
        assert!(lookups[1].is_none());
        assert!(lookups[2].is_none());
        let plan = plan_writes(&wanted, &vec![None, None, None]).unwrap();
        assert_eq!(plan.writes.len(), 1);
        assert!(matches!(&plan.writes[0], KeyWrite::Typed { roles, .. } if roles == &vec!["babe".to_string()]));
        assert!(matches!(plan.refusal, Some(ProvisionError::InvalidRoleTag { name: refused }) if refused == name));
    }
}

#[test]
fn first_refusal_wins() {
    let wanted = vec![scheme("aura"), opaque("gran"), scheme("toolong"), alias("_w", "gran")];
    let plan = plan_writes(&wanted, &vec![None, None, None, None]).unwrap();
    assert_eq!(plan.writes.len(), 1);
    assert!(matches!(plan.refusal, Some(ProvisionError::InvalidRoleTag { name }) if name == "toolong"));
    let wanted = vec![opaque("_w"), scheme("toolong")];
    let plan = plan_writes(&wanted, &vec![None, None]).unwrap();
    assert!(plan.writes.is_empty());
    assert!(matches!(plan.refusal, Some(ProvisionError::WalletNotSchemeBased { .. })));
}

#[test]
fn refused_key_fails_after_the_node_key_and_the_keys_before_it() {
    let mut store = Store::empty();
    let wanted = vec![scheme("aura"), opaque("_w"), scheme("babe")];
    let result = ensure_keys(&mut store, &wanted);
    assert!(matches!(result, Err(ProvisionError::WalletNotSchemeBased { name }) if name == "_w"));
    assert_eq!(store.node, Some("node-identity".to_string()));
    assert!(store.typed.contains_key("aura"));
    assert!(!store.typed.contains_key("babe"));
    assert_eq!(store.writes, 2);
    let mut store = Store::empty();
    let result = ensure_keys(&mut store, &vec![opaque("_w")]);
    assert!(matches!(result, Err(ProvisionError::WalletNotSchemeBased { .. })));
    assert_eq!(store.node, Some("node-identity".to_string()));
    assert_eq!(store.writes, 1);
}

#[test]
fn node_key_is_written_only_where_the_store_has_no_identity() {
    assert!(matches!(node_write(&None)[..], [KeyWrite::NodeKey]));
    assert!(node_write(&Some("known".to_string())).is_empty());
    let mut store = Store::empty();
    store.node = Some("known".to_string());
    let keys = ensure_keys(&mut store, &Vec::new()).unwrap();
    assert_eq!(store.writes, 0);
    assert_eq!(keys.node_identity, "known");
}

#[test]
fn single_typed_key_against_empty_store() {
    let mut store = Store::empty();
    let wanted = vec![scheme("aura")];
    assert!(matches!(node_write(&store.node)[..], [KeyWrite::NodeKey]));
    let lookups = key_lookups(&wanted);
    let answers: Vec<Option<String>> = lookups.iter().map(|l| store.answer(l)).collect();
    let plan = plan_writes(&wanted, &answers).unwrap();
    assert!(plan.refusal.is_none());
    assert_eq!(plan.writes.len(), 1);
    match &plan.writes[0] {
        KeyWrite::Typed { roles, scheme, words } => {
            assert_eq!(roles, &vec!["aura".to_string()]);
            assert_eq!(*scheme, SignatureSchema::Sr25519);
            assert_eq!(*words, 12);
        }
        other => panic!("unexpected {:?}", other),
    }
    let keys = ensure_keys(&mut store, &wanted).unwrap();
    assert_eq!(store.writes, 2);
    assert_eq!(store.generated.len(), 1);
    assert_eq!(store.typed.len(), 1);
    assert_eq!(store.generated[0].split(' ').count(), 12);
    let expected = Store::address(SignatureSchema::Sr25519, &store.generated[0]);
    assert_eq!(keys.keys.get("aura"), Some(&expected));
    assert_eq!(keys.node_identity, "node-identity");
    assert_eq!(keys.local_keystore_dir, "/var/empty");
    assert_eq!(keys.local_node_file, "/secrets/node/n1");
    assert!(keys.wallets.entries().is_empty());
}

#[test]
fn second_call_writes_nothing_and_hands_out_the_same() {
    let mut store = Store::empty();
    let wanted = vec![scheme("_stash"), alias("babe", "aura"), scheme("aura"), opaque("sessionKeys")];
    let first = ensure_keys(&mut store, &wanted).unwrap();
    let writes_after_first = store.writes;
    assert_eq!(writes_after_first, 3);
    let second = ensure_keys(&mut store, &wanted).unwrap();
    assert_eq!(store.writes, writes_after_first);
    assert_eq!(store.generated.len(), 2);
    assert_eq!(first.node_identity, second.node_identity);
    assert_eq!(pairs(&first.keys), pairs(&second.keys));
    assert_eq!(pairs(&first.wallets), pairs(&second.wallets));
    assert_eq!(first.local_keystore_dir, second.local_keystore_dir);
    assert_eq!(first.local_node_file, second.local_node_file);
    let lookups = key_lookups(&wanted);
    let answers: Vec<Option<String>> = lookups.iter().map(|l| store.answer(l)).collect();
    let plan = plan_writes(&wanted, &answers).unwrap();
    assert!(plan.writes.is_empty());
    assert!(plan.refusal.is_none());
    assert!(node_write(&store.node).is_empty());
}

#[test]
fn alias_shares_the_address_of_its_target() {
    let mut store = Store::empty();
    let wanted = vec![scheme("aura"), alias("babe", "aura"), alias("gran", "aura"), scheme("imon")];
    let keys = ensure_keys(&mut store, &wanted).unwrap();
    assert_eq!(store.generated.len(), 2);
    assert_eq!(keys.keys.get("aura"), keys.keys.get("babe"));
    assert_eq!(keys.keys.get("aura"), keys.keys.get("gran"));
    assert_ne!(keys.keys.get("aura"), keys.keys.get("imon"));
    assert_eq!(store.typed.get("aura"), store.typed.get("babe"));
    assert_eq!(store.typed.get("aura"), store.typed.get("gran"));
    assert_eq!(pairs(&keys.keys).len(), 4);
}

#[test]
fn alias_of_a_key_in_the_store_is_handed_out_without_a_write() {
    let mut store = Store::empty();
    store.node = Some("node-identity".to_string());
    store.typed.insert("aura".to_string(), "old secret".to_string());
    let wanted = vec![scheme("aura"), alias("babe", "aura")];
    let keys = ensure_keys(&mut store, &wanted).unwrap();
    assert_eq!(store.writes, 0);
    assert!(!store.typed.contains_key("babe"));
    assert_eq!(keys.keys.get("babe"), Some(&"Sr25519/old secret".to_string()));
}

#[test]
fn alias_name_of_wrong_length_is_refused_before_the_key_is_written() {
    let mut store = Store::empty();
    let wanted = vec![scheme("aura"), alias("auraAlias", "aura")];
    let result = ensure_keys(&mut store, &wanted);
    assert!(matches!(result, Err(ProvisionError::InvalidRoleTag { name }) if name == "aura"));
    assert!(store.typed.is_empty());
    assert_eq!(store.writes, 1);
    assert!(store.node.is_some());
}

#[test]
fn alias_of_an_alias_is_not_followed() {
    let mut store = Store::empty();
    let wanted = vec![scheme("aura"), alias("babe", "aura"), alias("gran", "babe")];
    let keys = ensure_keys(&mut store, &wanted).unwrap();
    assert!(keys.keys.get("babe").is_some());
    assert!(keys.keys.get("gran").is_none());
    assert!(!store.typed.contains_key("gran"));
    assert_eq!(collect_aliases(&wanted, "aura"), vec!["babe".to_string()]);
    assert_eq!(collect_aliases(&wanted, "babe"), vec!["gran".to_string()]);
}

#[test]
fn wallet_gets_twenty_four_words_under_its_role_tag() {
    let mut store = Store::empty();
    let wanted = vec![scheme("_stash")];
    let keys = ensure_keys(&mut store, &wanted).unwrap();
    assert_eq!(store.generated[0].split(' ').count(), 24);
    assert_eq!(keys.wallets.get("stash"), Some(&Store::address(SignatureSchema::Sr25519, &store.generated[0])));
    assert!(keys.keys.entries().is_empty());
}

#[test]
fn key_set_names_are_skipped() {
    let mut store = Store::empty();
    let wanted = vec![opaque("sessionKeys"), scheme("nodeKey"), alias("someKeys", "aura")];
    let keys = ensure_keys(&mut store, &wanted).unwrap();
    assert_eq!(store.writes, 1);
    assert!(keys.keys.entries().is_empty());
    assert!(keys.wallets.entries().is_empty());
}

#[test]
fn answers_must_match_the_wanted_keys() {
    let wanted = vec![scheme("aura")];
    assert!(matches!(plan_writes(&wanted, &Vec::new()), Err(ProvisionError::AnswersMismatch)));
    assert!(matches!(
        collect_keys(&wanted, &vec![None, None], None, None, None),
        Err(ProvisionError::AnswersMismatch)
    ));
}

#[test]
fn collect_reports_what_the_store_lacks() {
    let wanted = vec![scheme("aura")];
    let there = vec![Some("addr".to_string())];
    assert!(matches!(
        collect_keys(&wanted, &there, None, Some("d".to_string()), Some("f".to_string())),
        Err(ProvisionError::MissingNodeIdentity)
    ));
    assert!(matches!(
        collect_keys(&wanted, &vec![None], Some("n".to_string()), Some("d".to_string()), Some("f".to_string())),
        Err(ProvisionError::MissingSecret { name }) if name == "aura"
    ));
    assert!(matches!(
        collect_keys(&wanted, &there, Some("n".to_string()), None, Some("f".to_string())),
        Err(ProvisionError::MissingKeystoreDir)
    ));
    assert!(matches!(
        collect_keys(&wanted, &there, Some("n".to_string()), Some("d".to_string()), None),
        Err(ProvisionError::MissingNodeFile)
    ));
}

#[test]
fn mnemonics_have_the_asked_number_of_words_and_differ() {
    let twelve = generate_mnemonic(TYPED_KEY_WORDS).unwrap();
    let other = generate_mnemonic(TYPED_KEY_WORDS).unwrap();
    let long = generate_mnemonic(WALLET_WORDS).unwrap();
    assert_eq!(twelve.split(' ').count(), 12);
    assert_eq!(long.split(' ').count(), 24);
    assert_ne!(twelve, other);
    assert!(generate_mnemonic(13).is_none());
    assert!(generate_mnemonic(0).is_none());
}

#[test]
fn text_map_keeps_the_last_binding() {
    let mut map = TextMap::new();
    assert!(map.get("a").is_none());
    map.insert("a".to_string(), "1".to_string());
    map.insert("b".to_string(), "2".to_string());
    map.insert("a".to_string(), "3".to_string());
    assert_eq!(map.get("a"), Some(&"3".to_string()));
    assert_eq!(map.get("b"), Some(&"2".to_string()));
    assert!(map.get("c").is_none());
    assert_eq!(pairs(&map).len(), 2);
}

#[test]
fn events_out_of_step_end_the_call() {
    let mut call = Provisioning::new(vec![scheme("aura")]);
    assert!(!call.is_finished());
    assert!(matches!(call.step(StoreEvent::Written), StoreAction::Failed(ProvisionError::OutOfStep)));
    assert!(call.is_finished());
    assert!(matches!(call.step(StoreEvent::Begin), StoreAction::Failed(ProvisionError::OutOfStep)));
    let mut call = Provisioning::new(vec![scheme("aura")]);
    assert!(matches!(call.step(StoreEvent::Begin), StoreAction::AskNode));
    assert!(matches!(call.step(StoreEvent::Begin), StoreAction::Failed(ProvisionError::OutOfStep)));
    let mut call = Provisioning::new(vec![scheme("aura")]);
    assert!(matches!(call.step(StoreEvent::Begin), StoreAction::AskNode));
    assert!(matches!(
        call.step(StoreEvent::Answers { answers: vec![None] }),
        StoreAction::Failed(ProvisionError::OutOfStep)
    ));
}

#[test]
fn steps_follow_node_then_keys_then_read_back() {
    let mut call = Provisioning::new(vec![scheme("aura")]);
    assert!(matches!(call.step(StoreEvent::Begin), StoreAction::AskNode));
    assert!(matches!(
        call.step(StoreEvent::NodeIdentity(None)),
        StoreAction::Write(writes) if matches!(writes[..], [KeyWrite::NodeKey])
    ));
    let lookups = match call.step(StoreEvent::Written) {
        StoreAction::Ask(lookups) => lookups,
        other => panic!("unexpected {:?}", other),
    };
    assert_eq!(lookups.len(), 1);
    let writes = match call.step(StoreEvent::Answers { answers: vec![None] }) {
        StoreAction::Write(writes) => writes,
        other => panic!("unexpected {:?}", other),
    };
    assert_eq!(writes.len(), 1);
    assert!(matches!(call.step(StoreEvent::Written), StoreAction::ReadBack(l) if l.len() == 1));
    let done = call.step(StoreEvent::Populated {
        answers: vec![Some("addr".to_string())],
        node_identity: Some("node".to_string()),
        local_keystore_dir: Some("/k".to_string()),
        local_node_file: Some("/n".to_string()),
    });
    match done {
        StoreAction::Done(keys) => {
            assert_eq!(keys.keys.get("aura"), Some(&"addr".to_string()));
            assert_eq!(keys.node_identity, "node");
        }
        other => panic!("unexpected {:?}", other),
    }
    assert!(call.is_finished());
}

#[test]
fn populated_store_gives_an_empty_write_step() {
    let mut call = Provisioning::new(vec![scheme("aura"), scheme("_w")]);
    assert!(matches!(call.step(StoreEvent::Begin), StoreAction::AskNode));
    assert!(matches!(call.step(StoreEvent::NodeIdentity(Some("node".to_string()))), StoreAction::Ask(_)));
    let action = call.step(StoreEvent::Answers { answers: vec![Some("a".to_string()), Some("w".to_string())] });
    assert!(matches!(action, StoreAction::Write(writes) if writes.is_empty()));
    assert!(matches!(call.step(StoreEvent::Written), StoreAction::ReadBack(_)));
}

#[test]
fn refusal_ends_the_call_after_the_writes_before_it() {
    let mut call = Provisioning::new(vec![scheme("aura"), opaque("_stash")]);
    assert!(matches!(call.step(StoreEvent::Begin), StoreAction::AskNode));
    assert!(matches!(call.step(StoreEvent::NodeIdentity(None)), StoreAction::Write(_)));
    let lookups = match call.step(StoreEvent::Written) {
        StoreAction::Ask(lookups) => lookups,
        other => panic!("unexpected {:?}", other),
    };
    assert!(lookups[0].is_some());
    assert!(lookups[1].is_none());
    assert!(matches!(
        call.step(StoreEvent::Answers { answers: vec![None, None] }),
        StoreAction::Write(writes) if writes.len() == 1
    ));
    assert!(!call.is_finished());
    assert!(matches!(
        call.step(StoreEvent::Written),
        StoreAction::Failed(ProvisionError::WalletNotSchemeBased { .. })
    ));
    assert!(call.is_finished());
}

