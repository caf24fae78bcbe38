//! Provisioning of the key material that a document refers to.
//!
//! A call names a node and the keys wanted for it. The node's identity
//! comes first: where the store has none, a key is generated and written.
//! The wanted keys follow in their order: what the store already holds is
//! looked up, what is missing is generated and written, and a key that is
//! refused ends the call when its turn comes, after the keys before it.
//! Everything is then read back and handed out. A call that finds
//! everything in place writes nothing.
//!
//! The store is outside this library. [`key_lookups`] says what to look up,
//! [`plan_writes`] what to write given the answers, and [`collect_keys`] what
//! to hand out once the store holds everything. [`Provisioning`] puts the
//! three in their order: it says what to do with the store next, and takes
//! what the store said.

use vstd::prelude::*;
use vstd::string::*;
use crate::keystore::ROLE_TAG_LEN;
use crate::text::{ends_with, starts_with, str_eq};

verus! {

/// A signature scheme that keys are derived under.
#[derive(Debug, Clone, Copy, PartialEq, Eq)]
pub enum SignatureSchema {
    Ed25519,
    Sr25519,
    Ecdsa,
    Ethereum,
}

/// The name of the wanted key that an alias stands for.
#[derive(Debug, Clone)]
pub struct AliasName {
    /// The key's name.
    pub alias: String,
}

/// What is asked for under one name.
#[derive(Debug, Clone)]
pub enum KeyRequest {
    /// A key derived under the scheme.
    Scheme(SignatureSchema),
    /// The key that another name asks for.
    Alias(AliasName),
    /// Something that is no request for a single key.
    Opaque,
}

/// One wanted key: a name and what is asked for under it.
#[derive(Debug, Clone)]
pub struct WantedKey {
    pub name: String,
    pub request: KeyRequest,
}

/// What a name asks for, by its form.
#[derive(Debug, Clone, Copy, PartialEq, Eq)]
pub enum KeyKind {
    /// A wallet: the name begins with `_`, and the rest is the role tag.
    Wallet,
    /// A set of keys, handled elsewhere: the name ends in `Keys` or `Key`
    /// and is longer than that.
    KeySet,
    /// A typed key: the name is its role tag.
    Typed,
}

/// Why provisioning failed.
#[derive(Debug)]
pub enum ProvisionError {
    /// The wallet `name` is not asked for by a scheme.
    WalletNotSchemeBased { name: String },
    /// The role tag `name` of a typed key does not have four characters.
    InvalidRoleTag { name: String },
    /// There is not one answer per wanted key.
    AnswersMismatch,
    /// The store has no identity for the node.
    MissingNodeIdentity,
    /// The store has nothing for the key `name`.
    MissingSecret { name: String },
    /// The store cannot say where the node's keystore is.
    MissingKeystoreDir,
    /// The store cannot say where the node's key file is.
    MissingNodeFile,
    /// An event came that the protocol does not expect where it stands.
    OutOfStep,
}

/// The kind of the name `name`.
pub open spec fn kind_of_name(name: Seq<char>) -> KeyKind {
    if "_"@.is_prefix_of(name) {
        KeyKind::Wallet
    } else if ("Keys"@.is_suffix_of(name) && name.len() > 4) || ("Key"@.is_suffix_of(name)
        && name.len() > 3) {
        KeyKind::KeySet
    } else {
        KeyKind::Typed
    }
}

/// What kind of key the name `name` asks for.
pub fn key_kind(name: &str) -> (kind: KeyKind)
    ensures
        kind == kind_of_name(name@),
{
    if starts_with(name, "_") {
        return KeyKind::Wallet;
    }
    let len = name.unicode_len();
    if (ends_with(name, "Keys") && len > 4) || (ends_with(name, "Key") && len > 3) {
        KeyKind::KeySet
    } else {
        KeyKind::Typed
    }
}

/// A question to the secret store.
#[derive(Debug, Clone)]
pub struct KeyLookup {
    /// Whether a wallet is asked for, and not a typed key.
    pub wallet: bool,
    /// The role tag.
    pub role: String,
    /// The scheme to derive the address under.
    pub scheme: SignatureSchema,
}

/// What the wanted key `wanted` comes to before the store is asked.
pub enum Intent {
    /// Nothing is to be done for it in its own turn.
    Skip,
    /// The store is asked for a wallet with the role tag `role`.
    Wallet { role: Seq<char>, scheme: SignatureSchema },
    /// The store is asked for the typed key with the role tag `role`.
    Typed { role: Seq<char>, scheme: SignatureSchema },
    /// A wallet that is not asked for by a scheme.
    BadWallet,
    /// A typed key whose role tag does not have four characters.
    BadRoleTag,
}

/// The intent of the wanted key `wanted`.
pub open spec fn intent_of(wanted: WantedKey) -> Intent {
    match kind_of_name(wanted.name@) {
        KeyKind::Wallet => match wanted.request {
            KeyRequest::Scheme(scheme) => Intent::Wallet { role: wanted.name@.skip(1), scheme },
            _ => Intent::BadWallet,
        },
        KeyKind::KeySet => Intent::Skip,
        KeyKind::Typed => match wanted.request {
            KeyRequest::Alias(_) => Intent::Skip,
            KeyRequest::Opaque => Intent::Skip,
            KeyRequest::Scheme(scheme) => if wanted.name@.len() == ROLE_TAG_LEN {
                Intent::Typed { role: wanted.name@, scheme }
            } else {
                Intent::BadRoleTag
            },
        },
    }
}

/// Whether the intent is a refusal.
pub open spec fn is_refusal(intent: Intent) -> bool {
    intent is BadWallet || intent is BadRoleTag
}

/// Whether `lookup` asks what `intent` intends.
pub open spec fn asks(lookup: Option<KeyLookup>, intent: Intent) -> bool {
    match intent {
        Intent::Wallet { role, scheme } => lookup matches Some(l) && l.wallet && l.role@ == role
            && l.scheme == scheme,
        Intent::Typed { role, scheme } => lookup matches Some(l) && !l.wallet && l.role@ == role
            && l.scheme == scheme,
        _ => lookup is None,
    }
}

/// Whether `error` is the refusal of `wanted`.
pub open spec fn refuses(error: ProvisionError, wanted: WantedKey) -> bool {
    match intent_of(wanted) {
        Intent::BadWallet => error matches ProvisionError::WalletNotSchemeBased { name } && name@
            == wanted.name@,
        Intent::BadRoleTag => error matches ProvisionError::InvalidRoleTag { name } && name@
            == wanted.name@,
        _ => false,
    }
}

/// What to ask the store for the wanted key `wanted`.
pub fn lookup_for(wanted: &WantedKey) -> (result: Result<Option<KeyLookup>, ProvisionError>)
    ensures
        !is_refusal(intent_of(*wanted)) ==> (result matches Ok(lookup) && asks(
            lookup,
            intent_of(*wanted),
        )),
        is_refusal(intent_of(*wanted)) ==> (result matches Err(error) && refuses(error, *wanted)),
{
    match key_kind(wanted.name.as_str()) {
        KeyKind::Wallet => match &wanted.request {
            KeyRequest::Scheme(scheme) => {
                proof {
                    reveal_strlit("_");
                }
                let role = wanted.name.as_str().substring_char(1, wanted.name.as_str().unicode_len());
                Ok(Some(KeyLookup { wallet: true, role: String::from_str(role), scheme: *scheme }))
            },
            _ => Err(ProvisionError::WalletNotSchemeBased { name: wanted.name.clone() }),
        },
        KeyKind::KeySet => Ok(None),
        KeyKind::Typed => match &wanted.request {
            KeyRequest::Alias(_) => Ok(None),
            KeyRequest::Opaque => Ok(None),
            KeyRequest::Scheme(scheme) => {
                if wanted.name.as_str().unicode_len() != ROLE_TAG_LEN {
                    return Err(ProvisionError::InvalidRoleTag { name: wanted.name.clone() });
                }
                Ok(Some(KeyLookup { wallet: false, role: wanted.name.clone(), scheme: *scheme }))
            },
        },
    }
}

/// The place of the first wanted key from `from` on that is refused, or the
/// number of wanted keys where none is.
pub open spec fn first_refused(wanted: Seq<WantedKey>, from: int) -> int
    decreases wanted.len() - from,
{
    if from < 0 || from >= wanted.len() {
        wanted.len() as int
    } else if is_refusal(intent_of(wanted[from])) {
        from
    } else {
        first_refused(wanted, from + 1)
    }
}

/// Whether `lookups` asks, key by key, what the wanted keys before the first
/// refused one intend, and nothing from there on.
pub open spec fn lookups_for(lookups: Seq<Option<KeyLookup>>, wanted: Seq<WantedKey>) -> bool {
    &&& lookups.len() == wanted.len()
    &&& forall|i: int|
        0 <= i < first_refused(wanted, 0) ==> asks(#[trigger] lookups[i], intent_of(wanted[i]))
    &&& forall|i: int| first_refused(wanted, 0) <= i < wanted.len() ==> (#[trigger] lookups[i]) is None
}

proof fn lemma_first_refused_bounds(wanted: Seq<WantedKey>, from: int)
    requires
        0 <= from <= wanted.len(),
    ensures
        from <= first_refused(wanted, from) <= wanted.len(),
        forall|i: int|
            from <= i < first_refused(wanted, from) ==> !is_refusal(intent_of(#[trigger] wanted[i])),
        first_refused(wanted, from) < wanted.len() ==> is_refusal(
            intent_of(wanted[first_refused(wanted, from)]),
        ),
    decreases wanted.len() - from,
{
    if from < wanted.len() && !is_refusal(intent_of(wanted[from])) {
        lemma_first_refused_bounds(wanted, from + 1);
    }
}

/// What to ask the store, one entry per wanted key and in their order:
/// nothing for a key that needs no lookup of its own.
///
/// A wanted key is refused where it is a wallet that is not asked for by a
/// scheme, or a typed key whose role tag does not have four characters. The
/// store is asked for the keys before the first refused one, and for none
/// from there on. An alias or an opaque request under the name of a typed
/// key asks nothing.
pub fn key_lookups(wanted: &Vec<WantedKey>) -> (lookups: Vec<Option<KeyLookup>>)
    ensures
        lookups_for(lookups@, wanted@),
{
    let mut lookups: Vec<Option<KeyLookup>> = Vec::new();
    let mut i: usize = 0;
    let mut open = true;
    proof {
        lemma_first_refused_bounds(wanted@, 0);
    }
    while i < wanted.len()
        invariant
            i <= wanted.len(),
            lookups.len() == i,
            0 <= first_refused(wanted@, 0) <= wanted.len(),
            open ==> first_refused(wanted@, 0) == first_refused(wanted@, i as int) && i
                <= first_refused(wanted@, 0),
            !open ==> first_refused(wanted@, 0) < i,
            forall|k: int|
                0 <= k < i && k < first_refused(wanted@, 0) ==> asks(
                    #[trigger] lookups[k],
                    intent_of(wanted[k]),
                ),
            forall|k: int| first_refused(wanted@, 0) <= k < i ==> (#[trigger] lookups[k]) is None,
        decreases wanted.len() - i,
    {
        proof {
            lemma_first_refused_bounds(wanted@, i as int);
            lemma_first_refused_bounds(wanted@, i as int + 1);
        }
        let lookup = if open {
            match lookup_for(&wanted[i]) {
                Ok(lookup) => lookup,
                Err(_) => {
                    open = false;
                    None
                },
            }
        } else {
            None
        };
        lookups.push(lookup);
        i += 1;
    }
    proof {
        lemma_first_refused_bounds(wanted@, 0);
    }
    lookups
}

/// A map from names to texts, in the order the names were bound.
#[derive(Debug)]
pub struct TextMap {
    entries: Vec<(String, String)>,
}

/// The map that binding the pairs of `entries` one after the other makes. A
/// later pair replaces an earlier one of the same name.
pub open spec fn bound(entries: Seq<(String, String)>) -> Map<Seq<char>, Seq<char>>
    decreases entries.len(),
{
    if entries.len() == 0 {
        Map::empty()
    } else {
        bound(entries.drop_last()).insert(entries.last().0@, entries.last().1@)
    }
}

impl View for TextMap {
    type V = Map<Seq<char>, Seq<char>>;

    closed spec fn view(&self) -> Map<Seq<char>, Seq<char>> {
        bound(self.entries@)
    }
}

impl TextMap {
    /// The map without a binding.
    pub fn new() -> (map: TextMap)
        ensures
            map@ == Map::<Seq<char>, Seq<char>>::empty(),
    {
        TextMap { entries: Vec::new() }
    }

    /// Binds `name` to `text`, in place of what it was bound to.
    pub fn insert(&mut self, name: String, text: String)
        ensures
            final(self)@ == old(self)@.insert(name@, text@),
    {
        let ghost before = self.entries@;
        self.entries.push((name, text));
        assert(self.entries@.drop_last() =~= before);
    }

    /// The text that `name` is bound to.
    pub fn get(&self, name: &str) -> (text: Option<&String>)
        ensures
            self@.contains_key(name@) ==> (text matches Some(t) && t@ == self@[name@]),
            !self@.contains_key(name@) ==> text is None,
    {
        let mut i: usize = self.entries.len();
        assert(self.entries@.take(i as int) =~= self.entries@);
        while i > 0
            invariant
                i <= self.entries.len(),
                bound(self.entries@).contains_key(name@) <==> bound(
                    self.entries@.take(i as int),
                ).contains_key(name@),
                bound(self.entries@).contains_key(name@) ==> bound(self.entries@)[name@] == bound(
                    self.entries@.take(i as int),
                )[name@],
            decreases i,
        {
            assert(self.entries@.take(i as int).drop_last() =~= self.entries@.take(i - 1));
            if str_eq(self.entries[i - 1].0.as_str(), name) {
                return Some(&self.entries[i - 1].1);
            }
            i -= 1;
        }
        assert(self.entries@.take(0) =~= Seq::<(String, String)>::empty());
        None
    }

    /// The bindings in the order they were made. Binding them anew in this
    /// order gives the map.
    pub fn entries(&self) -> (entries: &Vec<(String, String)>)
        ensures
            bound(entries@) == self@,
    {
        &self.entries
    }
}

/// What a provisioning call hands out.
#[derive(Debug)]
pub struct ProvisionedKeys {
    /// The identity of the node.
    pub node_identity: String,
    /// The address of each typed key, by name, aliases included.
    pub keys: TextMap,
    /// The address of each wallet, by role tag.
    pub wallets: TextMap,
    /// The directory that holds the node's keystore.
    pub local_keystore_dir: String,
    /// The file that holds the node's key.
    pub local_node_file: String,
}

/// Number of words of the mnemonic behind a typed key.
pub const TYPED_KEY_WORDS: usize = 12;

/// Number of words of the mnemonic behind a wallet.
pub const WALLET_WORDS: usize = 24;

/// Something to generate and to write to the secret store.
#[derive(Debug)]
pub enum KeyWrite {
    /// A fresh key for the node.
    NodeKey,
    /// A fresh mnemonic of `words` words for the wallet with the role tag
    /// `role`.
    Wallet { role: String, scheme: SignatureSchema, words: usize },
    /// One fresh mnemonic of `words` words, stored as the typed key under
    /// each of the role tags `roles`: the key's own, then its aliases.
    Typed { roles: Vec<String>, scheme: SignatureSchema, words: usize },
}

/// A write, with its texts as sequences.
pub enum WriteModel {
    NodeKey,
    Wallet { role: Seq<char>, scheme: SignatureSchema, words: nat },
    Typed { roles: Seq<Seq<char>>, scheme: SignatureSchema, words: nat },
}

impl DeepView for KeyWrite {
    type V = WriteModel;

    open spec fn deep_view(&self) -> WriteModel {
        match self {
            KeyWrite::NodeKey => WriteModel::NodeKey,
            KeyWrite::Wallet { role, scheme, words } => WriteModel::Wallet {
                role: role@,
                scheme: *scheme,
                words: *words as nat,
            },
            KeyWrite::Typed { roles, scheme, words } => WriteModel::Typed {
                roles: roles.deep_view(),
                scheme: *scheme,
                words: *words as nat,
            },
        }
    }
}

/// Whether the wanted key `wanted` is an alias of the key named `target`.
pub open spec fn is_alias_of(wanted: WantedKey, target: Seq<char>) -> bool {
    wanted.request matches KeyRequest::Alias(alias) && alias.alias@ == target
}

/// The names among the first `upto` wanted keys that are aliases of
/// `target`, in their order.
pub open spec fn aliases_of(wanted: Seq<WantedKey>, target: Seq<char>, upto: int) -> Seq<Seq<char>>
    decreases upto,
{
    if upto <= 0 || upto > wanted.len() {
        Seq::empty()
    } else if is_alias_of(wanted[upto - 1], target) {
        aliases_of(wanted, target, upto - 1).push(wanted[upto - 1].name@)
    } else {
        aliases_of(wanted, target, upto - 1)
    }
}

/// The names of the wanted keys that are aliases of the key named `target`.
pub fn collect_aliases(wanted: &Vec<WantedKey>, target: &str) -> (names: Vec<String>)
    ensures
        names.deep_view() == aliases_of(wanted@, target@, wanted.len() as int),
{
    let mut names: Vec<String> = Vec::new();
    let mut i: usize = 0;
    while i < wanted.len()
        invariant
            i <= wanted.len(),
            names.deep_view() == aliases_of(wanted@, target@, i as int),
        decreases wanted.len() - i,
    {
        match &wanted[i].request {
            KeyRequest::Alias(alias) => {
                if str_eq(alias.alias.as_str(), target) {
                    let ghost before = names.deep_view();
                    names.push(wanted[i].name.clone());
                    assert(names.deep_view() =~= before.push(wanted[i as int].name@));
                }
            },
            _ => {},
        }
        i += 1;
    }
    names
}

/// The write that the wanted key at `index` needs, where the store has
/// nothing for it.
pub open spec fn write_for(wanted: Seq<WantedKey>, index: int) -> Option<WriteModel> {
    match intent_of(wanted[index]) {
        Intent::Wallet { role, scheme } => Some(
            WriteModel::Wallet { role, scheme, words: WALLET_WORDS as nat },
        ),
        Intent::Typed { role, scheme } => Some(
            WriteModel::Typed {
                roles: seq![role] + aliases_of(wanted, role, wanted.len() as int),
                scheme,
                words: TYPED_KEY_WORDS as nat,
            },
        ),
        _ => None,
    }
}

/// Whether every role tag of the write has four characters.
pub open spec fn roles_fit(write: Option<WriteModel>) -> bool {
    write matches Some(WriteModel::Typed { roles, .. }) ==> forall|k: int|
        0 <= k < roles.len() ==> (#[trigger] roles[k]).len() == ROLE_TAG_LEN
}

/// Whether the wanted key at `index` is to be written: it needs a lookup,
/// and the store answered nothing.
pub open spec fn is_missing(wanted: Seq<WantedKey>, answers: Seq<Option<String>>, index: int) -> bool {
    write_for(wanted, index) is Some && answers[index] is None
}

/// The writes for the first `upto` wanted keys, in their order.
pub open spec fn key_writes(wanted: Seq<WantedKey>, answers: Seq<Option<String>>, upto: int) -> Seq<
    WriteModel,
>
    decreases upto,
{
    if upto <= 0 || upto > wanted.len() {
        Seq::empty()
    } else if is_missing(wanted, answers, upto - 1) {
        key_writes(wanted, answers, upto - 1).push(write_for(wanted, upto - 1)->Some_0)
    } else {
        key_writes(wanted, answers, upto - 1)
    }
}

/// What to write for the node: its key where the store has no identity for
/// it, nothing where it has one.
pub open spec fn node_writes(node_known: bool) -> Seq<WriteModel> {
    if node_known {
        Seq::empty()
    } else {
        seq![WriteModel::NodeKey]
    }
}

/// Whether the call halts at the wanted key at `index`: the key is refused,
/// or the store lacks it and a role tag of its write does not have four
/// characters.
pub open spec fn halts_at(wanted: Seq<WantedKey>, answers: Seq<Option<String>>, index: int) -> bool {
    is_refusal(intent_of(wanted[index])) || (is_missing(wanted, answers, index) && !roles_fit(
        write_for(wanted, index),
    ))
}

/// The place of the first wanted key from `from` on that the call halts at,
/// or the number of wanted keys where it halts at none.
pub open spec fn halt(wanted: Seq<WantedKey>, answers: Seq<Option<String>>, from: int) -> int
    decreases wanted.len() - from,
{
    if from < 0 || from >= wanted.len() {
        wanted.len() as int
    } else if halts_at(wanted, answers, from) {
        from
    } else {
        halt(wanted, answers, from + 1)
    }
}

/// Whether `error` is the failure of the wanted key at `index`, where the
/// call halts.
pub open spec fn halted_with(
    error: ProvisionError,
    wanted: Seq<WantedKey>,
    index: int,
) -> bool {
    if is_refusal(intent_of(wanted[index])) {
        refuses(error, wanted[index])
    } else {
        error matches ProvisionError::InvalidRoleTag { name } && name@ == wanted[index].name@
    }
}

/// The writes for the wanted keys, and the failure that follows them.
#[derive(Debug)]
pub struct Plan {
    /// What to generate and write, in the order of the wanted keys.
    pub writes: Vec<KeyWrite>,
    /// The failure of the wanted key that the call halts at, if there is
    /// one. It comes after the writes.
    pub refusal: Option<ProvisionError>,
}

/// Whether `plan` is the plan for the wanted keys and the store's answers:
/// the writes for the keys before the one that the call halts at, and that
/// key's failure.
pub open spec fn planned(plan: Plan, wanted: Seq<WantedKey>, answers: Seq<Option<String>>) -> bool {
    let at = halt(wanted, answers, 0);
    &&& plan.writes.deep_view() == key_writes(wanted, answers, at)
    &&& at >= wanted.len() ==> plan.refusal is None
    &&& at < wanted.len() ==> (plan.refusal matches Some(error) && halted_with(error, wanted, at))
}

proof fn lemma_halt_bounds(wanted: Seq<WantedKey>, answers: Seq<Option<String>>, from: int)
    requires
        0 <= from <= wanted.len(),
    ensures
        from <= halt(wanted, answers, from) <= wanted.len(),
    decreases wanted.len() - from,
{
    if from < wanted.len() && !halts_at(wanted, answers, from) {
        lemma_halt_bounds(wanted, answers, from + 1);
    }
}

/// What to write for the node, given the identity that the store has for it.
pub fn node_write(node_identity: &Option<String>) -> (writes: Vec<KeyWrite>)
    ensures
        writes.deep_view() == node_writes(node_identity is Some),
{
    let mut writes: Vec<KeyWrite> = Vec::new();
    if node_identity.is_none() {
        writes.push(KeyWrite::NodeKey);
        assert(writes.deep_view() =~= seq![WriteModel::NodeKey]);
    } else {
        assert(writes.deep_view() =~= Seq::<WriteModel>::empty());
    }
    writes
}

/// Whether all of `roles` have four characters.
fn all_roles_fit(roles: &Vec<String>) -> (fit: bool)
    ensures
        fit == forall|k: int|
            0 <= k < roles.len() ==> (#[trigger] roles.deep_view()[k]).len() == ROLE_TAG_LEN,
{
    let mut i: usize = 0;
    while i < roles.len()
        invariant
            i <= roles.len(),
            forall|k: int| 0 <= k < i ==> (#[trigger] roles.deep_view()[k]).len() == ROLE_TAG_LEN,
        decreases roles.len() - i,
    {
        assert(roles.deep_view()[i as int] == roles[i as int]@);
        if roles[i].as_str().unicode_len() != ROLE_TAG_LEN {
            return false;
        }
        i += 1;
    }
    true
}

/// Says what to generate and write for the wanted keys, given what the
/// store answered, and how the call goes on after that.
///
/// `answers` holds, for each wanted key, the address that the store has for
/// it. The wanted keys are taken in their order. A key that the store has is
/// not written. A typed key that it lacks is written once, for its own name
/// and for every alias of it. The call halts at the first key that is
/// refused, or whose write has a role tag that does not have four
/// characters: the keys before it are written, that key and the ones behind
/// it are not, and the key's failure follows the writes.
#[verifier::loop_isolation(false)]
pub fn plan_writes(wanted: &Vec<WantedKey>, answers: &Vec<Option<String>>) -> (result: Result<
    Plan,
    ProvisionError,
>)
    ensures
        answers.len() != wanted.len() ==> (result matches Err(ProvisionError::AnswersMismatch)),
        answers.len() == wanted.len() ==> (result matches Ok(plan) && planned(
            plan,
            wanted@,
            answers@,
        )),
{
    if answers.len() != wanted.len() {
        return Err(ProvisionError::AnswersMismatch);
    }
    let mut writes: Vec<KeyWrite> = Vec::new();
    assert(writes.deep_view() =~= Seq::<WriteModel>::empty());
    let mut i: usize = 0;
    while i < wanted.len()
        invariant
            i <= wanted.len(),
            answers.len() == wanted.len(),
            halt(wanted@, answers@, 0) == halt(wanted@, answers@, i as int),
            writes.deep_view() == key_writes(wanted@, answers@, i as int),
        decreases wanted.len() - i,
    {
        match lookup_for(&wanted[i]) {
            Err(error) => {
                assert(halts_at(wanted@, answers@, i as int));
                return Ok(Plan { writes, refusal: Some(error) });
            },
            Ok(Some(lookup)) => {
                if answers[i].is_none() {
                    let ghost before = writes.deep_view();
                    if lookup.wallet {
                        let write = KeyWrite::Wallet {
                            role: lookup.role,
                            scheme: lookup.scheme,
                            words: WALLET_WORDS,
                        };
                        assert(Some(write.deep_view()) == write_for(wanted@, i as int));
                        writes.push(write);
                        assert(writes.deep_view() =~= before.push(write_for(wanted@, i as int)->Some_0));
                    } else {
                        let mut roles: Vec<String> = Vec::new();
                        roles.push(lookup.role);
                        let mut aliases = collect_aliases(wanted, wanted[i].name.as_str());
                        let ghost found = aliases.deep_view();
                        roles.append(&mut aliases);
                        assert(roles.deep_view() =~= seq![wanted[i as int].name@] + found);
                        let ghost model = WriteModel::Typed {
                            roles: roles.deep_view(),
                            scheme: lookup.scheme,
                            words: TYPED_KEY_WORDS as nat,
                        };
                        assert(write_for(wanted@, i as int) == Some(model));
                        if !all_roles_fit(&roles) {
                            proof {
                                let tags = roles.deep_view();
                                let k = choose|k: int|
                                    0 <= k < tags.len() && (#[trigger] tags[k]).len() != ROLE_TAG_LEN;
                                assert(tags[k].len() != ROLE_TAG_LEN);
                                assert(model->Typed_roles[k].len() != ROLE_TAG_LEN);
                                assert(!roles_fit(write_for(wanted@, i as int)));
                                assert(halts_at(wanted@, answers@, i as int));
                            }
                            return Ok(
                                Plan {
                                    writes,
                                    refusal: Some(
                                        ProvisionError::InvalidRoleTag { name: wanted[i].name.clone() },
                                    ),
                                },
                            );
                        }
                        let write = KeyWrite::Typed {
                            roles,
                            scheme: lookup.scheme,
                            words: TYPED_KEY_WORDS,
                        };
                        assert(Some(write.deep_view()) == write_for(wanted@, i as int));
                        writes.push(write);
                        assert(writes.deep_view() =~= before.push(write_for(wanted@, i as int)->Some_0));
                    }
                }
                assert(!halts_at(wanted@, answers@, i as int));
            },
            Ok(None) => {
                assert(!halts_at(wanted@, answers@, i as int));
            },
        }
        i += 1;
    }
    Ok(Plan { writes, refusal: None })
}

/// `map` with every alias of `target` among the first `upto` wanted keys
/// bound to `address`.
pub open spec fn with_aliases(
    map: Map<Seq<char>, Seq<char>>,
    wanted: Seq<WantedKey>,
    target: Seq<char>,
    address: Seq<char>,
    upto: int,
) -> Map<Seq<char>, Seq<char>>
    decreases upto,
{
    if upto <= 0 || upto > wanted.len() {
        map
    } else if is_alias_of(wanted[upto - 1], target) {
        with_aliases(map, wanted, target, address, upto - 1).insert(wanted[upto - 1].name@, address)
    } else {
        with_aliases(map, wanted, target, address, upto - 1)
    }
}

/// The addresses of the typed keys among the first `upto` wanted keys: each
/// under its own name and under the name of every alias of it.
pub open spec fn typed_addresses(wanted: Seq<WantedKey>, answers: Seq<Option<String>>, upto: int) -> Map<
    Seq<char>,
    Seq<char>,
>
    decreases upto,
{
    if upto <= 0 || upto > wanted.len() {
        Map::empty()
    } else {
        let before = typed_addresses(wanted, answers, upto - 1);
        match (intent_of(wanted[upto - 1]), answers[upto - 1]) {
            (Intent::Typed { role, .. }, Some(address)) => with_aliases(
                before.insert(role, address@),
                wanted,
                role,
                address@,
                wanted.len() as int,
            ),
            _ => before,
        }
    }
}

/// The addresses of the wallets among the first `upto` wanted keys, by role
/// tag.
pub open spec fn wallet_addresses(wanted: Seq<WantedKey>, answers: Seq<Option<String>>, upto: int) -> Map<
    Seq<char>,
    Seq<char>,
>
    decreases upto,
{
    if upto <= 0 || upto > wanted.len() {
        Map::empty()
    } else {
        let before = wallet_addresses(wanted, answers, upto - 1);
        match (intent_of(wanted[upto - 1]), answers[upto - 1]) {
            (Intent::Wallet { role, .. }, Some(address)) => before.insert(role, address@),
            _ => before,
        }
    }
}

/// Whether the store answered for every wanted key that needs a lookup.
pub open spec fn all_answered(wanted: Seq<WantedKey>, answers: Seq<Option<String>>) -> bool {
    forall|i: int| 0 <= i < wanted.len() ==> !#[trigger] is_missing(wanted, answers, i)
}

/// Binds every alias of `target` to `address`.
fn bind_aliases(keys: &mut TextMap, wanted: &Vec<WantedKey>, target: &str, address: &str)
    ensures
        final(keys)@ == with_aliases(old(keys)@, wanted@, target@, address@, wanted.len() as int),
{
    let mut i: usize = 0;
    while i < wanted.len()
        invariant
            i <= wanted.len(),
            keys@ == with_aliases(old(keys)@, wanted@, target@, address@, i as int),
        decreases wanted.len() - i,
    {
        match &wanted[i].request {
            KeyRequest::Alias(alias) => {
                if str_eq(alias.alias.as_str(), target) {
                    keys.insert(wanted[i].name.clone(), String::from_str(address));
                }
            },
            _ => {},
        }
        i += 1;
    }
}

/// Hands out what the store holds once everything wanted is in it.
///
/// `answers` holds the address of each wanted key that needs a lookup. A
/// typed key's address is handed out under its own name and under the name
/// of every alias of it, a wallet's under its role tag. The result is a
/// function of the arguments: the same answers give the same keys.
#[verifier::loop_isolation(false)]
pub fn collect_keys(
    wanted: &Vec<WantedKey>,
    answers: &Vec<Option<String>>,
    node_identity: Option<String>,
    local_keystore_dir: Option<String>,
    local_node_file: Option<String>,
) -> (result: Result<ProvisionedKeys, ProvisionError>)
    ensures
        answers.len() != wanted.len() ==> (result matches Err(ProvisionError::AnswersMismatch)),
        answers.len() == wanted.len() ==> {
            &&& node_identity is None ==> (result matches Err(ProvisionError::MissingNodeIdentity))
            &&& node_identity is Some && !all_answered(wanted@, answers@) ==> (result matches Err(
                ProvisionError::MissingSecret { .. },
            ))
            &&& node_identity is Some && all_answered(wanted@, answers@) && local_keystore_dir
                is None ==> (result matches Err(ProvisionError::MissingKeystoreDir))
            &&& node_identity is Some && all_answered(wanted@, answers@) && local_keystore_dir
                is Some && local_node_file is None ==> (result matches Err(
                ProvisionError::MissingNodeFile,
            ))
            &&& node_identity is Some && all_answered(wanted@, answers@) && local_keystore_dir
                is Some && local_node_file is Some ==> (result matches Ok(out) && {
                &&& out.node_identity@ == node_identity->Some_0@
                &&& out.keys@ == typed_addresses(wanted@, answers@, wanted.len() as int)
                &&& out.wallets@ == wallet_addresses(wanted@, answers@, wanted.len() as int)
                &&& out.local_keystore_dir@ == local_keystore_dir->Some_0@
                &&& out.local_node_file@ == local_node_file->Some_0@
            })
        },
{
    if answers.len() != wanted.len() {
        return Err(ProvisionError::AnswersMismatch);
    }
    let node_identity = match node_identity {
        Some(identity) => identity,
        None => {
            return Err(ProvisionError::MissingNodeIdentity);
        },
    };
    let mut keys = TextMap::new();
    let mut wallets = TextMap::new();
    let mut i: usize = 0;
    while i < wanted.len()
        invariant
            i <= wanted.len(),
            answers.len() == wanted.len(),
            forall|k: int| 0 <= k < i ==> !#[trigger] is_missing(wanted@, answers@, k),
            keys@ == typed_addresses(wanted@, answers@, i as int),
            wallets@ == wallet_addresses(wanted@, answers@, i as int),
        decreases wanted.len() - i,
    {
        match lookup_for(&wanted[i]) {
            Ok(Some(lookup)) => {
                let address = match &answers[i] {
                    Some(address) => address,
                    None => {
                        assert(is_missing(wanted@, answers@, i as int));
                        return Err(ProvisionError::MissingSecret { name: wanted[i].name.clone() });
                    },
                };
                if lookup.wallet {
                    wallets.insert(lookup.role, address.clone());
                } else {
                    keys.insert(lookup.role, address.clone());
                    bind_aliases(&mut keys, wanted, wanted[i].name.as_str(), address.as_str());
                }
            },
            _ => {},
        }
        i += 1;
    }
    let local_keystore_dir = match local_keystore_dir {
        Some(dir) => dir,
        None => {
            return Err(ProvisionError::MissingKeystoreDir);
        },
    };
    let local_node_file = match local_node_file {
        Some(file) => file,
        None => {
            return Err(ProvisionError::MissingNodeFile);
        },
    };
    Ok(ProvisionedKeys { node_identity, keys, wallets, local_keystore_dir, local_node_file })
}

/// The number of spaces in `text`.
pub open spec fn spaces(text: Seq<char>) -> nat {
    text.filter(|c: char| c == ' ').len()
}

/// `bip39::Mnemonic::generate_in` for English, then the phrase as text: the
/// words, one space between two. The words are random; the library takes
/// twelve and twenty-four as counts.
#[verifier::external_body]
fn random_mnemonic(words: usize) -> (phrase: String)
    requires
        words == TYPED_KEY_WORDS || words == WALLET_WORDS,
    ensures
        spaces(phrase@) + 1 == words,
{
    bip39::Mnemonic::generate_in(bip39::Language::English, words).unwrap().to_string()
}

/// A fresh mnemonic for a write of `words` words, or nothing where no write
/// has that many.
pub fn generate_mnemonic(words: usize) -> (phrase: Option<String>)
    ensures
        words == TYPED_KEY_WORDS || words == WALLET_WORDS ==> (phrase matches Some(p) && spaces(p@)
            + 1 == words),
        words != TYPED_KEY_WORDS && words != WALLET_WORDS ==> phrase is None,
{
    if words == TYPED_KEY_WORDS || words == WALLET_WORDS {
        Some(random_mnemonic(words))
    } else {
        None
    }
}

/// Where the store has an answer for every wanted key, nothing is written
/// for the wanted keys; and where it has the node's identity, nothing is
/// written for the node.
pub proof fn law_nothing_written_when_present(wanted: Seq<WantedKey>, answers: Seq<Option<String>>)
    requires
        answers.len() == wanted.len(),
        all_answered(wanted, answers),
    ensures
        key_writes(wanted, answers, halt(wanted, answers, 0)) == Seq::<WriteModel>::empty(),
        node_writes(true) == Seq::<WriteModel>::empty(),
{
    lemma_halt_bounds(wanted, answers, 0);
    lemma_no_writes(wanted, answers, halt(wanted, answers, 0));
}

proof fn lemma_no_writes(wanted: Seq<WantedKey>, answers: Seq<Option<String>>, upto: int)
    requires
        0 <= upto <= wanted.len(),
        all_answered(wanted, answers),
    ensures
        key_writes(wanted, answers, upto) == Seq::<WriteModel>::empty(),
    decreases upto,
{
    if upto > 0 {
        lemma_no_writes(wanted, answers, upto - 1);
        assert(!is_missing(wanted, answers, upto - 1));
    }
}

/// Every wanted key that the store lacks, and that stands before the key
/// that the call halts at, has its write in the plan.
pub proof fn law_missing_is_written(wanted: Seq<WantedKey>, answers: Seq<Option<String>>, index: int)
    requires
        answers.len() == wanted.len(),
        0 <= index < halt(wanted, answers, 0),
        is_missing(wanted, answers, index),
    ensures
        key_writes(wanted, answers, halt(wanted, answers, 0)).contains(
            write_for(wanted, index)->Some_0,
        ),
{
    lemma_halt_bounds(wanted, answers, 0);
    lemma_written(wanted, answers, index, halt(wanted, answers, 0));
}

/// Nothing is written for a wanted key that the store has: every write for
/// a key is the write of a wanted key that the store lacks.
pub proof fn law_only_missing_is_written(
    wanted: Seq<WantedKey>,
    answers: Seq<Option<String>>,
    upto: int,
    position: int,
)
    requires
        answers.len() == wanted.len(),
        0 <= upto <= wanted.len(),
        0 <= position < key_writes(wanted, answers, upto).len(),
    ensures
        exists|index: int|
            0 <= index < upto && #[trigger] is_missing(wanted, answers, index) && key_writes(
                wanted,
                answers,
                upto,
            )[position] == write_for(wanted, index)->Some_0,
    decreases upto,
{
    if upto > 0 {
        let before = key_writes(wanted, answers, upto - 1);
        if position < before.len() {
            law_only_missing_is_written(wanted, answers, upto - 1, position);
            let index = choose|index: int|
                0 <= index < upto - 1 && #[trigger] is_missing(wanted, answers, index)
                    && before[position] == write_for(wanted, index)->Some_0;
            assert(is_missing(wanted, answers, index));
        } else {
            assert(is_missing(wanted, answers, upto - 1));
        }
    }
}

proof fn lemma_written(wanted: Seq<WantedKey>, answers: Seq<Option<String>>, index: int, upto: int)
    requires
        0 <= index < upto <= wanted.len(),
        is_missing(wanted, answers, index),
    ensures
        key_writes(wanted, answers, upto).contains(write_for(wanted, index)->Some_0),
    decreases upto,
{
    let write = write_for(wanted, index)->Some_0;
    if index == upto - 1 {
        let writes = key_writes(wanted, answers, upto);
        assert(writes[writes.len() - 1] == write);
    } else {
        lemma_written(wanted, answers, index, upto - 1);
        let before = key_writes(wanted, answers, upto - 1);
        let k = choose|k: int| 0 <= k < before.len() && before[k] == write;
        assert(key_writes(wanted, answers, upto)[k] == write);
    }
}

/// Where a provisioning call stands.
#[derive(Debug, Clone, Copy, PartialEq, Eq)]
pub enum Phase {
    /// Nothing was asked yet.
    Start,
    /// The store is being asked for the node's identity.
    AskingNode,
    /// The node's key is being written.
    WritingNode,
    /// The store is being asked what it holds of the wanted keys.
    Asking,
    /// What is missing of the wanted keys is being written.
    Writing,
    /// The store is being read back.
    ReadingBack,
    /// The call has ended, in keys or in a failure.
    Finished,
}

/// What the store said or did.
#[derive(Debug)]
pub enum StoreEvent {
    /// The call begins.
    Begin,
    /// The identity that the store has for the node.
    NodeIdentity(Option<String>),
    /// The store's answers to the lookups.
    Answers { answers: Vec<Option<String>> },
    /// The writes were carried out.
    Written,
    /// The store's answers once more, the node's identity, and where the
    /// node's keystore and key file are.
    Populated {
        answers: Vec<Option<String>>,
        node_identity: Option<String>,
        local_keystore_dir: Option<String>,
        local_node_file: Option<String>,
    },
}

/// What to do with the store next.
#[derive(Debug)]
pub enum StoreAction {
    /// Ask the store for the node's identity.
    AskNode,
    /// Ask the store for each lookup.
    Ask(Vec<Option<KeyLookup>>),
    /// Generate what the writes name and write it, in their order.
    Write(Vec<KeyWrite>),
    /// Ask the store for each lookup again, for the node's identity, and for
    /// the places of the node's keystore and key file.
    ReadBack(Vec<Option<KeyLookup>>),
    /// The call ends with these keys.
    Done(ProvisionedKeys),
    /// The call ends in this failure.
    Failed(ProvisionError),
}

/// Whether everything is there to hand the keys out.
pub open spec fn complete(
    wanted: Seq<WantedKey>,
    answers: Seq<Option<String>>,
    node_identity: Option<String>,
    local_keystore_dir: Option<String>,
    local_node_file: Option<String>,
) -> bool {
    answers.len() == wanted.len() && node_identity is Some && all_answered(wanted, answers)
        && local_keystore_dir is Some && local_node_file is Some
}

/// Whether `action`, the phase `after` and the failure `left` for later are
/// what follows when `event` comes in the phase `before` of a call for
/// `wanted`, with the failure `pending` left from the step before.
///
/// The node comes first: its identity is asked for, and its key is written
/// where the store has none. The wanted keys follow: the store is asked, the
/// keys before the one that the call halts at are written, and after those
/// writes the call fails with that key's failure, or reads everything back
/// and hands the keys out.
pub open spec fn follows(
    wanted: Seq<WantedKey>,
    before: Phase,
    pending: Option<ProvisionError>,
    event: StoreEvent,
    action: StoreAction,
    after: Phase,
    left: Option<ProvisionError>,
) -> bool {
    match (before, event) {
        (Phase::Start, StoreEvent::Begin) => action is AskNode && after is AskingNode && left
            is None,
        (Phase::AskingNode, StoreEvent::NodeIdentity(identity)) => left is None && if identity
            is None {
            action matches StoreAction::Write(writes) && writes.deep_view() == node_writes(false)
                && after is WritingNode
        } else {
            action matches StoreAction::Ask(lookups) && lookups_for(lookups@, wanted) && after
                is Asking
        },
        (Phase::WritingNode, StoreEvent::Written) => action matches StoreAction::Ask(lookups)
            && lookups_for(lookups@, wanted) && after is Asking && left is None,
        (Phase::Asking, StoreEvent::Answers { answers }) => if answers.len() != wanted.len() {
            (action matches StoreAction::Failed(ProvisionError::AnswersMismatch)) && after
                is Finished && left is None
        } else {
            action matches StoreAction::Write(writes) && planned(
                Plan { writes, refusal: left },
                wanted,
                answers@,
            ) && after is Writing
        },
        (Phase::Writing, StoreEvent::Written) => left is None && match pending {
            Some(error) => action matches StoreAction::Failed(failure) && failure == error && after
                is Finished,
            None => action matches StoreAction::ReadBack(lookups) && lookups_for(lookups@, wanted)
                && after is ReadingBack,
        },
        (
            Phase::ReadingBack,
            StoreEvent::Populated { answers, node_identity, local_keystore_dir, local_node_file },
        ) => after is Finished && left is None && if complete(
            wanted,
            answers@,
            node_identity,
            local_keystore_dir,
            local_node_file,
        ) {
            action matches StoreAction::Done(out) && {
                &&& out.node_identity@ == node_identity->Some_0@
                &&& out.keys@ == typed_addresses(wanted, answers@, wanted.len() as int)
                &&& out.wallets@ == wallet_addresses(wanted, answers@, wanted.len() as int)
                &&& out.local_keystore_dir@ == local_keystore_dir->Some_0@
                &&& out.local_node_file@ == local_node_file->Some_0@
            }
        } else {
            action is Failed
        },
        _ => (action matches StoreAction::Failed(ProvisionError::OutOfStep)) && after is Finished
            && left is None,
    }
}

/// One provisioning call, step by step.
///
/// The caller begins with [`StoreEvent::Begin`], does to the store what each
/// action says, and hands back what the store said, until the call has
/// ended.
pub struct Provisioning {
    wanted: Vec<WantedKey>,
    phase: Phase,
    refusal: Option<ProvisionError>,
}

impl Provisioning {
    /// The keys that the call is about.
    pub closed spec fn wanted_keys(&self) -> Seq<WantedKey> {
        self.wanted@
    }

    /// Where the call stands.
    pub closed spec fn phase(&self) -> Phase {
        self.phase
    }

    /// The failure that is to follow the writes under way.
    pub closed spec fn pending(&self) -> Option<ProvisionError> {
        self.refusal
    }

    /// A call for the keys `wanted`, before its first step.
    pub fn new(wanted: Vec<WantedKey>) -> (call: Provisioning)
        ensures
            call.wanted_keys() == wanted@,
            call.phase() is Start,
            call.pending() is None,
    {
        Provisioning { wanted, phase: Phase::Start, refusal: None }
    }

    /// Whether the call has ended.
    pub fn is_finished(&self) -> (finished: bool)
        ensures
            finished == (self.phase() is Finished),
    {
        match self.phase {
            Phase::Finished => true,
            _ => false,
        }
    }

    /// Takes what the store said and says what to do next, as [`follows`]
    /// says.
    pub fn step(&mut self, event: StoreEvent) -> (action: StoreAction)
        ensures
            final(self).wanted_keys() == old(self).wanted_keys(),
            follows(
                old(self).wanted_keys(),
                old(self).phase(),
                old(self).pending(),
                event,
                action,
                final(self).phase(),
                final(self).pending(),
            ),
    {
        let pending = self.refusal.take();
        match (self.phase, event) {
            (Phase::Start, StoreEvent::Begin) => {
                self.phase = Phase::AskingNode;
                StoreAction::AskNode
            },
            (Phase::AskingNode, StoreEvent::NodeIdentity(identity)) => {
                if identity.is_none() {
                    self.phase = Phase::WritingNode;
                    StoreAction::Write(node_write(&identity))
                } else {
                    self.phase = Phase::Asking;
                    StoreAction::Ask(key_lookups(&self.wanted))
                }
            },
            (Phase::WritingNode, StoreEvent::Written) => {
                self.phase = Phase::Asking;
                StoreAction::Ask(key_lookups(&self.wanted))
            },
            (Phase::Asking, StoreEvent::Answers { answers }) => {
                match plan_writes(&self.wanted, &answers) {
                    Ok(plan) => {
                        self.phase = Phase::Writing;
                        self.refusal = plan.refusal;
                        StoreAction::Write(plan.writes)
                    },
                    Err(error) => {
                        self.phase = Phase::Finished;
                        StoreAction::Failed(error)
                    },
                }
            },
            (Phase::Writing, StoreEvent::Written) => match pending {
                Some(error) => {
                    self.phase = Phase::Finished;
                    StoreAction::Failed(error)
                },
                None => {
                    self.phase = Phase::ReadingBack;
                    StoreAction::ReadBack(key_lookups(&self.wanted))
                },
            },
            (
                Phase::ReadingBack,
                StoreEvent::Populated { answers, node_identity, local_keystore_dir, local_node_file },
            ) => {
                self.phase = Phase::Finished;
                match collect_keys(
                    &self.wanted,
                    &answers,
                    node_identity,
                    local_keystore_dir,
                    local_node_file,
                ) {
                    Ok(out) => StoreAction::Done(out),
                    Err(error) => StoreAction::Failed(error),
                }
            },
            _ => {
                self.phase = Phase::Finished;
                StoreAction::Failed(ProvisionError::OutOfStep)
            },
        }
    }
}

/// A call that finds the node's identity in the store writes no node key:
/// what follows the identity is the lookups of the wanted keys.
pub proof fn law_known_node_is_only_read(
    wanted: Seq<WantedKey>,
    event: StoreEvent,
    action: StoreAction,
    after: Phase,
    left: Option<ProvisionError>,
)
    requires
        follows(wanted, Phase::AskingNode, None, event, action, after, left),
        event matches StoreEvent::NodeIdentity(identity) && identity is Some,
    ensures
        action is Ask,
        after is Asking,
{
}

/// A call that finds every wanted key in the store writes nothing: what
/// follows its answers is an empty list of writes.
pub proof fn law_populated_store_is_only_read(
    wanted: Seq<WantedKey>,
    event: StoreEvent,
    action: StoreAction,
    after: Phase,
    left: Option<ProvisionError>,
)
    requires
        follows(wanted, Phase::Asking, None, event, action, after, left),
        event matches StoreEvent::Answers { answers } && answers.len() == wanted.len()
            && all_answered(wanted, answers@),
    ensures
        action matches StoreAction::Write(writes) && writes.len() == 0,
        after is Writing,
{
    let answers = event->Answers_answers;
    law_nothing_written_when_present(wanted, answers@);
    let writes = action->Write_0;
    assert(writes.deep_view().len() == writes.len());
}

/// A wanted key that is refused ends the call after the writes for the keys
/// before it, and not before: where the first wanted key that the call
/// halts at stands at `at`, the writes are those of the keys before `at`,
/// and the failure of the key at `at` is left for the step after them.
pub proof fn law_refusal_follows_earlier_writes(
    wanted: Seq<WantedKey>,
    event: StoreEvent,
    action: StoreAction,
    after: Phase,
    left: Option<ProvisionError>,
)
    requires
        follows(wanted, Phase::Asking, None, event, action, after, left),
        event matches StoreEvent::Answers { answers } && answers.len() == wanted.len() && halt(
            wanted,
            answers@,
            0,
        ) < wanted.len(),
    ensures
        action matches StoreAction::Write(writes) && writes.deep_view() == key_writes(
            wanted,
            event->Answers_answers@,
            halt(wanted, event->Answers_answers@, 0),
        ),
        left matches Some(error) && halted_with(
            error,
            wanted,
            halt(wanted, event->Answers_answers@, 0),
        ),
        after is Writing,
{
}

/// Whether no name occurs twice among the wanted keys.
pub open spec fn names_unique(wanted: Seq<WantedKey>) -> bool {
    forall|i: int, j: int|
        0 <= i < j < wanted.len() ==> (#[trigger] wanted[i]).name@ != (#[trigger] wanted[j]).name@
}

/// Whether one of the first `upto` wanted keys is an alias of `target` and
/// has the name `name`.
pub open spec fn aliased(wanted: Seq<WantedKey>, target: Seq<char>, name: Seq<char>, upto: int) -> bool {
    exists|m: int|
        0 <= m < upto && m < wanted.len() && is_alias_of(#[trigger] wanted[m], target) && wanted[m].name@
            == name
}

/// Whether the wanted key at `index` has an address that is handed out under
/// `name`: it is a typed key that the store answered for, and `name` is its
/// own name or that of an alias of it.
pub open spec fn hands_out(wanted: Seq<WantedKey>, answers: Seq<Option<String>>, index: int, name: Seq<
    char,
>) -> bool {
    intent_of(wanted[index]) is Typed && answers[index] is Some && (name == wanted[index].name@
        || aliased(wanted, wanted[index].name@, name, wanted.len() as int))
}

proof fn lemma_with_aliases(
    map: Map<Seq<char>, Seq<char>>,
    wanted: Seq<WantedKey>,
    target: Seq<char>,
    address: Seq<char>,
    upto: int,
    name: Seq<char>,
)
    requires
        0 <= upto <= wanted.len(),
    ensures
        aliased(wanted, target, name, upto) ==> with_aliases(
            map,
            wanted,
            target,
            address,
            upto,
        ).contains_pair(name, address),
        !aliased(wanted, target, name, upto) ==> (with_aliases(
            map,
            wanted,
            target,
            address,
            upto,
        ).contains_key(name) <==> map.contains_key(name)),
        !aliased(wanted, target, name, upto) && map.contains_key(name) ==> with_aliases(
            map,
            wanted,
            target,
            address,
            upto,
        )[name] == map[name],
    decreases upto,
{
    if upto > 0 {
        lemma_with_aliases(map, wanted, target, address, upto - 1, name);
        if aliased(wanted, target, name, upto) {
            let m = choose|m: int|
                0 <= m < upto && m < wanted.len() && is_alias_of(#[trigger] wanted[m], target)
                    && wanted[m].name@ == name;
            if m < upto - 1 {
                assert(aliased(wanted, target, name, upto - 1));
            }
        } else {
            if aliased(wanted, target, name, upto - 1) {
                let m = choose|m: int|
                    0 <= m < upto - 1 && m < wanted.len() && is_alias_of(#[trigger] wanted[m], target)
                        && wanted[m].name@ == name;
                assert(is_alias_of(wanted[m], target) && wanted[m].name@ == name);
            }
            assert(!(is_alias_of(wanted[upto - 1], target) && wanted[upto - 1].name@ == name));
        }
    }
}

proof fn lemma_sole_address(
    wanted: Seq<WantedKey>,
    answers: Seq<Option<String>>,
    upto: int,
    name: Seq<char>,
    address: Seq<char>,
)
    requires
        answers.len() == wanted.len(),
        0 <= upto <= wanted.len(),
        forall|j: int|
            0 <= j < upto && #[trigger] hands_out(wanted, answers, j, name) ==> answers[j]->Some_0@
                == address,
    ensures
        (exists|j: int| 0 <= j < upto && #[trigger] hands_out(wanted, answers, j, name))
            ==> typed_addresses(wanted, answers, upto).contains_pair(name, address),
        !(exists|j: int| 0 <= j < upto && #[trigger] hands_out(wanted, answers, j, name))
            ==> !typed_addresses(wanted, answers, upto).contains_key(name),
    decreases upto,
{
    if upto > 0 {
        lemma_sole_address(wanted, answers, upto - 1, name, address);
        let before = typed_addresses(wanted, answers, upto - 1);
        let last = upto - 1;
        match (intent_of(wanted[last]), answers[last]) {
            (Intent::Typed { role, .. }, Some(found)) => {
                assert(role == wanted[last].name@);
                lemma_with_aliases(
                    before.insert(role, found@),
                    wanted,
                    role,
                    found@,
                    wanted.len() as int,
                    name,
                );
                if hands_out(wanted, answers, last, name) {
                    assert(found@ == address);
                } else {
                    if exists|j: int| 0 <= j < upto && #[trigger] hands_out(wanted, answers, j, name) {
                        let j = choose|j: int|
                            0 <= j < upto && #[trigger] hands_out(wanted, answers, j, name);
                        assert(j < last);
                    }
                }
            },
            _ => {
                assert(!hands_out(wanted, answers, last, name));
                if exists|j: int| 0 <= j < upto && #[trigger] hands_out(wanted, answers, j, name) {
                    let j = choose|j: int|
                        0 <= j < upto && #[trigger] hands_out(wanted, answers, j, name);
                    assert(j < last);
                }
            },
        }
    }
}

/// A typed key and an alias of it are handed out with one address: the one
/// that the store answered for the key.
pub proof fn law_alias_shares_address(
    wanted: Seq<WantedKey>,
    answers: Seq<Option<String>>,
    target: int,
    alias: int,
)
    requires
        answers.len() == wanted.len(),
        names_unique(wanted),
        0 <= target < wanted.len(),
        0 <= alias < wanted.len(),
        intent_of(wanted[target]) is Typed,
        answers[target] is Some,
        is_alias_of(wanted[alias], wanted[target].name@),
    ensures
        typed_addresses(wanted, answers, wanted.len() as int).contains_pair(
            wanted[target].name@,
            answers[target]->Some_0@,
        ),
        typed_addresses(wanted, answers, wanted.len() as int).contains_pair(
            wanted[alias].name@,
            answers[target]->Some_0@,
        ),
{
    let len = wanted.len() as int;
    let address = answers[target]->Some_0@;
    let own = wanted[target].name@;
    let other = wanted[alias].name@;
    assert forall|j: int| 0 <= j < len && #[trigger] hands_out(wanted, answers, j, own) implies j
        == target by {
        if j != target {
            assert(wanted[j].name@ != own);
            let m = choose|m: int|
                0 <= m < len && m < wanted.len() && is_alias_of(#[trigger] wanted[m], wanted[j].name@)
                    && wanted[m].name@ == own;
            assert(m == target);
        }
    }
    assert(hands_out(wanted, answers, target, own));
    lemma_sole_address(wanted, answers, len, own, address);
    assert forall|j: int| 0 <= j < len && #[trigger] hands_out(wanted, answers, j, other) implies j
        == target by {
        if j != target {
            if other == wanted[j].name@ {
                assert(j == alias);
            } else {
                let m = choose|m: int|
                    0 <= m < len && m < wanted.len() && is_alias_of(
                        #[trigger] wanted[m],
                        wanted[j].name@,
                    ) && wanted[m].name@ == other;
                assert(m == alias);
                assert(wanted[j].name@ == own);
            }
        }
    }
    assert(is_alias_of(wanted[alias], own) && wanted[alias].name@ == other);
    assert(aliased(wanted, own, other, len));
    assert(hands_out(wanted, answers, target, other));
    lemma_sole_address(wanted, answers, len, other, address);
}

} // verus!
