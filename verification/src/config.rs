//! The configuration of the application, and the store of the values that
//! the components read at init.

use vstd::prelude::*;
use crate::error::MicrobusError;

verus! {

/// The capacity of a channel where none is asked for.
pub const APP_DEFAULT_QUEUE: usize = 1024;

/// The configuration of the application.
#[derive(Debug, Clone, Copy)]
pub struct AppConfig {
    pub queue_capacity: usize,
}

impl Default for AppConfig {
    fn default() -> (cfg: Self)
        ensures
            cfg.queue_capacity == APP_DEFAULT_QUEUE,
    {
        AppConfig { queue_capacity: APP_DEFAULT_QUEUE }
    }
}

/// The identity of a configuration type.
pub type TypeKey = u64;

/// The first position among the first `n` entries that holds `key`.
pub open spec fn position_of<V>(entries: Seq<(TypeKey, V)>, key: TypeKey, n: int) -> Option<int>
    decreases n,
{
    if n <= 0 {
        None
    } else {
        match position_of(entries, key, n - 1) {
            Some(i) => Some(i),
            None => if entries[n - 1].0 == key {
                Some(n - 1)
            } else {
                None
            },
        }
    }
}

/// The value that the entries hold for `key`.
pub open spec fn lookup<V>(entries: Seq<(TypeKey, V)>, key: TypeKey) -> Option<V> {
    match position_of(entries, key, entries.len() as int) {
        Some(i) => Some(entries[i].1),
        None => None,
    }
}

/// What a configuration store holds: at most one value per type, and
/// whether it is frozen.
pub struct ConfigModel<V> {
    pub values: Map<TypeKey, V>,
    pub frozen: bool,
}

impl<V> ConfigModel<V> {
    /// An empty store that takes values.
    pub open spec fn empty() -> ConfigModel<V> {
        ConfigModel { values: Map::empty(), frozen: false }
    }

    /// The store after a value was put: the last value put for a type is
    /// the one that stays.
    pub open spec fn put(self, key: TypeKey, value: V) -> ConfigModel<V> {
        ConfigModel { values: self.values.insert(key, value), ..self }
    }

    /// The store after it was frozen.
    pub open spec fn freeze(self) -> ConfigModel<V> {
        ConfigModel { frozen: true, ..self }
    }

    /// The value of a type.
    pub open spec fn get(self, key: TypeKey) -> Option<V> {
        if self.values.contains_key(key) {
            Some(self.values[key])
        } else {
            None
        }
    }
}

/// At most one value per configuration type. Values are put while the
/// application is assembled; once frozen, the store is only read.
pub struct ConfigStore<V> {
    entries: Vec<(TypeKey, V)>,
    frozen: bool,
}

impl<V> View for ConfigStore<V> {
    type V = ConfigModel<V>;

    closed spec fn view(&self) -> ConfigModel<V> {
        ConfigModel {
            values: Map::new(
                |key: TypeKey| lookup(self.entries@, key) is Some,
                |key: TypeKey| lookup(self.entries@, key)->0,
            ),
            frozen: self.frozen,
        }
    }
}

impl<V> ConfigStore<V> {
    /// An empty store that takes values.
    pub fn new() -> (store: Self)
        ensures
            store@ == ConfigModel::<V>::empty(),
    {
        let store = ConfigStore { entries: Vec::new(), frozen: false };
        assert(store@.values =~= Map::<TypeKey, V>::empty());
        store
    }

    /// The position of the entry for `key`.
    fn find(&self, key: TypeKey) -> (at: Option<usize>)
        ensures
            at is None ==> position_of(self.entries@, key, self.entries@.len() as int) is None,
            at matches Some(i) ==> i < self.entries@.len() && position_of(
                self.entries@,
                key,
                self.entries@.len() as int,
            ) == Some(i as int) && self.entries@[i as int].0 == key,
    {
        let mut i: usize = 0;
        while i < self.entries.len()
            invariant
                i <= self.entries.len(),
                position_of(self.entries@, key, i as int) is None,
            decreases self.entries.len() - i,
        {
            if self.entries[i].0 == key {
                proof {
                    lemma_position_stays(self.entries@, key, i as int + 1, self.entries@.len() as int);
                }
                return Some(i);
            }
            i += 1;
        }
        None
    }

    /// Whether the store is frozen.
    pub fn is_frozen(&self) -> (frozen: bool)
        ensures
            frozen == self@.frozen,
    {
        self.frozen
    }

    /// Puts the value for a type; a value that was there is replaced. The
    /// result tells whether one was replaced, which is worth a warning.
    /// A frozen store takes no value.
    pub fn put(&mut self, key: TypeKey, value: V) -> (replaced: bool)
        requires
            !old(self)@.frozen,
        ensures
            final(self)@ == old(self)@.put(key, value),
            replaced == old(self)@.values.contains_key(key),
    {
        let ghost before = self.entries@;
        let replaced = match self.find(key) {
            Some(i) => {
                self.entries[i] = (key, value);
                true
            },
            None => {
                self.entries.push((key, value));
                false
            },
        };
        proof {
            // Both arms leave the keys of the old entries where they were.
            let after = self.entries@;
            let n = before.len() as int;
            assert forall|other: TypeKey| other != key implies lookup(after, other) == lookup(
                before,
                other,
            ) by {
                lemma_position_same_keys(before, after, other, n);
                lemma_position_found(before, other, n);
            }
            lemma_position_same_keys(before, after, key, n);
            assert(self@.values =~= old(self)@.values.insert(key, value));
        }
        replaced
    }

    /// Freezes the store: from now on it is only read.
    pub fn freeze(&mut self)
        ensures
            final(self)@ == old(self)@.freeze(),
    {
        self.frozen = true;
    }

    /// The value of a type, if the store holds one.
    pub fn get(&self, key: TypeKey) -> (value: Option<&V>)
        ensures
            self@.get(key) is None ==> value is None,
            self@.get(key) matches Some(v) ==> value == Some(&v),
    {
        match self.find(key) {
            Some(i) => Some(&self.entries[i].1),
            None => None,
        }
    }

    /// The value of a type that a component cannot init without; its
    /// absence is an error.
    pub fn require(&self, key: TypeKey) -> (value: Result<&V, MicrobusError>)
        ensures
            self@.get(key) is None ==> (value matches Err(MicrobusError::Other(msg)) && msg@
                == "missing required config"@),
            self@.get(key) matches Some(v) ==> (value matches Ok(r) && *r == v),
    {
        match self.get(key) {
            Some(v) => Ok(v),
            None => Err(MicrobusError::Other("missing required config")),
        }
    }
}

/// One use of a configuration store.
pub enum ConfigOp<V> {
    /// Put a value for a type.
    Put(TypeKey, V),
    /// Freeze the store.
    Freeze,
    /// Read the value of a type.
    Get(TypeKey),
}

/// Whether the store takes this use: a frozen store takes no `Put`.
pub open spec fn allowed<V>(m: ConfigModel<V>, op: ConfigOp<V>) -> bool {
    op is Put ==> !m.frozen
}

/// The store after one use.
pub open spec fn apply<V>(m: ConfigModel<V>, op: ConfigOp<V>) -> ConfigModel<V> {
    match op {
        ConfigOp::Put(key, value) => m.put(key, value),
        ConfigOp::Freeze => m.freeze(),
        ConfigOp::Get(_) => m,
    }
}

/// The store after the first `n` of a sequence of uses.
pub open spec fn apply_all<V>(m: ConfigModel<V>, ops: Seq<ConfigOp<V>>, n: int) -> ConfigModel<V>
    decreases n,
{
    if n <= 0 {
        m
    } else {
        apply(apply_all(m, ops, n - 1), ops[n - 1])
    }
}

/// Whether the store takes each of the first `n` uses in its turn.
pub open spec fn all_allowed<V>(m: ConfigModel<V>, ops: Seq<ConfigOp<V>>, n: int) -> bool
    decreases n,
{
    if n <= 0 {
        true
    } else {
        all_allowed(m, ops, n - 1) && allowed(apply_all(m, ops, n - 1), ops[n - 1])
    }
}

/// A frozen store never changes: whatever uses it takes, after each of
/// them it holds for every type the value it held when it was frozen.
pub proof fn lemma_frozen_store_is_constant<V>(m: ConfigModel<V>, ops: Seq<ConfigOp<V>>, n: int)
    requires
        m.frozen,
        0 <= n <= ops.len(),
        all_allowed(m, ops, n),
    ensures
        apply_all(m, ops, n) == m,
        forall|key: TypeKey| apply_all(m, ops, n).get(key) == m.get(key),
    decreases n,
{
    if n > 0 {
        lemma_frozen_store_is_constant(m, ops, n - 1);
    }
}

/// A position found among the first `n` entries is the one found among
/// the first `m`, for `m` not below `n`.
pub proof fn lemma_position_stays<V>(entries: Seq<(TypeKey, V)>, key: TypeKey, n: int, m: int)
    requires
        0 <= n <= m,
        position_of(entries, key, n) is Some,
    ensures
        position_of(entries, key, m) == position_of(entries, key, n),
    decreases m - n,
{
    if n < m {
        lemma_position_stays(entries, key, n, m - 1);
    }
}

/// A position found among the first `n` entries lies below `n` and holds
/// the key.
pub proof fn lemma_position_found<V>(entries: Seq<(TypeKey, V)>, key: TypeKey, n: int)
    ensures
        position_of(entries, key, n) matches Some(i) ==> 0 <= i < n && entries[i].0 == key,
    decreases n,
{
    if n > 0 {
        lemma_position_found(entries, key, n - 1);
    }
}

/// Two lists of entries with the same keys at the first `n` positions
/// give the same position for a key.
pub proof fn lemma_position_same_keys<V>(
    a: Seq<(TypeKey, V)>,
    b: Seq<(TypeKey, V)>,
    key: TypeKey,
    n: int,
)
    requires
        0 <= n <= a.len(),
        n <= b.len(),
        forall|i: int| 0 <= i < n ==> a[i].0 == b[i].0,
    ensures
        position_of(a, key, n) == position_of(b, key, n),
    decreases n,
{
    if n > 0 {
        lemma_position_same_keys(a, b, key, n - 1);
    }
}

} // verus!
