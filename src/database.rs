//! Handle on the node's storage: a content-addressed store and a key-value
//! store, with the layout of the keys.
use vstd::prelude::*;

verus! {

/// A 32-byte hash.
pub type H256 = [u8; 32];

/// A store that files data under its own hash.
pub trait CASDatabase {
    /// The data filed under `hash`, if any.
    fn read(&self, hash: &H256) -> Option<Vec<u8>>;

    /// Files `data` and returns its hash.
    fn write(&self, data: &[u8]) -> H256;
}

/// A store of values under keys.
pub trait KVDatabase {
    /// The value under `key`, if any.
    fn get(&self, key: &[u8]) -> Option<Vec<u8>>;

    /// Puts `value` under `key`.
    fn put(&self, key: &[u8], value: Vec<u8>);
}

/// What a key of the key-value store holds; each kind has its own prefix.
#[derive(Clone, Copy, Debug, PartialEq, Eq)]
pub enum KeyPrefix {
    ProgramToCodeId,
    InstrumentedCode,
    BlockStartProgramStates,
    BlockEndProgramStates,
    BlockEvents,
    BlockOutcome,
    BlockSmallMeta,
}

impl KeyPrefix {
    pub open spec fn index(self) -> u8 {
        match self {
            KeyPrefix::ProgramToCodeId => 0,
            KeyPrefix::InstrumentedCode => 1,
            KeyPrefix::BlockStartProgramStates => 2,
            KeyPrefix::BlockEndProgramStates => 3,
            KeyPrefix::BlockEvents => 4,
            KeyPrefix::BlockOutcome => 5,
            KeyPrefix::BlockSmallMeta => 6,
        }
    }

    /// The prefix: the kind's index as a 32-byte big-endian number.
    pub open spec fn prefix(self) -> Seq<u8> {
        Seq::new(32, |i: int| if i == 31 { self.index() } else { 0u8 })
    }

    fn index_byte(self) -> (r: u8)
        ensures
            r == self.index(),
    {
        match self {
            KeyPrefix::ProgramToCodeId => 0,
            KeyPrefix::InstrumentedCode => 1,
            KeyPrefix::BlockStartProgramStates => 2,
            KeyPrefix::BlockEndProgramStates => 3,
            KeyPrefix::BlockEvents => 4,
            KeyPrefix::BlockOutcome => 5,
            KeyPrefix::BlockSmallMeta => 6,
        }
    }

    /// The key of `key` under this prefix.
    pub fn one(self, key: &[u8]) -> (r: Vec<u8>)
        requires
            key@.len() + 32 <= usize::MAX,
        ensures
            r@ == self.prefix() + key@,
    {
        let mut r: Vec<u8> = Vec::with_capacity(32 + key.len());
        let mut i: usize = 0;
        while i < 31
            invariant
                i <= 31,
                r@ == self.prefix().take(i as int),
            decreases 31 - i,
        {
            r.push(0);
            i = i + 1;
            assert(r@ =~= self.prefix().take(i as int));
        }
        r.push(self.index_byte());
        assert(r@ =~= self.prefix());
        let mut j: usize = 0;
        while j < key.len()
            invariant
                j <= key@.len(),
                r@ == self.prefix() + key@.take(j as int),
            decreases key@.len() - j,
        {
            r.push(key[j]);
            j = j + 1;
            assert(r@ =~= self.prefix() + key@.take(j as int));
        }
        assert(key@.take(key@.len() as int) =~= key@);
        r
    }

    /// The key of `key1` followed by `key2` under this prefix.
    pub fn two(self, key1: &[u8], key2: &[u8]) -> (r: Vec<u8>)
        requires
            key1@.len() + key2@.len() + 32 <= usize::MAX,
        ensures
            r@ == self.prefix() + key1@ + key2@,
    {
        let mut key: Vec<u8> = vstd::slice::slice_to_vec(key1);
        let mut j: usize = 0;
        while j < key2.len()
            invariant
                j <= key2@.len(),
                key@ == key1@ + key2@.take(j as int),
            decreases key2@.len() - j,
        {
            key.push(key2[j]);
            j = j + 1;
            assert(key@ =~= key1@ + key2@.take(j as int));
        }
        assert(key2@.take(key2@.len() as int) =~= key2@);
        let r = self.one(key.as_slice());
        assert(r@ =~= self.prefix() + key1@ + key2@);
        r
    }
}

/// The node's storage.
pub struct Database<C, K> {
    cas: C,
    kv: K,
}

impl<C: CASDatabase, K: KVDatabase> Database<C, K> {
    pub closed spec fn cas(&self) -> C {
        self.cas
    }

    pub closed spec fn kv(&self) -> K {
        self.kv
    }

    /// Storage made of the two given stores.
    pub fn new(cas: C, kv: K) -> (r: Self)
        ensures
            r.cas() == cas,
            r.kv() == kv,
    {
        Self { cas, kv }
    }

    /// The data filed under `hash` in the content-addressed store.
    pub fn read_by_hash(&self, hash: H256) -> Option<Vec<u8>> {
        self.cas.read(&hash)
    }

    /// Files `data` in the content-addressed store; returns its hash.
    pub fn write(&self, data: &[u8]) -> H256 {
        self.cas.write(data)
    }

    /// The encoded events of the block `block_hash`.
    pub fn block_events(&self, block_hash: H256) -> Option<Vec<u8>> {
        self.kv.get(KeyPrefix::BlockEvents.one(&block_hash).as_slice())
    }

    /// Records the encoded events of the block `block_hash`.
    pub fn set_block_events(&self, block_hash: H256, events_encoded: Vec<u8>) {
        self.kv.put(KeyPrefix::BlockEvents.one(&block_hash).as_slice(), events_encoded);
    }

    /// The encoded outcome of the block `block_hash`.
    pub fn block_outcome(&self, block_hash: H256) -> Option<Vec<u8>> {
        self.kv.get(KeyPrefix::BlockOutcome.one(&block_hash).as_slice())
    }

    /// Records the encoded outcome of the block `block_hash`.
    pub fn set_block_outcome(&self, block_hash: H256, outcome_encoded: Vec<u8>) {
        self.kv.put(KeyPrefix::BlockOutcome.one(&block_hash).as_slice(), outcome_encoded);
    }

    /// Records the code of program `program_id`.
    pub fn set_program_code_id(&self, program_id: H256, code_id: H256) {
        let value: Vec<u8> = vstd::slice::slice_to_vec(&code_id);
        self.kv.put(KeyPrefix::ProgramToCodeId.one(&program_id).as_slice(), value);
    }
}

impl<D: CASDatabase + KVDatabase + Clone> Database<D, D> {
    /// Storage whose two stores are handles on the one store `db`.
    pub fn from_one(db: &D) -> Self {
        Self { cas: db.clone(), kv: db.clone() }
    }
}

} // verus!
