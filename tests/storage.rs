use std::cell::RefCell;
use std::collections::BTreeMap;
use std::rc::Rc;

use core_processor::database::{CASDatabase, Database, KVDatabase, KeyPrefix, H256};

#[derive(Clone, Default)]
struct MemDb {
    kv: Rc<RefCell<BTreeMap<Vec<u8>, Vec<u8>>>>,
}

impl CASDatabase for MemDb {
    fn read(&self, hash: &H256) -> Option<Vec<u8>> {
        self.kv.borrow().get(&hash.to_vec()).cloned()
    }

    fn write(&self, data: &[u8]) -> H256 {
        let mut hash = [0u8; 32];
        hash[0] = data.len() as u8;
        self.kv.borrow_mut().insert(hash.to_vec(), data.to_vec());
        hash
    }
}

impl KVDatabase for MemDb {
    fn get(&self, key: &[u8]) -> Option<Vec<u8>> {
        self.kv.borrow().get(key).cloned()
    }

    fn put(&self, key: &[u8], value: Vec<u8>) {
        self.kv.borrow_mut().insert(key.to_vec(), value);
    }
}

#[test]
fn key_prefix_layout() {
    let key = KeyPrefix::BlockEvents.one(&[0xaa, 0xbb]);
    let mut expected = vec![0u8; 31];
    expected.push(4);
    expected.extend_from_slice(&[0xaa, 0xbb]);
    assert_eq!(key, expected);

    let key = KeyPrefix::InstrumentedCode.two(&7u32.to_le_bytes(), &[1, 2]);
    let mut expected = vec![0u8; 31];
    expected.push(1);
    expected.extend_from_slice(&[7, 0, 0, 0, 1, 2]);
    assert_eq!(key, expected);

    assert_eq!(KeyPrefix::ProgramToCodeId.one(&[]), vec![0u8; 32]);
    assert_eq!(KeyPrefix::BlockSmallMeta.one(&[])[31], 6);
}

#[test]
fn block_records_round_trip() {
    let db = MemDb::default();
    let database = Database::from_one(&db);
    let block = [3u8; 32];
    assert_eq!(database.block_events(block), None);
    database.set_block_events(block, vec![1, 2, 3]);
    database.set_block_outcome(block, vec![4]);
    assert_eq!(database.block_events(block), Some(vec![1, 2, 3]));
    assert_eq!(database.block_outcome(block), Some(vec![4]));
    let mut events_key = vec![0u8; 31];
    events_key.push(4);
    events_key.extend_from_slice(&block);
    assert_eq!(db.get(&events_key), Some(vec![1, 2, 3]));

    database.set_program_code_id([5; 32], [6; 32]);
    assert_eq!(db.get(&KeyPrefix::ProgramToCodeId.one(&[5; 32])), Some(vec![6; 32]));
}

#[test]
fn content_addressed_round_trip() {
    let db = MemDb::default();
    let database = Database::new(db.clone(), db);
    let hash = database.write(&[9, 9, 9]);
    assert_eq!(database.read_by_hash(hash), Some(vec![9, 9, 9]));
}
