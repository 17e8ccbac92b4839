use rosu::bridge::{
    add_all_collection_hash, add_collection, append_collection_hash, clear_collection,
    init_jni_collection_list, insert_collection_hash, remove_collection, remove_collection_hash,
    set_collection_hash, set_collection_name, to_status_use, write_collection, Handles,
    JniCollectionList, NativeValue,
};
use rosu::collection::{split_hashes, Collection, CollectionList, VERSION};
use rosu::error::BridgeError;
use rosu::registry::HandleRegistry;

fn hashes_of(reg: &Handles, ptr: i64, index: usize) -> Vec<Option<String>> {
    match to_status_use(reg, ptr).unwrap() {
        NativeValue::Collections(l) => l.data.collections[index].beatmap_hashes.clone(),
        _ => panic!("not a collection list"),
    }
}

fn names_of(reg: &Handles, ptr: i64) -> Vec<Option<String>> {
    match to_status_use(reg, ptr).unwrap() {
        NativeValue::Collections(l) => l.data.collections.iter().map(|c| c.name.clone()).collect(),
        _ => panic!("not a collection list"),
    }
}

fn some(v: &[&str]) -> Vec<Option<String>> {
    v.iter().map(|s| Some(s.to_string())).collect()
}

fn new_list(reg: &mut Handles) -> i64 {
    init_jni_collection_list(reg, JniCollectionList::new()).unwrap().handle
}

#[test]
fn new_list_is_empty_with_current_version() {
    let mut reg: Handles = HandleRegistry::new();
    let init = init_jni_collection_list(&mut reg, JniCollectionList::new()).unwrap();
    assert_eq!(init.version, VERSION as i32);
    assert_eq!(init.summary, "");
    assert!(names_of(&reg, init.handle).is_empty());
}

#[test]
fn insert_between_appended_hashes() {
    let mut reg: Handles = HandleRegistry::new();
    let ptr = new_list(&mut reg);
    add_collection(&mut reg, ptr, "fav".to_string(), "").unwrap();
    append_collection_hash(&mut reg, ptr, 0, "a".to_string()).unwrap();
    append_collection_hash(&mut reg, ptr, 0, "b".to_string()).unwrap();
    insert_collection_hash(&mut reg, ptr, 0, 1, "x".to_string()).unwrap();
    assert_eq!(hashes_of(&reg, ptr, 0), some(&["a", "x", "b"]));
}

#[test]
fn remove_hash_out_of_range_changes_nothing() {
    let mut reg: Handles = HandleRegistry::new();
    let ptr = new_list(&mut reg);
    add_collection(&mut reg, ptr, "fav".to_string(), "a,b").unwrap();
    assert_eq!(remove_collection_hash(&mut reg, ptr, 0, 2), Err(BridgeError::IndexOutOfRange));
    assert_eq!(remove_collection_hash(&mut reg, ptr, 0, -1), Err(BridgeError::IndexOutOfRange));
    assert_eq!(remove_collection_hash(&mut reg, ptr, 1, 0), Err(BridgeError::IndexOutOfRange));
    assert_eq!(hashes_of(&reg, ptr, 0), some(&["a", "b"]));
    remove_collection_hash(&mut reg, ptr, 0, 0).unwrap();
    assert_eq!(hashes_of(&reg, ptr, 0), some(&["b"]));
}

#[test]
fn edits_keep_other_entries_in_order() {
    let mut reg: Handles = HandleRegistry::new();
    let ptr = new_list(&mut reg);
    add_collection(&mut reg, ptr, "one".to_string(), "h1").unwrap();
    add_collection(&mut reg, ptr, "two".to_string(), "h2,h3").unwrap();
    add_collection(&mut reg, ptr, "three".to_string(), "").unwrap();
    set_collection_name(&mut reg, ptr, 1, "deux".to_string()).unwrap();
    set_collection_hash(&mut reg, ptr, 1, 1, "h9".to_string()).unwrap();
    assert_eq!(names_of(&reg, ptr), some(&["one", "deux", "three"]));
    assert_eq!(hashes_of(&reg, ptr, 1), some(&["h2", "h9"]));
    remove_collection(&mut reg, ptr, 0).unwrap();
    assert_eq!(names_of(&reg, ptr), some(&["deux", "three"]));
    clear_collection(&mut reg, ptr, 0).unwrap();
    assert!(hashes_of(&reg, ptr, 0).is_empty());
    assert_eq!(remove_collection(&mut reg, ptr, 2), Err(BridgeError::IndexOutOfRange));
    assert_eq!(set_collection_hash(&mut reg, ptr, 0, 0, "z".to_string()), Err(BridgeError::IndexOutOfRange));
    assert_eq!(insert_collection_hash(&mut reg, ptr, 0, 1, "z".to_string()), Err(BridgeError::IndexOutOfRange));
    assert_eq!(set_collection_name(&mut reg, ptr, 5, "z".to_string()), Err(BridgeError::IndexOutOfRange));
    assert_eq!(clear_collection(&mut reg, ptr, -1), Err(BridgeError::IndexOutOfRange));
}

#[test]
fn bulk_add_skips_empty_pieces() {
    let mut reg: Handles = HandleRegistry::new();
    let ptr = new_list(&mut reg);
    add_collection(&mut reg, ptr, "c".to_string(), ",a,,b,").unwrap();
    assert_eq!(hashes_of(&reg, ptr, 0), some(&["a", "b"]));
    add_all_collection_hash(&mut reg, ptr, 0, "c,,d").unwrap();
    assert_eq!(hashes_of(&reg, ptr, 0), some(&["a", "b", "c", "d"]));
    assert_eq!(add_all_collection_hash(&mut reg, ptr, 3, "e"), Err(BridgeError::IndexOutOfRange));
}

#[test]
fn split_hashes_pieces() {
    assert_eq!(split_hashes("x,yy,,zzz"), vec!["x", "yy", "zzz"]);
    assert!(split_hashes("").is_empty());
    assert!(split_hashes(",,,").is_empty());
    assert_eq!(split_hashes("日本,語"), vec!["日本", "語"]);
}

#[test]
fn summary_lists_names_and_hashes() {
    let mut list = CollectionList::new(VERSION);
    let mut c = Collection::new(Some("fav".to_string()));
    c.beatmap_hashes = vec![Some("a".to_string()), None, Some("b".to_string())];
    list.push_collection(c);
    list.push_collection(Collection::new(None));
    assert_eq!(list.summary(), "fav#a,,b,|#|");
}

#[test]
fn handles_of_released_lists_are_invalid() {
    let mut reg: Handles = HandleRegistry::new();
    let ptr = new_list(&mut reg);
    assert!(JniCollectionList::release(&mut reg, ptr).is_ok());
    assert!(matches!(JniCollectionList::release(&mut reg, ptr), Err(BridgeError::InvalidHandle)));
    assert_eq!(append_collection_hash(&mut reg, ptr, 0, "a".to_string()), Err(BridgeError::InvalidHandle));
    assert_eq!(write_collection(&reg, ptr), Err(BridgeError::InvalidHandle));
}

#[test]
fn collection_list_round_trip() {
    let mut reg: Handles = HandleRegistry::new();
    let ptr = new_list(&mut reg);
    add_collection(&mut reg, ptr, "первый".to_string(), "abc,def").unwrap();
    add_collection(&mut reg, ptr, "second".to_string(), "").unwrap();
    let bytes = write_collection(&reg, ptr).unwrap();
    assert_eq!(&bytes[0..4], &VERSION.to_le_bytes());
    let loaded = JniCollectionList::from_bytes(&bytes).unwrap();
    let ptr2 = init_jni_collection_list(&mut reg, loaded).unwrap().handle;
    assert_eq!(names_of(&reg, ptr2), some(&["первый", "second"]));
    assert_eq!(hashes_of(&reg, ptr2, 0), some(&["abc", "def"]));
    assert_eq!(write_collection(&reg, ptr2).unwrap(), bytes);
}

#[test]
fn persisted_bytes_load_and_write_back() {
    // version 7, one collection named "n" holding one absent and one present hash
    let bytes: Vec<u8> = vec![
        7, 0, 0, 0, 1, 0, 0, 0, 0x0b, 1, b'n', 2, 0, 0, 0, 0x00, 0x0b, 2, b'h', b'1',
    ];
    let list = JniCollectionList::from_bytes(&bytes).unwrap();
    assert_eq!(list.data.version, 7);
    assert_eq!(list.data.collections[0].beatmap_hashes, vec![None, Some("h1".to_string())]);
    let mut reg: Handles = HandleRegistry::new();
    let init = init_jni_collection_list(&mut reg, list).unwrap();
    assert_eq!(init.summary, "n#,h1,|");
    assert_eq!(write_collection(&reg, init.handle).unwrap(), bytes);
}

#[test]
fn malformed_documents_are_rejected() {
    assert!(matches!(JniCollectionList::from_bytes(&[1, 2]), Err(BridgeError::DecodeError)));
    assert!(matches!(
        JniCollectionList::from_bytes(&[0, 0, 0, 0, 1, 0, 0, 0, 0x07]),
        Err(BridgeError::DecodeError)
    ));
    let mut long_prefix = vec![0u8, 0, 0, 0, 1, 0, 0, 0, 0x0b];
    long_prefix.extend_from_slice(&[0xff; 10]);
    long_prefix.push(0);
    assert!(matches!(JniCollectionList::from_bytes(&long_prefix), Err(BridgeError::DecodeError)));
}

#[test]
fn list_of_a_given_version() {
    let mut reg: Handles = HandleRegistry::new();
    let init = init_jni_collection_list(&mut reg, JniCollectionList::with_version(20140609)).unwrap();
    assert_eq!(init.version, 20140609);
    let bytes = write_collection(&reg, init.handle).unwrap();
    assert_eq!(bytes, vec![0x41, 0x52, 0x33, 0x01, 0, 0, 0, 0]);
}
