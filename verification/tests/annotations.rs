use rstrace::annotations::Annotations;

fn pair(key: &[u8], value: &[u8]) -> (Vec<u8>, Vec<u8>) {
    (key.to_vec(), value.to_vec())
}

#[test]
fn new_store_is_empty() {
    let store = Annotations::new();
    assert!(store.entries().is_empty());
}

#[test]
fn insert_places_keys_in_order() {
    let mut store = Annotations::new();
    store.insert(b"m".to_vec(), b"1".to_vec());
    assert_eq!(store.entries().to_vec(), vec![pair(b"m", b"1")]);
    store.insert(b"a".to_vec(), b"2".to_vec());
    assert_eq!(store.entries().to_vec(), vec![pair(b"a", b"2"), pair(b"m", b"1")]);
    store.insert(b"z".to_vec(), b"3".to_vec());
    assert_eq!(
        store.entries().to_vec(),
        vec![pair(b"a", b"2"), pair(b"m", b"1"), pair(b"z", b"3")]
    );
    store.insert(b"n".to_vec(), b"4".to_vec());
    assert_eq!(
        store.entries().to_vec(),
        vec![pair(b"a", b"2"), pair(b"m", b"1"), pair(b"n", b"4"), pair(b"z", b"3")]
    );
}

#[test]
fn insert_overwrites_in_place() {
    let mut store = Annotations::new();
    store.insert(b"a".to_vec(), b"1".to_vec());
    store.insert(b"b".to_vec(), b"2".to_vec());
    store.insert(b"c".to_vec(), b"3".to_vec());
    store.insert(b"a".to_vec(), b"first".to_vec());
    store.insert(b"c".to_vec(), b"last".to_vec());
    store.insert(b"b".to_vec(), b"middle".to_vec());
    assert_eq!(
        store.entries().to_vec(),
        vec![pair(b"a", b"first"), pair(b"b", b"middle"), pair(b"c", b"last")]
    );
}

#[test]
fn same_pair_twice_is_held_once() {
    let mut store = Annotations::new();
    store.insert(b"k".to_vec(), b"v".to_vec());
    store.insert(b"k".to_vec(), b"v".to_vec());
    assert_eq!(store.entries().to_vec(), vec![pair(b"k", b"v")]);
}

#[test]
fn empty_key_comes_first() {
    let mut store = Annotations::new();
    store.insert(vec![0], b"zero".to_vec());
    store.insert(Vec::new(), b"empty".to_vec());
    assert_eq!(store.entries().to_vec(), vec![pair(b"", b"empty"), pair(&[0], b"zero")]);
}

#[test]
fn every_insertion_order_gives_one_traversal() {
    let keys: Vec<&[u8]> = vec![b"d", b"a", b"c", b"b"];
    let expected = vec![pair(b"a", b"a"), pair(b"b", b"b"), pair(b"c", b"c"), pair(b"d", b"d")];
    for shift in 0..keys.len() {
        let mut store = Annotations::new();
        for i in 0..keys.len() {
            let key = keys[(i + shift) % keys.len()];
            store.insert(key.to_vec(), key.to_vec());
        }
        assert_eq!(store.entries().to_vec(), expected);
    }
}
