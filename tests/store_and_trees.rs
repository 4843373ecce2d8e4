use ledger_core::{
    CTBody, CTNode, DataNode, Error, HashLookup, HashOf, HashPut, MemStore, MultiSigned, SigOf,
    Value, u4, BlockBody, lookup_verified, accept_addressed,
};
use serde_cbor::Value as Cbor;

fn path(nibbles: &[u8]) -> Vec<u4> {
    nibbles.iter().map(|b| u4::split_le(*b).0).collect()
}

fn digest_bytes<T>(h: &HashOf<T>) -> Vec<u8> {
    h.hash().to_bytes().to_vec()
}

fn encode(v: &Cbor) -> Vec<u8> {
    serde_cbor::to_vec(v).unwrap()
}

fn encode_ct_body(b: &CTBody) -> Vec<u8> {
    let children = b
        .children()
        .iter()
        .map(|(k, h)| {
            Cbor::Array(vec![
                Cbor::Array(k.iter().map(|n| Cbor::Integer(n.as_u8() as i128)).collect()),
                Cbor::Bytes(digest_bytes(h)),
            ])
        })
        .collect();
    encode(&Cbor::Array(vec![
        match &b.last_main {
            Some(h) => Cbor::Bytes(digest_bytes(h)),
            None => Cbor::Null,
        },
        Cbor::Array(b.path().iter().map(|n| Cbor::Integer(n.as_u8() as i128)).collect()),
        Cbor::Array(children),
        Cbor::Integer(b.prize as i128),
    ]))
}

#[test]
fn lookup_after_add_returns_the_encoding() {
    let mut store = MemStore::new();
    let enc = b"some encoded value".to_vec();
    let h = HashOf::<Vec<u8>>::hash_ser(&enc).unwrap();
    assert!(!store.contains(&h.hash()));
    assert_eq!(store.add(enc.clone()), Ok(()));
    assert!(store.contains(&h.hash()));
    assert_eq!(store.lookup(&h), Ok(enc));
}

#[test]
fn lookup_of_missing_digest_is_not_found() {
    let store = MemStore::new();
    let h = HashOf::<Vec<u8>>::hash_ser(b"never stored").unwrap();
    assert_eq!(store.lookup(&h), Err(Error::HashNotFound));
}

#[test]
fn add_twice_is_add_once() {
    let mut store = MemStore::new();
    let enc = b"twice".to_vec();
    let other = b"other".to_vec();
    assert_eq!(store.add(enc.clone()), Ok(()));
    assert_eq!(store.add(other.clone()), Ok(()));
    assert_eq!(store.add(enc.clone()), Ok(()));
    let h = HashOf::<Vec<u8>>::hash_ser(&enc).unwrap();
    let g = HashOf::<Vec<u8>>::hash_ser(&other).unwrap();
    assert_eq!(store.lookup(&h), Ok(enc));
    assert_eq!(store.lookup(&g), Ok(other));
}

#[test]
fn same_data_node_added_from_two_handles() {
    let node = DataNode::new(Value::Unt(42));
    let enc = encode(&Cbor::Array(vec![Cbor::Array(vec![]), Cbor::Integer(42)]));
    let first = enc.clone();
    let second = enc.clone();
    let mut store = MemStore::new();
    assert_eq!(store.add(first), Ok(()));
    assert_eq!(store.add(second), Ok(()));
    let h = HashOf::<DataNode>::hash_ser(&enc).unwrap();
    assert_eq!(store.lookup(&h), Ok(enc));
    assert_eq!(node.fields, Value::Unt(42));
    assert!(node.children().is_empty());
}

#[test]
fn genesis_block_then_tree_node() {
    let mut store = MemStore::new();
    let options = HashOf::<Vec<(Vec<u8>, Value)>>::hash_ser(&encode(&Cbor::Map(Default::default())))
        .unwrap();
    let tree = HashOf::<CTNode>::hash_ser(&encode(&Cbor::Null)).unwrap();
    let genesis = BlockBody { prev: None, version: 0, timestamp: 0, tree, options };
    let genesis_enc = encode(&Cbor::Array(vec![
        Cbor::Null,
        Cbor::Integer(genesis.version as i128),
        Cbor::Integer(genesis.timestamp as i128),
        Cbor::Bytes(digest_bytes(&genesis.tree)),
        Cbor::Bytes(digest_bytes(&genesis.options)),
    ]));
    let genesis_hash = HashOf::hash_ser(&genesis_enc).unwrap();
    store.add(genesis_enc.clone()).unwrap();

    let body = CTBody::new(Some(genesis_hash.clone()), Vec::new(), None, None, 0, 0, 0, 0);
    assert!(body.children().is_empty());
    assert_eq!(body.prize, 0);
    let body_enc = encode_ct_body(&body);
    store.add(body_enc.clone()).unwrap();

    let sigs_enc = encode(&Cbor::Array(vec![]));
    let sigs = HashOf::<Vec<SigOf<CTBody>>>::hash_ser(&sigs_enc).unwrap();
    store.add(sigs_enc.clone()).unwrap();
    let node: CTNode = MultiSigned::new(body, sigs.clone());
    assert!(*node.sigs() == sigs);

    let node_enc = encode(&Cbor::Array(vec![
        serde_cbor::from_slice(&encode_ct_body(node.body())).unwrap(),
        Cbor::Bytes(digest_bytes(node.sigs())),
    ]));
    let node_hash = HashOf::<CTNode>::hash_ser(&node_enc).unwrap();
    store.add(node_enc.clone()).unwrap();

    let fetched = store.lookup(&node_hash).unwrap();
    assert!(node_hash.matches_encoding(&fetched).unwrap());
    let decoded: Cbor = serde_cbor::from_slice(&fetched).unwrap();
    let last_main = match decoded {
        Cbor::Array(fields) => match &fields[0] {
            Cbor::Array(body) => body[0].clone(),
            _ => panic!("node body is not an array"),
        },
        _ => panic!("node is not an array"),
    };
    assert_eq!(last_main, Cbor::Bytes(digest_bytes(&genesis_hash)));
    assert_eq!(node.body().last_main, Some(genesis_hash.clone()));
    assert_eq!(store.lookup(&genesis_hash), Ok(genesis_enc));
    assert_eq!(store.lookup(&sigs), Ok(sigs_enc));
}

#[test]
fn child_links_keep_paths_consistent() {
    let root_hash = HashOf::<CTNode>::hash_ser(b"root").unwrap();
    let child_hash = HashOf::<CTNode>::hash_ser(b"child").unwrap();
    let mut parent = CTBody::new(None, path(&[1]), None, None, 5, 0, 0, 0);
    let child = CTBody::new(None, path(&[1, 2, 3]), None, None, 0, 0, 0, 0);
    let stray = CTBody::new(None, path(&[4, 2, 3]), None, None, 0, 0, 0, 0);

    assert!(!parent.add_child(Vec::new(), &child, child_hash.clone()));
    assert!(!parent.add_child(path(&[2, 3]), &stray, child_hash.clone()));
    assert!(!parent.add_child(path(&[2]), &child, child_hash.clone()));
    assert!(parent.children().is_empty());

    assert!(parent.add_child(path(&[2, 3]), &child, child_hash.clone()));
    assert_eq!(parent.children().len(), 1);
    assert_eq!(parent.children()[0].0, path(&[2, 3]));
    assert!(parent.children()[0].1 == child_hash);
    assert!(!parent.add_child(path(&[2, 3]), &child, root_hash));
    assert_eq!(parent.children().len(), 1);
    assert_eq!(parent.prize, 5);
    assert_eq!(parent.path(), &path(&[1]));

    assert!(parent.is_child_consistent(0, &child));
    assert!(!parent.is_child_consistent(0, &stray));
}

#[test]
fn descent_finds_the_key_that_prefixes_the_rest() {
    let h = HashOf::<CTNode>::hash_ser(b"x").unwrap();
    let mut node = CTBody::new(None, Vec::new(), None, None, 0, 0, 0, 0);
    let a = CTBody::new(None, path(&[3, 1]), None, None, 0, 0, 0, 0);
    let b = CTBody::new(None, path(&[5]), None, None, 0, 0, 0, 0);
    assert!(node.add_child(path(&[3, 1]), &a, h.clone()));
    assert!(node.add_child(path(&[5]), &b, h.clone()));
    assert_eq!(node.find_child(&path(&[5, 0, 0])), Some(1));
    assert_eq!(node.find_child(&path(&[3, 1, 7])), Some(0));
    assert_eq!(node.find_child(&path(&[3, 2])), None);
    assert_eq!(node.find_child(&path(&[3])), None);
    assert_eq!(node.find_child(&path(&[])), None);
}

#[test]
fn data_node_children() {
    let h = HashOf::<DataNode>::hash_ser(b"leaf").unwrap();
    let mut node = DataNode::new(Value::Dict(vec![(b"k".to_vec(), Value::Bool(true))]));
    assert!(!node.add_child(Vec::new(), h.clone()));
    assert!(node.add_child(path(&[0xA]), h.clone()));
    assert!(!node.add_child(path(&[0xA]), h.clone()));
    assert!(node.add_child(path(&[0xB, 1]), h.clone()));
    assert_eq!(node.children().len(), 2);
    assert_eq!(node.find_child(&path(&[0xB, 1, 2])), Some(1));
    assert_eq!(node.find_child(&path(&[0xC])), None);
    assert_eq!(node.fields, Value::Dict(vec![(b"k".to_vec(), Value::Bool(true))]));
}

#[test]
fn verified_lookup_accepts_what_hashes_to_its_key() {
    let mut store = MemStore::new();
    let enc = b"checked on the way out".to_vec();
    store.add(enc.clone()).unwrap();
    let h = HashOf::<Vec<u8>>::hash_ser(&enc).unwrap();
    assert_eq!(lookup_verified(&store, &h), Ok(enc));
    let missing = HashOf::<Vec<u8>>::hash_ser(b"absent").unwrap();
    assert_eq!(lookup_verified(&store, &missing), Err(Error::HashNotFound));
}

#[test]
fn accept_addressed_refuses_bytes_of_another_digest() {
    let h = HashOf::<Vec<u8>>::hash_ser(b"right").unwrap();
    assert_eq!(accept_addressed(&h, b"right".to_vec()), Ok(b"right".to_vec()));
    assert!(matches!(accept_addressed(&h, b"wrong".to_vec()), Err(Error::IO(_))));
}
