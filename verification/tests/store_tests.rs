use token_store::Store;

#[test]
fn insert_and_retrieve() {
    let mut store = Store::new();
    let token1 = store.insert(42);
    let token2 = store.insert("I like trains".to_owned());
    assert_eq!(*store.get(&token1), 42);
    assert_eq!(store.get(&token2), "I like trains");
}

#[test]
fn mutate() {
    let mut store = Store::new();
    let token = store.insert(42);
    {
        let v = store.get_mut(&token);
        *v += 5;
    }
    assert_eq!(*store.get(&token), 47);
}

#[test]
#[should_panic]
fn no_access_removed() {
    let mut store = Store::new();
    let token = store.insert(42);
    let token2 = token.clone();
    store.remove(token2);
    let _v = store.get(&token);
}

#[test]
#[should_panic]
fn no_mut_access_removed() {
    let mut store = Store::new();
    let token = store.insert(42);
    let token2 = token.clone();
    store.remove(token2);
    let _v = store.get_mut(&token);
}

#[test]
#[should_panic]
fn no_double_remove() {
    let mut store = Store::new();
    let token = store.insert(42);
    let token2 = token.clone();
    store.remove(token2);
    store.remove(token);
}

#[test]
fn place_reuse() {
    let mut store = Store::new();
    let token = store.insert(42);
    store.remove(token);
    let token = store.insert("I like trains");
    assert_eq!(store.slot_count(), 1);
    assert_eq!(*store.get(&token), "I like trains");
}

#[test]
fn clone_reads_the_same_value() {
    let mut store = Store::new();
    let token = store.insert(7u64);
    let copy = token.clone();
    assert_eq!(*store.get(&copy), 7);
    assert_eq!(*store.get(&token), 7);
}

#[test]
fn reused_slot_serves_the_new_token() {
    let mut store = Store::new();
    let token = store.insert(42);
    store.remove(token);
    let fresh = store.insert(43);
    assert_eq!(store.slot_count(), 1);
    assert_eq!(*store.get(&fresh), 43);
}

#[test]
fn empty_store_has_no_slots() {
    let store = Store::new();
    assert_eq!(store.slot_count(), 0);
}

#[test]
fn slots_grow_only_without_a_free_slot() {
    let mut store = Store::new();
    let a = store.insert(1u8);
    let b = store.insert(2u8);
    assert_eq!(store.slot_count(), 2);
    store.remove(a);
    let c = store.insert(3u8);
    assert_eq!(store.slot_count(), 2);
    let d = store.insert(4u8);
    assert_eq!(store.slot_count(), 3);
    assert_eq!(*store.get(&b), 2);
    assert_eq!(*store.get(&c), 3);
    assert_eq!(*store.get(&d), 4);
}
