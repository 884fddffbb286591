use token_store::Store;

#[test]
fn with_value_manipulate() {
    let mut store = Store::new();
    let token1 = store.insert("I like trains".to_owned());
    let token2 = store.insert(42);
    let len = store.with_value(&token1, |proxy, value1| {
        *proxy.get_mut(&token2) += 10;
        let token3 = proxy.with_value(&token2, |proxy, value2| {
            *value2 *= 2;
            proxy.insert(*value2 as f32 + 0.5)
        });
        let number = proxy.remove(token2);
        value1.push_str(&format!(": {} = {}", number, proxy.get(&token3)));
        value1.len()
    });
    assert_eq!(len, 26);
    assert_eq!(store.get(&token1), "I like trains: 104 = 104.5");
}

#[test]
#[should_panic]
fn no_double_with_value() {
    let mut store = Store::new();
    let token = store.insert(42);
    store.with_value(&token, |proxy, _| {
        proxy.with_value(&token, |_, _| {});
    });
}

#[test]
#[should_panic]
fn no_alias_get_and_with_value() {
    let mut store = Store::new();
    let token = store.insert(42);
    store.with_value(&token, |proxy, _| {
        let _v = proxy.get(&token);
    });
}

#[test]
#[should_panic]
fn no_alias_get_mut_and_with_value() {
    let mut store = Store::new();
    let token = store.insert(42);
    store.with_value(&token, |proxy, _| {
        let _v = proxy.get_mut(&token);
    });
}

#[test]
#[should_panic]
fn no_alias_remove_and_with_value() {
    let mut store = Store::new();
    let token = store.insert(42);
    store.with_value(&token, |proxy, _| {
        let _v = proxy.remove(token.clone());
    });
}

#[test]
fn nested_sessions_mutate_and_summarise() {
    let mut store = Store::new();
    let a = store.insert("hello".to_owned());
    let b = store.insert(42);
    let len = store.with_value(&a, |proxy, text| {
        *proxy.get_mut(&b) += 10;
        let c = proxy.with_value(&b, |proxy, number| {
            *number *= 2;
            proxy.insert(*number as f32 + 0.5)
        });
        let number = proxy.remove(b);
        text.push_str(&format!(" {} {}", number, proxy.get(&c)));
        text.len()
    });
    assert_eq!(len, 15);
    assert_eq!(store.get(&a), "hello 104 104.5");
}

#[test]
fn root_session_round_trip() {
    let mut store = Store::new();
    let token = store.insert(5u32);
    let mut proxy = store.as_proxy();
    *proxy.get_mut(&token) += 1;
    let other = proxy.insert("side".to_owned());
    let store = proxy.into_store();
    assert_eq!(*store.get(&token), 6);
    assert_eq!(store.get(&other), "side");
}

#[test]
fn session_still_reaches_other_slots() {
    let mut store = Store::new();
    let a = store.insert(1u64);
    let b = store.insert(2u64);
    store.with_value(&a, |proxy, va| {
        *va += 10;
        *proxy.get_mut(&b) += 20;
    });
    assert_eq!(*store.get(&a), 11);
    assert_eq!(*store.get(&b), 22);
}
