use thrustbench::store::{BenchmarkConfigType, ConfigStore, TcpConfigSave};
use thrustbench::text::{sort_names, str_le_exec};

fn tcp_save(address: &str) -> BenchmarkConfigType {
    BenchmarkConfigType::Tcp(TcpConfigSave {
        address: address.to_string(),
        data: None,
        expect: None,
        concurrency: Some(1),
        requests: Some(100),
        duration: Some(10),
        timeout: Some(30000),
        keep_alive: false,
    })
}

fn address_of(cfg: &BenchmarkConfigType) -> &str {
    match cfg {
        BenchmarkConfigType::Tcp(c) => c.address.as_str(),
        _ => panic!("expected a TCP record"),
    }
}

#[test]
fn get_returns_what_add_stored() {
    let mut store = ConfigStore::new();
    store.add("local", tcp_save("127.0.0.1:9000"));
    let got = store.get("local").expect("stored record");
    assert_eq!(address_of(&got), "127.0.0.1:9000");
    assert!(store.get("other").is_none());
}

#[test]
fn add_replaces_an_existing_name() {
    let mut store = ConfigStore::new();
    store.add("target", tcp_save("127.0.0.1:1"));
    store.add("target", tcp_save("127.0.0.1:2"));
    assert_eq!(address_of(&store.get("target").unwrap()), "127.0.0.1:2");
    assert_eq!(store.list(), vec!["target".to_string()]);
}

#[test]
fn remove_hands_the_record_back() {
    let mut store = ConfigStore::new();
    store.add("gone", tcp_save("127.0.0.1:3"));
    let removed = store.remove("gone").expect("stored record");
    assert_eq!(address_of(&removed), "127.0.0.1:3");
    assert!(store.get("gone").is_none());
    assert!(store.remove("gone").is_none());
}

#[test]
fn list_sorts_names_ascending() {
    let mut store = ConfigStore::new();
    store.add("bravo", tcp_save("b"));
    store.add("alpha", tcp_save("a"));
    store.add("charlie", tcp_save("c"));
    assert_eq!(
        store.list(),
        vec![
            "alpha".to_string(),
            "bravo".to_string(),
            "charlie".to_string(),
        ]
    );
}

#[test]
fn names_compare_lexicographically() {
    assert!(str_le_exec("a", "ab"));
    assert!(str_le_exec("ab", "b"));
    assert!(!str_le_exec("b", "ab"));
    assert!(str_le_exec("", "a"));
    assert!(str_le_exec("same", "same"));
}

#[test]
fn sort_names_orders_and_keeps_everything() {
    let mut names = vec![
        "delta".to_string(),
        "alpha".to_string(),
        "charlie".to_string(),
        "bravo".to_string(),
        "alpha".to_string(),
    ];
    sort_names(&mut names);
    assert_eq!(names, vec!["alpha", "alpha", "bravo", "charlie", "delta"]);
}

#[test]
fn empty_store_lists_nothing() {
    let store = ConfigStore::new();
    assert!(store.list().is_empty());
}
