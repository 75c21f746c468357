use tix::registry::{Package, PackageStore};
use tix::source::Source;

fn package(name: &str, uri: &str) -> Package {
    Package { name: name.to_string(), src: vec![Source { uri: uri.to_string(), hash: None }] }
}

fn names(store: &PackageStore) -> Vec<String> {
    store.list().iter().map(|p| p.name.clone()).collect()
}

#[test]
fn new_store_is_empty() {
    let store = PackageStore::new();
    assert!(store.list().is_empty());
    assert!(store.get(&"a".to_string()).is_none());
}

#[test]
fn both_registrations_are_listed_in_either_order() {
    let mut ab = PackageStore::new();
    ab.insert(package("a", "ua"));
    ab.insert(package("b", "ub"));
    let mut ba = PackageStore::new();
    ba.insert(package("b", "ub"));
    ba.insert(package("a", "ua"));
    for store in [&ab, &ba] {
        let mut n = names(store);
        n.sort();
        assert_eq!(n, vec!["a".to_string(), "b".to_string()]);
        assert_eq!(store.get(&"a".to_string()).unwrap().src[0].uri, "ua");
        assert_eq!(store.get(&"b".to_string()).unwrap().src[0].uri, "ub");
    }
}

#[test]
fn same_name_replaces_the_earlier_package() {
    let mut store = PackageStore::new();
    store.insert(package("hello", "first"));
    store.insert(package("other", "x"));
    store.insert(package("hello", "second"));
    assert_eq!(names(&store), vec!["hello".to_string(), "other".to_string()]);
    assert_eq!(store.get(&"hello".to_string()).unwrap().src[0].uri, "second");
    assert_eq!(store.get(&"other".to_string()).unwrap().src[0].uri, "x");
}

#[test]
fn get_of_unknown_name_is_none() {
    let mut store = PackageStore::new();
    store.insert(package("a", "u"));
    assert!(store.get(&"b".to_string()).is_none());
}
