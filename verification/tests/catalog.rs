use starviewer::catalog::StarCatalog;

#[test]
fn ids_are_given_in_order() {
    let mut catalog: StarCatalog<&str> = StarCatalog::new();
    assert_eq!(catalog.len(), 0);
    assert_eq!(catalog.add("Sol"), 0);
    assert_eq!(catalog.add("Alpha Centauri"), 1);
    assert_eq!(catalog.add("Barnard's Star"), 2);
    assert_eq!(catalog.len(), 3);
    assert_eq!(catalog.entries(), &vec!["Sol", "Alpha Centauri", "Barnard's Star"]);
    assert!(catalog.has_room());
}

#[test]
fn added_entry_is_found_by_its_id() {
    let mut catalog: StarCatalog<u32> = StarCatalog::new();
    let first = catalog.add(10);
    let second = catalog.add(20);
    assert_eq!(catalog.get(second), Some(&20));
    assert_eq!(catalog.get(first), Some(&10));
    assert_eq!(catalog.get(2), None);
    assert_eq!(catalog.get(u32::MAX), None);
}

#[test]
fn lookup_all_follows_the_given_ids() {
    let mut catalog: StarCatalog<char> = StarCatalog::new();
    for c in ['a', 'b', 'c', 'd'] {
        catalog.add(c);
    }
    let found = catalog.lookup_all(&vec![3, 0, 3, 1]).unwrap();
    assert_eq!(found, vec![&'d', &'a', &'d', &'b']);
    assert_eq!(catalog.lookup_all(&vec![]), Some(vec![]));
}

#[test]
fn lookup_all_refuses_an_unknown_id() {
    let mut catalog: StarCatalog<char> = StarCatalog::new();
    catalog.add('a');
    assert_eq!(catalog.lookup_all(&vec![0, 1]), None);
    let empty: StarCatalog<char> = StarCatalog::new();
    assert_eq!(empty.lookup_all(&vec![0]), None);
}
