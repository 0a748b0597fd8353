use shipyard::page::PageError;
use shipyard::store::CatalogStore;

fn names(list: &[&str]) -> Vec<String> {
    list.iter().map(|s| s.to_string()).collect()
}

fn numbered(n: usize) -> Vec<String> {
    (0..n).map(|i| format!("repo-{:03}", i)).collect()
}

#[test]
fn a_new_store_is_empty() {
    let store = CatalogStore::new();
    assert_eq!(store.cardinality(), 0);
    assert!(store.sorted_range(0, 10).is_empty());
}

#[test]
fn names_come_out_in_alphabetical_order() {
    let mut store = CatalogStore::new();
    store.insert_all(&names(&["pear", "apple", "fig", "banana"]));
    assert_eq!(store.cardinality(), 4);
    assert_eq!(store.sorted_range(0, 4), names(&["apple", "banana", "fig", "pear"]));
}

#[test]
fn a_name_is_stored_once() {
    let mut store = CatalogStore::new();
    store.insert("b".to_string());
    store.insert("a".to_string());
    store.insert("b".to_string());
    store.insert_all(&names(&["a", "c", "c"]));
    assert_eq!(store.cardinality(), 3);
    assert_eq!(store.sorted_range(0, 10), names(&["a", "b", "c"]));
}

#[test]
fn a_prefix_comes_before_what_it_begins() {
    let mut store = CatalogStore::new();
    store.insert_all(&names(&["lib/b", "lib", "lib/a", "li", "", "Lib", "lib-x"]));
    assert_eq!(
        store.sorted_range(0, 10),
        names(&["", "Lib", "li", "lib", "lib-x", "lib/a", "lib/b"])
    );
}

#[test]
fn order_is_that_of_the_characters() {
    let mut list = names(&["z", "é", "a", "A", "0", "~", "日本", "ab", "aB", "\u{10348}"]);
    let mut store = CatalogStore::new();
    store.insert_all(&list);
    list.sort();
    assert_eq!(store.sorted_range(0, 100), list);
}

#[test]
fn ranges_stop_at_the_end() {
    let mut store = CatalogStore::new();
    store.insert_all(&numbered(5));
    assert_eq!(store.sorted_range(3, 10), numbered(5)[3..].to_vec());
    assert_eq!(store.sorted_range(1, 2), numbered(5)[1..3].to_vec());
    assert!(store.sorted_range(5, 3).is_empty());
    assert!(store.sorted_range(9, 3).is_empty());
    assert!(store.sorted_range(2, 0).is_empty());
    assert_eq!(store.sorted_range(0, usize::MAX), numbered(5));
    assert_eq!(store.sorted_range(4, usize::MAX), numbered(5)[4..].to_vec());
}

#[test]
fn clear_removes_every_name() {
    let mut store = CatalogStore::new();
    store.insert_all(&numbered(5));
    store.clear();
    assert_eq!(store.cardinality(), 0);
}

#[test]
fn replace_forgets_the_old_names() {
    let mut store = CatalogStore::new();
    store.insert_all(&names(&["old-1", "old-2"]));
    store.replace(&names(&["new-b", "new-a", "new-b"]));
    assert_eq!(store.cardinality(), 2);
    assert_eq!(store.sorted_range(0, 10), names(&["new-a", "new-b"]));
}

#[test]
fn a_second_refresh_changes_nothing() {
    let catalog = numbered(47);
    let mut shuffled = catalog.clone();
    shuffled.reverse();
    shuffled.rotate_left(13);
    let mut store = CatalogStore::new();
    store.insert_all(&names(&["stale"]));
    store.replace(&catalog);
    let first_all = store.sorted_range(0, 100);
    let first_pages: Vec<_> = (0..7).map(|p| store.page(p, 10)).collect();
    store.replace(&shuffled);
    assert_eq!(store.sorted_range(0, 100), first_all);
    let second_pages: Vec<_> = (0..7).map(|p| store.page(p, 10)).collect();
    assert_eq!(first_pages, second_pages);
    assert_eq!(first_all, catalog);
}

#[test]
fn pages_are_full_sorted_and_disjoint() {
    let mut store = CatalogStore::new();
    let mut catalog = numbered(23);
    catalog.reverse();
    store.replace(&catalog);
    let mut seen: Vec<String> = Vec::new();
    for page in 1..=4 {
        let got = store.page(page, 5).expect("page");
        assert_eq!(got.len(), 5);
        let mut sorted = got.clone();
        sorted.sort();
        assert_eq!(got, sorted);
        for name in &got {
            assert!(!seen.contains(name));
        }
        seen.extend(got);
    }
    assert_eq!(seen, numbered(20));
}

#[test]
fn pages_that_are_not_there_are_refused() {
    let mut store = CatalogStore::new();
    store.replace(&numbered(23));
    assert_eq!(store.page(5, 5), Err(PageError { max_page: 4, page: 5 }));
    assert_eq!(store.page(0, 5), Err(PageError { max_page: 4, page: 0 }));
    assert_eq!(store.page(1, 0), Err(PageError { max_page: 0, page: 1 }));
    assert_eq!(store.page(1, 24), Err(PageError { max_page: 0, page: 1 }));
    assert_eq!(store.page(1, 23), Ok(numbered(23)));
    let empty = CatalogStore::new();
    assert_eq!(empty.page(1, 5), Err(PageError { max_page: 0, page: 1 }));
}

#[test]
fn page_two_starts_after_page_one() {
    let mut store = CatalogStore::new();
    store.replace(&numbered(45));
    assert_eq!(store.page(1, 20), Ok(numbered(45)[0..20].to_vec()));
    assert_eq!(store.page(2, 20), Ok(numbered(45)[20..40].to_vec()));
    assert_eq!(store.page(3, 20), Err(PageError { max_page: 2, page: 3 }));
}
