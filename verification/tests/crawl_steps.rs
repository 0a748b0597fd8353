use shipyard::crawl::{catalog_url, Crawl, CrawlError, CrawlStep, FetchOutcome};

fn names(from: usize, to: usize) -> Vec<String> {
    (from..to).map(|i| format!("repo-{:04}", i)).collect()
}

/// Answers a request as a registry holding `catalog` would.
fn serve(catalog: &[String], page_size: usize, last: &str) -> Vec<String> {
    let start = if last.is_empty() {
        0
    } else {
        match catalog.iter().position(|n| n == last) {
            Some(i) => i + 1,
            None => catalog.len(),
        }
    };
    let end = if page_size == 0 || start + page_size > catalog.len() {
        catalog.len()
    } else {
        start + page_size
    };
    catalog[start..end].to_vec()
}

fn run(catalog: &[String], page_size: usize) -> (Vec<String>, usize) {
    let mut crawl = Crawl::new(page_size);
    let mut requests = 0;
    loop {
        assert!(requests <= catalog.len() + 1, "the crawl does not end");
        let page = serve(catalog, page_size, crawl.cursor());
        requests += 1;
        match crawl.absorb(page) {
            CrawlStep::Publish(all) => return (all, requests),
            CrawlStep::Fetch(next) => crawl = next,
        }
    }
}

#[test]
fn url_without_page_size_and_cursor() {
    assert_eq!(catalog_url("https://r.example/v2", 0, ""), "https://r.example/v2/_catalog");
}

#[test]
fn url_with_cursor_only() {
    assert_eq!(
        catalog_url("https://r.example/v2", 0, "library/alpine"),
        "https://r.example/v2/_catalog?last=library/alpine"
    );
}

#[test]
fn url_with_page_size_only() {
    assert_eq!(
        catalog_url("https://r.example/v2", 300, ""),
        "https://r.example/v2/_catalog?n=300"
    );
}

#[test]
fn url_with_page_size_and_cursor() {
    assert_eq!(
        catalog_url("https://r.example/v2", 25, "zeta"),
        "https://r.example/v2/_catalog?n=25&last=zeta"
    );
}

#[test]
fn request_names_the_last_name_seen() {
    let crawl = Crawl::new(2);
    assert_eq!(crawl.cursor(), "");
    assert_eq!(crawl.request("http://h/v2"), "http://h/v2/_catalog?n=2");
    match crawl.absorb(vec!["a".to_string(), "b".to_string()]) {
        CrawlStep::Fetch(next) => {
            assert_eq!(next.len(), 2);
            assert_eq!(next.cursor(), "b");
            assert_eq!(next.request("http://h/v2"), "http://h/v2/_catalog?n=2&last=b");
        }
        other => panic!("unexpected {:?}", other),
    }
}

#[test]
fn crawl_collects_catalogs_of_edge_sizes() {
    let p = 7;
    for n in [0, 1, p - 1, p, p + 1, 3 * p] {
        let catalog = names(0, n);
        let (all, requests) = run(&catalog, p);
        assert_eq!(all, catalog, "catalog of {} names", n);
        assert_eq!(requests, n / p + 1, "catalog of {} names", n);
    }
}

#[test]
fn crawl_with_page_size_one() {
    let catalog = names(0, 4);
    let (all, requests) = run(&catalog, 1);
    assert_eq!(all, catalog);
    assert_eq!(requests, 5);
}

#[test]
fn crawl_without_page_size_asks_once() {
    let catalog = names(0, 12);
    let (all, requests) = run(&catalog, 0);
    assert_eq!(all, catalog);
    assert_eq!(requests, 1);
    let (none, requests) = run(&[], 0);
    assert!(none.is_empty());
    assert_eq!(requests, 1);
}

#[test]
fn a_full_page_goes_on_and_a_short_page_ends() {
    let crawl = Crawl::new(3);
    let crawl = match crawl.absorb(names(0, 3)) {
        CrawlStep::Fetch(next) => next,
        other => panic!("unexpected {:?}", other),
    };
    match crawl.absorb(names(3, 5)) {
        CrawlStep::Publish(all) => assert_eq!(all, names(0, 5)),
        other => panic!("unexpected {:?}", other),
    }
}

#[test]
fn the_last_page_may_be_empty() {
    let crawl = Crawl::new(2);
    let crawl = match crawl.absorb(names(0, 2)) {
        CrawlStep::Fetch(next) => next,
        other => panic!("unexpected {:?}", other),
    };
    match crawl.absorb(Vec::new()) {
        CrawlStep::Publish(all) => assert_eq!(all, names(0, 2)),
        other => panic!("unexpected {:?}", other),
    }
}

#[test]
fn advance_reads_a_catalog_page() {
    let crawl = Crawl::new(2);
    let body = FetchOutcome::Body(r#"{"repositories": ["a/one", "b/two"]}"#.to_string());
    let crawl = match crawl.advance(body) {
        Ok(CrawlStep::Fetch(next)) => next,
        other => panic!("unexpected {:?}", other),
    };
    assert_eq!(crawl.cursor(), "b/two");
    let body = FetchOutcome::Body(r#"{"repositories": ["c/three"]}"#.to_string());
    match crawl.advance(body) {
        Ok(CrawlStep::Publish(all)) => assert_eq!(all, vec!["a/one", "b/two", "c/three"]),
        other => panic!("unexpected {:?}", other),
    }
}

#[test]
fn a_failed_request_gives_the_crawl_up() {
    let crawl = Crawl::new(2);
    match crawl.advance(FetchOutcome::Failed("timed out".to_string())) {
        Err(CrawlError::Request(why)) => assert_eq!(why, "timed out"),
        other => panic!("unexpected {:?}", other),
    }
}

#[test]
fn an_answer_that_is_no_catalog_page_gives_the_crawl_up() {
    for body in ["<html>", r#"{"repos": []}"#, r#"{"repositories": [1]}"#, r#"{"repositories": null}"#] {
        let crawl = Crawl::new(2);
        assert!(matches!(
            crawl.advance(FetchOutcome::Body(body.to_string())),
            Err(CrawlError::Decode)
        ));
    }
}
