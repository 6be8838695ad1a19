use multithreaded_web_crawler::storage::memory::MemoryStore;
use multithreaded_web_crawler::storage::{clone_option_string, clone_strings, ContentStore, Page};

fn page(url: &str, depth: usize) -> Page {
    Page {
        url: url.to_string(),
        title: Some(format!("title of {}", url)),
        description: None,
        content: "<html></html>".to_string(),
        links: vec!["https://x.test/l".to_string()],
        crawl_depth: depth,
        crawl_time: 42,
    }
}

#[test]
fn a_new_store_is_empty() {
    let store = MemoryStore::new();
    assert!(store.get_all_pages().is_empty());
}

#[test]
fn the_store_keeps_pages_in_the_order_of_arrival() {
    let mut store = MemoryStore::new();
    assert!(store.add_page(page("https://x.test/1", 0)).is_ok());
    assert!(store.add_page(page("https://x.test/2", 1)).is_ok());
    assert!(store.add_page(page("https://x.test/1", 2)).is_ok());
    let pages = store.get_all_pages();
    assert_eq!(pages.len(), 3);
    assert_eq!(pages[0].url, "https://x.test/1");
    assert_eq!(pages[1].url, "https://x.test/2");
    assert_eq!(pages[2].url, "https://x.test/1");
    assert_eq!(pages[2].crawl_depth, 2);
    assert_eq!(store.get_all_pages().len(), 3);
}

#[test]
fn a_copy_of_a_page_holds_the_same() {
    let first = page("https://x.test/a", 3);
    let copy = first.clone();
    assert_eq!(copy.url, first.url);
    assert_eq!(copy.title, first.title);
    assert_eq!(copy.description, first.description);
    assert_eq!(copy.content, first.content);
    assert_eq!(copy.links, first.links);
    assert_eq!(copy.crawl_depth, 3);
    assert_eq!(copy.crawl_time, 42);
}

#[test]
fn copies_of_strings_hold_the_same() {
    assert_eq!(clone_option_string(&Some("a".to_string())), Some("a".to_string()));
    assert_eq!(clone_option_string(&None), None);
    let strings = vec!["a".to_string(), "".to_string(), "b".to_string()];
    assert_eq!(clone_strings(&strings), strings);
    assert_eq!(clone_strings(&Vec::new()), Vec::<String>::new());
}
