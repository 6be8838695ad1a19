use multithreaded_web_crawler::frontier::Frontier;

#[test]
fn a_new_frontier_is_empty() {
    let mut frontier = Frontier::new();
    assert!(frontier.is_empty());
    assert_eq!(frontier.len(), 0);
    assert_eq!(frontier.unique_urls(), 0);
    assert!(frontier.dequeue().is_none());
}

#[test]
fn entries_leave_in_the_order_they_came() {
    let mut frontier = Frontier::new();
    assert!(frontier.try_enqueue("https://x.test/1", 0));
    assert!(frontier.try_enqueue("https://x.test/2", 3));
    assert!(frontier.try_enqueue("https://x.test/3", 1));
    assert_eq!(frontier.len(), 3);
    let first = frontier.dequeue().unwrap();
    assert_eq!((first.url.as_str(), first.depth), ("https://x.test/1", 0));
    let second = frontier.dequeue().unwrap();
    assert_eq!((second.url.as_str(), second.depth), ("https://x.test/2", 3));
    let third = frontier.dequeue().unwrap();
    assert_eq!((third.url.as_str(), third.depth), ("https://x.test/3", 1));
    assert!(frontier.dequeue().is_none());
    assert!(frontier.is_empty());
}

#[test]
fn a_url_is_queued_once() {
    let mut frontier = Frontier::new();
    assert!(frontier.try_enqueue("https://x.test/a", 0));
    assert!(!frontier.try_enqueue("https://x.test/a", 1));
    assert!(!frontier.try_enqueue("https://x.test/a#frag", 2));
    assert!(!frontier.try_enqueue("HTTPS://X.TEST/a", 0));
    assert_eq!(frontier.len(), 1);
    assert_eq!(frontier.unique_urls(), 1);
    let entry = frontier.dequeue().unwrap();
    assert_eq!(entry.url, "https://x.test/a");
    assert_eq!(entry.depth, 0);
}

#[test]
fn a_url_that_has_left_is_not_queued_again() {
    let mut frontier = Frontier::new();
    assert!(frontier.try_enqueue("https://x.test/a", 0));
    assert!(frontier.dequeue().is_some());
    assert!(!frontier.try_enqueue("https://x.test/a", 0));
    assert!(!frontier.try_enqueue("https://x.test/a#again", 5));
    assert!(frontier.is_empty());
    assert_eq!(frontier.unique_urls(), 1);
}

#[test]
fn what_has_no_canonical_form_is_not_queued() {
    let mut frontier = Frontier::new();
    assert!(!frontier.try_enqueue("not a url", 0));
    assert!(!frontier.try_enqueue("mailto:a@x.test", 0));
    assert!(!frontier.try_enqueue("ftp://x.test/", 0));
    assert!(frontier.is_empty());
    assert_eq!(frontier.unique_urls(), 0);
}

#[test]
fn the_canonical_form_is_what_is_queued() {
    let mut frontier = Frontier::new();
    assert!(frontier.try_enqueue("HTTP://Example.COM/a/../b#c", 7));
    let entry = frontier.dequeue().unwrap();
    assert_eq!(entry.url, "http://example.com/b");
    assert_eq!(entry.depth, 7);
}

#[test]
fn enqueue_all_counts_what_it_queued() {
    let mut frontier = Frontier::new();
    let urls = vec![
        "https://x.test/a".to_string(),
        "https://x.test/b#1".to_string(),
        "https://x.test/a#2".to_string(),
        "nonsense".to_string(),
        "https://x.test/b".to_string(),
        "https://x.test/c".to_string(),
    ];
    assert_eq!(frontier.enqueue_all(&urls, 4), 3);
    assert_eq!(frontier.len(), 3);
    assert_eq!(frontier.unique_urls(), 3);
    let mut left = Vec::new();
    while let Some(entry) = frontier.dequeue() {
        assert_eq!(entry.depth, 4);
        left.push(entry.url);
    }
    assert_eq!(left, vec!["https://x.test/a", "https://x.test/b", "https://x.test/c"]);
    assert_eq!(frontier.enqueue_all(&urls, 0), 0);
    assert_eq!(frontier.enqueue_all(&Vec::new(), 0), 0);
}

#[test]
fn each_url_leaves_at_most_once_whatever_the_order_of_calls() {
    let mut frontier = Frontier::new();
    let mut left: Vec<String> = Vec::new();
    let mut round: usize = 0;
    while round < 200 {
        let url = format!("https://x.test/{}#{}", (round * 7) % 13, round);
        frontier.try_enqueue(&url, round);
        if round % 3 == 0 {
            if let Some(entry) = frontier.dequeue() {
                left.push(entry.url);
            }
        }
        round += 1;
    }
    while let Some(entry) = frontier.dequeue() {
        left.push(entry.url);
    }
    let mut distinct = left.clone();
    distinct.sort();
    distinct.dedup();
    assert_eq!(distinct.len(), left.len());
    assert_eq!(left.len(), 13);
    assert_eq!(frontier.unique_urls(), 13);
}
