use multithreaded_web_crawler::robots::RobotsTxt;
use multithreaded_web_crawler::robots_cache::{RobotsCache, RobotsCheck};

fn reference_rules(content: &str) -> (Vec<String>, Vec<String>) {
    let mut allowed = Vec::new();
    let mut disallowed = Vec::new();
    for line in content.lines() {
        let line = line.trim();
        if line.starts_with("Allow: ") {
            if let Some(path) = line.get(6..) {
                allowed.push(path.trim().to_string());
            }
        } else if line.starts_with("Disallow: ") {
            if let Some(path) = line.get(9..) {
                disallowed.push(path.trim().to_string());
            }
        }
    }
    (allowed, disallowed)
}

#[test]
fn parse_reads_allow_and_disallow_lines_in_order() {
    let rules = RobotsTxt::parse("User-agent: *\nAllow: /public\nDisallow: /private\nDisallow: /tmp\nAllow: /x\n");
    assert_eq!(rules.allowed_paths, vec!["/public".to_string(), "/x".to_string()]);
    assert_eq!(rules.disallowed_paths, vec!["/private".to_string(), "/tmp".to_string()]);
}

#[test]
fn parse_skips_what_it_does_not_know() {
    let rules = RobotsTxt::parse("# a comment\nCrawl-delay: 10\nSitemap: https://x.test/s.xml\nallow: /lower\nAllow:/nospace\nDisallow /nocolon\n\n");
    assert!(rules.allowed_paths.is_empty());
    assert!(rules.disallowed_paths.is_empty());
}

#[test]
fn parse_trims_lines_and_paths() {
    let rules = RobotsTxt::parse("  Allow:    /a b  \r\n\tDisallow: \t/c\t\r\nAllow: /d");
    assert_eq!(rules.allowed_paths, vec!["/a b".to_string(), "/d".to_string()]);
    assert_eq!(rules.disallowed_paths, vec!["/c".to_string()]);
}

#[test]
fn parse_of_nothing_is_no_rule() {
    let rules = RobotsTxt::parse("");
    assert!(rules.allowed_paths.is_empty());
    assert!(rules.disallowed_paths.is_empty());
    assert!(rules.is_allowed("/anything"));
}

#[test]
fn parse_reads_a_last_line_without_line_feed() {
    let rules = RobotsTxt::parse("Disallow: /a\nDisallow: /b");
    assert_eq!(rules.disallowed_paths, vec!["/a".to_string(), "/b".to_string()]);
}

#[test]
fn parse_agrees_with_line_by_line_reading() {
    let inputs = [
        "",
        "\n",
        "\n\n\n",
        "Allow: /a",
        "Allow: /a\n",
        "Allow: /a\r\nDisallow: /b\r\n",
        "Allow: /a\rDisallow: /b",
        "Disallow: \nAllow: \n",
        "Disallow:\n",
        "  Disallow:   /x   \n   \nAllow: /é€ \u{3000}\n",
        "Allow: Disallow: /a\nDisallow: Allow: /b\n",
        "XAllow: /a\nAllow : /b\nALLOW: /c\n",
        "\u{a0}Allow: /nbsp\u{a0}\n",
    ];
    for input in inputs {
        let rules = RobotsTxt::parse(input);
        let (allowed, disallowed) = reference_rules(input);
        assert_eq!(rules.allowed_paths, allowed, "{:?}", input);
        assert_eq!(rules.disallowed_paths, disallowed, "{:?}", input);
    }
}

#[test]
fn allow_wins_over_disallow() {
    let rules = RobotsTxt::parse("Allow: /public\nDisallow: /\n");
    assert!(rules.is_allowed("/public/page"));
    assert!(rules.is_allowed("/public"));
    assert!(!rules.is_allowed("/private"));
    assert!(!rules.is_allowed("/other"));
    assert!(!rules.is_allowed("/"));
    assert!(!rules.is_allowed("/publi"));
}

#[test]
fn a_path_that_no_rule_matches_is_allowed() {
    let rules = RobotsTxt::parse("Allow: /public\nDisallow: /private\n");
    assert!(rules.is_allowed("/other"));
    assert!(rules.is_allowed(""));
    assert!(!rules.is_allowed("/private/x"));
    assert!(rules.is_allowed("/public/x"));
}

#[test]
fn a_directive_without_a_path_is_no_rule() {
    let rules = RobotsTxt::parse("Disallow: \nAllow: \nDisallow:\nAllow:  \t\n");
    assert!(rules.allowed_paths.is_empty());
    assert!(rules.disallowed_paths.is_empty());
    assert!(rules.is_allowed("/a"));
}

#[test]
fn an_empty_prefix_matches_every_path() {
    let forbid = RobotsTxt { allowed_paths: Vec::new(), disallowed_paths: vec![String::new()] };
    assert!(!forbid.is_allowed("/a"));
    assert!(!forbid.is_allowed(""));
    let permit = RobotsTxt { allowed_paths: vec![String::new()], disallowed_paths: vec![String::new()] };
    assert!(permit.is_allowed("/a"));
}

#[test]
fn rules_made_by_hand_are_judged_the_same() {
    let rules = RobotsTxt {
        allowed_paths: vec!["/a/b".to_string()],
        disallowed_paths: vec!["/a".to_string(), "/c".to_string()],
    };
    assert!(rules.is_allowed("/a/b/c"));
    assert!(!rules.is_allowed("/a/x"));
    assert!(!rules.is_allowed("/cc"));
    assert!(rules.is_allowed("/d"));
}

#[test]
fn cache_asks_for_the_robots_txt_of_an_unknown_host() {
    let cache = RobotsCache::new();
    match cache.check("https://x.test:8443/a/b?q=1#f") {
        RobotsCheck::Unknown { robots_url, host, path } => {
            assert_eq!(robots_url, "https://x.test:8443/robots.txt");
            assert_eq!(host, "x.test");
            assert_eq!(path, "/a/b");
        }
        other => panic!("unexpected verdict {:?}", other),
    }
}

#[test]
fn cache_allows_what_has_no_host_or_does_not_parse() {
    let cache = RobotsCache::new();
    assert!(matches!(cache.check("not a url"), RobotsCheck::Allowed));
    assert!(matches!(cache.check("mailto:a@x.test"), RobotsCheck::Allowed));
    assert!(matches!(cache.check("data:text/plain,x"), RobotsCheck::Allowed));
}

#[test]
fn cache_keeps_rules_by_host() {
    let mut cache = RobotsCache::new();
    assert!(!cache.learn("x.test", "/private/a", Some("Disallow: /private\n")));
    assert!(matches!(cache.check("https://x.test/private/a"), RobotsCheck::Denied));
    assert!(matches!(cache.check("http://x.test:81/private"), RobotsCheck::Denied));
    assert!(matches!(cache.check("https://x.test/public"), RobotsCheck::Allowed));
    assert!(matches!(cache.check("https://y.test/private/a"), RobotsCheck::Unknown { .. }));
}

#[test]
fn cache_fails_open_and_keeps_nothing_of_a_failure() {
    let mut cache = RobotsCache::new();
    assert!(cache.learn("x.test", "/private", None));
    assert!(matches!(cache.check("https://x.test/private"), RobotsCheck::Unknown { .. }));
}

#[test]
fn cache_overwrites_the_rules_of_a_host() {
    let mut cache = RobotsCache::new();
    assert!(!cache.learn("x.test", "/a", Some("Disallow: /a")));
    assert!(cache.learn("x.test", "/a", Some("Disallow: /b")));
    assert!(matches!(cache.check("https://x.test/a"), RobotsCheck::Allowed));
    assert!(matches!(cache.check("https://x.test/b"), RobotsCheck::Denied));
}
