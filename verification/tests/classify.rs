//! URL classification and per-platform partitioning.

use hydrus_utils::pipeline::partition_urls;
use hydrus_utils::pipeline::ClassifiedUrl;
use hydrus_utils::urls::find_url_type;
use hydrus_utils::urls::is_reddit_url;
use hydrus_utils::urls::UrlType;

#[test]
fn recognizes_reddit_hosts() {
    assert!(is_reddit_url("https://www.reddit.com/r/test/comments/abc123/title/"));
    assert!(is_reddit_url("http://reddit.com/r/x"));
    assert!(is_reddit_url("https://redd.it/abc123"));
    assert!(is_reddit_url("https://reddit.app.link/foo"));
    assert!(is_reddit_url("https://www.redd.it/abc"));
}

#[test]
fn reddit_check_is_case_insensitive() {
    assert!(is_reddit_url("HTTPS://WWW.REDDIT.COM/r/test"));
    assert!(is_reddit_url("Https://Reddit.Com/r/test"));
    assert!(is_reddit_url("https://REDDIT.APP.LINK/x"));
}

#[test]
fn rejects_other_hosts() {
    assert!(!is_reddit_url("https://example.com/r/test"));
    assert!(!is_reddit_url("https://lemmy.blahaj.zone/post/113727"));
    assert!(!is_reddit_url("reddit.com/r/test"));
    assert!(!is_reddit_url("ftp://reddit.com/r/test"));
    assert!(!is_reddit_url(""));
}

#[test]
fn classifies_reddit_without_probe() {
    assert_eq!(
        find_url_type("https://www.reddit.com/r/test/comments/a/b/", false),
        UrlType::Reddit
    );
}

#[test]
fn classifies_by_probe_outcome() {
    assert_eq!(
        find_url_type("https://lemmy.blahaj.zone/post/113727", true),
        UrlType::Fedi
    );
    assert_eq!(find_url_type("https://example.com/a", false), UrlType::Other);
}

#[test]
fn partitions_urls_in_input_order() {
    let items = vec![
        ClassifiedUrl {
            url: "https://reddit.com/1".to_string(),
            kind: UrlType::Reddit,
        },
        ClassifiedUrl {
            url: "https://fedi.example/2".to_string(),
            kind: UrlType::Fedi,
        },
        ClassifiedUrl {
            url: "https://example.com/3".to_string(),
            kind: UrlType::Other,
        },
        ClassifiedUrl {
            url: "https://reddit.com/4".to_string(),
            kind: UrlType::Reddit,
        },
    ];
    let parts = partition_urls(&items);
    assert_eq!(
        parts.reddit,
        vec!["https://reddit.com/1".to_string(), "https://reddit.com/4".to_string()]
    );
    assert_eq!(parts.fedi, vec!["https://fedi.example/2".to_string()]);
    assert_eq!(parts.unknown, vec!["https://example.com/3".to_string()]);
}

#[test]
fn unknown_url_gets_no_resolver() {
    // An Unknown-classified URL goes to the direct-import bucket; no
    // resolver sees it.
    let items = vec![ClassifiedUrl {
        url: "https://example.com/opaque".to_string(),
        kind: find_url_type("https://example.com/opaque", false),
    }];
    let parts = partition_urls(&items);
    assert!(parts.reddit.is_empty());
    assert!(parts.fedi.is_empty());
    assert_eq!(parts.unknown, vec!["https://example.com/opaque".to_string()]);
}
