//! Reverse-search matches: canonical-origin selection, URL flattening,
//! illustration ids, and tag flattening.

use hydrus_utils::pixiv::get_pixiv_url;
use hydrus_utils::pixiv::get_urls;
use hydrus_utils::pixiv::pixiv_id_from_url;
use hydrus_utils::pixiv::preferred_tag_labels;
use hydrus_utils::pixiv::IllustTag;
use hydrus_utils::pixiv::Sauce;

fn sauce(similarity: u32, urls: Vec<&str>) -> Sauce {
    Sauce {
        similarity,
        ext_urls: urls.into_iter().map(|u| u.to_string()).collect(),
        index: 5,
    }
}

#[test]
fn empty_sauce_list_has_no_canonical_origin() {
    // "No match" is an absent value, never an error.
    let sauces: Vec<Sauce> = Vec::new();
    assert_eq!(get_pixiv_url(&sauces), None);
}

#[test]
fn first_match_without_urls_has_no_canonical_origin() {
    let sauces = vec![sauce(91, vec![]), sauce(88, vec!["https://example.com/a"])];
    assert_eq!(get_pixiv_url(&sauces), None);
}

#[test]
fn canonical_origin_is_first_url_of_first_match() {
    let sauces = vec![
        sauce(95, vec!["https://www.pixiv.net/en/artworks?id=555", "https://example.com/b"]),
        sauce(80, vec!["https://example.com/c"]),
    ];
    assert_eq!(
        get_pixiv_url(&sauces),
        Some(&"https://www.pixiv.net/en/artworks?id=555".to_string())
    );
}

#[test]
fn all_urls_flatten_in_order() {
    let sauces = vec![
        sauce(95, vec!["https://a.example/1", "https://a.example/2"]),
        sauce(90, vec![]),
        sauce(85, vec!["https://b.example/3"]),
    ];
    assert_eq!(
        get_urls(&sauces),
        vec![
            "https://a.example/1".to_string(),
            "https://a.example/2".to_string(),
            "https://b.example/3".to_string(),
        ]
    );
}

#[test]
fn illustration_id_is_taken_after_the_last_equals_sign() {
    assert_eq!(
        pixiv_id_from_url("https://www.pixiv.net/en/artworks?id=555"),
        Some("555")
    );
    assert_eq!(pixiv_id_from_url("https://a.example/x?a=1&id=42"), Some("42"));
    assert_eq!(pixiv_id_from_url("https://www.pixiv.net/en/artworks/555"), None);
}

#[test]
fn translated_labels_are_preferred() {
    let tags = vec![
        IllustTag {
            tag: "猫".to_string(),
            translated: Some("cat".to_string()),
        },
        IllustTag {
            tag: "オリジナル".to_string(),
            translated: None,
        },
    ];
    assert_eq!(
        preferred_tag_labels(&tags),
        vec!["cat".to_string(), "オリジナル".to_string()]
    );
}

#[test]
fn duplicate_labels_are_kept() {
    let tags = vec![
        IllustTag {
            tag: "a".to_string(),
            translated: Some("same".to_string()),
        },
        IllustTag {
            tag: "same".to_string(),
            translated: None,
        },
    ];
    assert_eq!(
        preferred_tag_labels(&tags),
        vec!["same".to_string(), "same".to_string()]
    );
}

#[test]
fn no_tags_yield_an_empty_list() {
    let tags: Vec<IllustTag> = Vec::new();
    assert!(preferred_tag_labels(&tags).is_empty());
}
