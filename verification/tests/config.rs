//! Configuration values and error descriptions.

use hydrus_utils::config::Config;
use hydrus_utils::config::HydrusConfig;
use hydrus_utils::config::SauceNaoConfig;
use hydrus_utils::error::Error;

#[test]
fn configured_saucenao_section_is_returned() {
    let config = Config {
        hydrus: HydrusConfig {
            api_url: "http://127.0.0.1:41331".to_string(),
            api_key: "store-key".to_string(),
        },
        saucenao: Some(SauceNaoConfig {
            api_key: "search-key".to_string(),
        }),
        twitter: None,
    };
    let saucenao = config.into_saucenao();
    assert_eq!(saucenao.api_key, "search-key");
}

#[test]
fn errors_describe_themselves() {
    assert_eq!(Error::MissingInput.describe(), "no urls provided");
    assert_eq!(Error::UnexpectedEntryKind.describe(), "unexpected entry kind");
    assert_eq!(Error::EmptyListing.describe(), "empty listing");
    assert_eq!(Error::AmbiguousListing.describe(), "more than one post entry");
    assert_eq!(
        Error::Hydrus("connection refused".to_string()).describe(),
        "connection refused"
    );
    assert_eq!(Error::Message("boom".to_string()).describe(), "boom");
}
