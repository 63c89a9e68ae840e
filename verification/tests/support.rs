//! Tests for the resolver, the notifier and the configuration.

use flam::context::{resolve_context, Context};
use flam::notifier::LoggingNotifier;
use flam::http::Config;

const DC: &str = "http://purl.org/dc/elements/1.1/";

#[test]
fn resolver_maps_plain_local_names() {
    assert_eq!(resolve_context("item", None), Some(Context::Item));
    assert_eq!(resolve_context("title", None), Some(Context::Title));
    assert_eq!(resolve_context("link", None), Some(Context::Link));
    assert_eq!(resolve_context("description", None), Some(Context::Description));
    assert_eq!(resolve_context("guid", None), None);
}

#[test]
fn resolver_maps_dublin_core_names() {
    assert_eq!(resolve_context("date", Some(DC)), Some(Context::DcDate));
    assert_eq!(resolve_context("creator", Some(DC)), Some(Context::DcCreator));
    assert_eq!(resolve_context("title", Some(DC)), None);
    assert_eq!(resolve_context("date", None), None);
    assert_eq!(resolve_context("date", Some("http://example.com/ns")), None);
}

#[test]
fn resolver_ignores_unrelated_namespaces_for_plain_names() {
    assert_eq!(resolve_context("item", Some("http://example.com/ns")), Some(Context::Item));
}

#[test]
fn context_labels() {
    assert_eq!(Context::Item.label(), "Item");
    assert_eq!(Context::Title.label(), "Title");
    assert_eq!(Context::Link.label(), "Link");
    assert_eq!(Context::DcDate.label(), "DcDate");
    assert_eq!(Context::DcCreator.label(), "DcCreator");
    assert_eq!(Context::Description.label(), "Description");
}

#[test]
fn notifier_renders_headline_and_body() {
    let notifier = LoggingNotifier::new();
    assert_eq!(notifier.notify("Foo", "Bar"), "Foo: Bar");
}

#[test]
fn default_config_names_the_downloader() {
    let config = Config::default();
    assert_eq!(
        config.user_agent,
        "Flam HTTP(S) downloader client - see https://github.com/osak/flam for details"
    );
}
