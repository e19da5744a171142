use kube_fqdn::configuration::{
    EnvConfigManager, Selector, SimpleConfiguration, SimpleConfigurationBuilder,
    DEFAULT_REFRESH_SECS,
};
use std::time::Duration;

fn unrestricted() -> Selector {
    Selector { labels: None, fields: None }
}

#[test]
fn default_refresh_is_sixty_seconds() {
    let configuration = SimpleConfiguration::default();
    assert_eq!(DEFAULT_REFRESH_SECS, 60);
    assert_eq!(configuration.refresh_duration, Duration::from_secs(60));
    assert_eq!(configuration.refresh_duration.as_secs(), 60);
    assert_eq!(configuration.refresh_duration.subsec_nanos(), 0);
}

#[test]
fn default_selectors_are_unrestricted() {
    let configuration = SimpleConfiguration::default();
    assert_eq!(configuration.namespaces_selector, unrestricted());
    assert_eq!(configuration.services_selector, unrestricted());
    assert_eq!(Selector::default(), unrestricted());
}

#[test]
fn builder_without_overrides_builds_the_default() {
    let built = EnvConfigManager::new().build();
    assert_eq!(built, SimpleConfiguration::default());
    assert_eq!(built.refresh_duration.as_secs(), 60);
}

#[test]
fn refresh_override_is_used() {
    let mut builder = EnvConfigManager::new();
    let built = builder.refresh_duration(&Duration::from_millis(1500)).build();
    assert_eq!(built.refresh_duration, Duration::from_millis(1500));
    assert_eq!(built.namespaces_selector, unrestricted());
    assert_eq!(built.services_selector, unrestricted());
}

#[test]
fn namespaces_selector_override_is_used() {
    let selector = Selector { labels: Some("team=a".to_string()), fields: None };
    let mut builder = EnvConfigManager::new();
    let built = builder.namespaces_selector(&selector).build();
    assert_eq!(built.namespaces_selector, selector);
    assert_eq!(built.services_selector, unrestricted());
    assert_eq!(built.refresh_duration, Duration::from_secs(60));
}

#[test]
fn services_selector_override_is_used() {
    let selector = Selector {
        labels: Some("expose=true".to_string()),
        fields: Some("metadata.name!=kubernetes".to_string()),
    };
    let mut builder = EnvConfigManager::new();
    let built = builder.services_selector(&selector).build();
    assert_eq!(built.services_selector, selector);
    assert_eq!(built.namespaces_selector, unrestricted());
}

#[test]
fn overrides_chain_and_the_last_one_wins() {
    let first = Selector { labels: Some("a=1".to_string()), fields: None };
    let second = Selector { labels: None, fields: Some("b=2".to_string()) };
    let mut builder = EnvConfigManager::new();
    let built = builder
        .refresh_duration(&Duration::from_secs(5))
        .namespaces_selector(&first)
        .services_selector(&first)
        .namespaces_selector(&second)
        .refresh_duration(&Duration::from_secs(7))
        .build();
    assert_eq!(built.refresh_duration, Duration::from_secs(7));
    assert_eq!(built.namespaces_selector, second);
    assert_eq!(built.services_selector, first);
}

#[test]
fn building_keeps_the_overrides() {
    let selector = Selector { labels: Some("team=a".to_string()), fields: None };
    let mut builder = EnvConfigManager::new();
    builder.refresh_duration(&Duration::from_secs(9));
    builder.namespaces_selector(&selector);
    let first = builder.build();
    let second = builder.build();
    assert_eq!(first, second);
    assert_eq!(second.refresh_duration, Duration::from_secs(9));
    assert_eq!(second.namespaces_selector, selector);
}

#[test]
fn selector_clone_is_equal() {
    let selector = Selector {
        labels: Some("team=a".to_string()),
        fields: Some("metadata.name=web".to_string()),
    };
    assert_eq!(selector.clone(), selector);
    assert_eq!(unrestricted().clone(), unrestricted());
}

#[test]
fn zero_refresh_is_accepted() {
    let mut builder = EnvConfigManager::new();
    let built = builder.refresh_duration(&Duration::from_secs(0)).build();
    assert_eq!(built.refresh_duration, Duration::ZERO);
}
