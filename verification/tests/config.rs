use health_checker::config::{
    ServiceUrls, ANALYTICS_NAME, ANALYTICS_URL_VAR, API_NAME, API_URL_VAR, DEFAULT_ANALYTICS_URL,
    DEFAULT_API_URL, DEFAULT_MONITOR_URL, MONITOR_NAME, MONITOR_URL_VAR,
};

#[test]
fn settings_are_named_after_the_services() {
    assert_eq!(ANALYTICS_URL_VAR, "ANALYTICS_URL");
    assert_eq!(MONITOR_URL_VAR, "MONITOR_URL");
    assert_eq!(API_URL_VAR, "API_URL");
}

#[test]
fn fixed_names_and_endpoints() {
    assert_eq!(ANALYTICS_NAME, "analytics-engine");
    assert_eq!(MONITOR_NAME, "resource-monitor");
    assert_eq!(API_NAME, "orchestrator-api");
    assert_eq!(DEFAULT_ANALYTICS_URL, "https://analytics:8000/health");
    assert_eq!(DEFAULT_MONITOR_URL, "https://monitor:8080/health");
    assert_eq!(DEFAULT_API_URL, "https://api:3000/health");
}

#[test]
fn absent_settings_fall_back_to_the_fixed_endpoints() {
    let urls = ServiceUrls::resolve(None, None, None);
    assert_eq!(urls.analytics, "https://analytics:8000/health");
    assert_eq!(urls.monitor, "https://monitor:8080/health");
    assert_eq!(urls.api, "https://api:3000/health");
}

#[test]
fn settings_override_the_fixed_endpoints() {
    let urls = ServiceUrls::resolve(
        Some(String::from("http://localhost:1/a")),
        Some(String::from("http://localhost:2/m")),
        Some(String::from("http://localhost:3/o")),
    );
    assert_eq!(urls.analytics, "http://localhost:1/a");
    assert_eq!(urls.monitor, "http://localhost:2/m");
    assert_eq!(urls.api, "http://localhost:3/o");
}

#[test]
fn each_setting_is_taken_on_its_own() {
    let urls = ServiceUrls::resolve(None, Some(String::from("http://localhost:2/m")), None);
    assert_eq!(urls.analytics, "https://analytics:8000/health");
    assert_eq!(urls.monitor, "http://localhost:2/m");
    assert_eq!(urls.api, "https://api:3000/health");
    let urls = ServiceUrls::resolve(Some(String::new()), None, Some(String::from("x")));
    assert_eq!(urls.analytics, "");
    assert_eq!(urls.monitor, "https://monitor:8080/health");
    assert_eq!(urls.api, "x");
}

#[test]
fn three_targets_in_reporting_order() {
    let urls = ServiceUrls::resolve(None, Some(String::from("http://localhost:2/m")), None);
    let targets = urls.targets();
    assert_eq!(targets.len(), 3);
    assert_eq!(targets[0].name, "analytics-engine");
    assert_eq!(targets[0].url, "https://analytics:8000/health");
    assert_eq!(targets[1].name, "resource-monitor");
    assert_eq!(targets[1].url, "http://localhost:2/m");
    assert_eq!(targets[2].name, "orchestrator-api");
    assert_eq!(targets[2].url, "https://api:3000/health");
}
