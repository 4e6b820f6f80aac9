//! Where the downstream services are to be found.

use vstd::prelude::*;
use crate::check::{CheckTarget, TargetModel};

verus! {

/// Setting that overrides the analytics engine's health endpoint.
pub const ANALYTICS_URL_VAR: &'static str = "ANALYTICS_URL";

/// Setting that overrides the resource monitor's health endpoint.
pub const MONITOR_URL_VAR: &'static str = "MONITOR_URL";

/// Setting that overrides the orchestrator API's health endpoint.
pub const API_URL_VAR: &'static str = "API_URL";

pub const DEFAULT_ANALYTICS_URL: &'static str = "https://analytics:8000/health";

pub const DEFAULT_MONITOR_URL: &'static str = "https://monitor:8080/health";

pub const DEFAULT_API_URL: &'static str = "https://api:3000/health";

pub const ANALYTICS_NAME: &'static str = "analytics-engine";

pub const MONITOR_NAME: &'static str = "resource-monitor";

pub const API_NAME: &'static str = "orchestrator-api";

/// The health endpoints of the three services, fixed once at startup.
pub struct ServiceUrls {
    pub analytics: String,
    pub monitor: String,
    pub api: String,
}

/// The mathematical content of [`ServiceUrls`].
pub struct UrlsModel {
    pub analytics: Seq<char>,
    pub monitor: Seq<char>,
    pub api: Seq<char>,
}

impl View for ServiceUrls {
    type V = UrlsModel;

    open spec fn view(&self) -> UrlsModel {
        UrlsModel { analytics: self.analytics@, monitor: self.monitor@, api: self.api@ }
    }
}

/// A setting's value where it is set, the fallback where it is not.
pub open spec fn setting_or(setting: Option<String>, fallback: Seq<char>) -> Seq<char> {
    match setting {
        Some(value) => value@,
        None => fallback,
    }
}

/// The targets that a set of endpoints stands for, in reporting order.
pub open spec fn targets_of(urls: UrlsModel) -> Seq<TargetModel> {
    seq![
        TargetModel { name: ANALYTICS_NAME@, url: urls.analytics },
        TargetModel { name: MONITOR_NAME@, url: urls.monitor },
        TargetModel { name: API_NAME@, url: urls.api },
    ]
}

fn value_or(setting: Option<String>, fallback: &str) -> (value: String)
    ensures
        value@ == setting_or(setting, fallback@),
{
    match setting {
        Some(value) => value,
        None => String::from_str(fallback),
    }
}

impl ServiceUrls {
    /// Takes each endpoint from its setting, and the fixed internal endpoint
    /// for a setting that is absent.
    pub fn resolve(analytics: Option<String>, monitor: Option<String>, api: Option<String>) -> (urls:
        ServiceUrls)
        ensures
            urls@ == (UrlsModel {
                analytics: setting_or(analytics, DEFAULT_ANALYTICS_URL@),
                monitor: setting_or(monitor, DEFAULT_MONITOR_URL@),
                api: setting_or(api, DEFAULT_API_URL@),
            }),
    {
        ServiceUrls {
            analytics: value_or(analytics, DEFAULT_ANALYTICS_URL),
            monitor: value_or(monitor, DEFAULT_MONITOR_URL),
            api: value_or(api, DEFAULT_API_URL),
        }
    }

    /// The three targets to check, in the order in which they are reported.
    pub fn targets(&self) -> (targets: Vec<CheckTarget>)
        ensures
            targets.deep_view() == targets_of(self@),
            targets.len() == 3,
    {
        let mut targets: Vec<CheckTarget> = Vec::new();
        targets.push(CheckTarget::new(ANALYTICS_NAME, self.analytics.as_str()));
        targets.push(CheckTarget::new(MONITOR_NAME, self.monitor.as_str()));
        targets.push(CheckTarget::new(API_NAME, self.api.as_str()));
        assert(targets.deep_view() =~= targets_of(self@));
        targets
    }
}

} // verus!
