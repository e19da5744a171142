//! The configuration of the reconciliation loop, and the builder that puts it
//! together from optional overrides.

use crate::resolver::text;
use std::time::Duration;
use vstd::prelude::*;

verus! {

/// The duration of `secs` whole seconds, as `Duration::from_secs` makes it.
pub uninterp spec fn whole_seconds(secs: u64) -> Duration;

/// `Duration::from_secs` of the standard library: the result is the duration
/// of that many whole seconds. Nothing else is claimed of it.
pub assume_specification[ Duration::from_secs ](secs: u64) -> (duration: Duration)
    ensures
        duration == whole_seconds(secs),
;

/// The number of seconds between two cycles where nothing else was asked for.
pub const DEFAULT_REFRESH_SECS: u64 = 60;

/// A server-side filter on a listing: an optional label selector and an
/// optional field selector. Where both are absent, the listing is unrestricted.
#[derive(Debug, PartialEq, Eq)]
pub struct Selector {
    pub labels: Option<String>,
    pub fields: Option<String>,
}

/// What a [`Selector`] stands for in contracts.
pub struct SelectorView {
    pub labels: Option<Seq<char>>,
    pub fields: Option<Seq<char>>,
}

impl View for Selector {
    type V = SelectorView;

    open spec fn view(&self) -> SelectorView {
        SelectorView { labels: text(self.labels), fields: text(self.fields) }
    }
}

/// The selector that lets every resource through.
pub open spec fn unrestricted() -> SelectorView {
    SelectorView { labels: None, fields: None }
}

fn copy_text(value: &Option<String>) -> (copy: Option<String>)
    ensures
        text(copy) == text(*value),
{
    match value {
        Some(s) => Some(s.clone()),
        None => None,
    }
}

impl Clone for Selector {
    fn clone(&self) -> (copy: Self)
        ensures
            copy@ == self@,
    {
        Selector { labels: copy_text(&self.labels), fields: copy_text(&self.fields) }
    }
}

impl Default for Selector {
    fn default() -> (selector: Self)
        ensures
            selector@ == unrestricted(),
    {
        Selector { labels: None, fields: None }
    }
}

/// The settings of the loop. They are fixed once built.
#[derive(Debug, PartialEq)]
pub struct SimpleConfiguration {
    /// The pause between two cycles.
    pub refresh_duration: Duration,
    /// The filter applied when the namespaces are listed.
    pub namespaces_selector: Selector,
    /// The filter applied when the services of a namespace are listed.
    pub services_selector: Selector,
}

/// What a [`SimpleConfiguration`] stands for in contracts.
pub struct ConfigurationView {
    pub refresh_duration: Duration,
    pub namespaces_selector: SelectorView,
    pub services_selector: SelectorView,
}

impl View for SimpleConfiguration {
    type V = ConfigurationView;

    open spec fn view(&self) -> ConfigurationView {
        ConfigurationView {
            refresh_duration: self.refresh_duration,
            namespaces_selector: self.namespaces_selector@,
            services_selector: self.services_selector@,
        }
    }
}

/// The configuration that applies where nothing was overridden: a pause of
/// sixty seconds and unrestricted listings.
pub open spec fn default_configuration() -> ConfigurationView {
    ConfigurationView {
        refresh_duration: whole_seconds(DEFAULT_REFRESH_SECS),
        namespaces_selector: unrestricted(),
        services_selector: unrestricted(),
    }
}

impl Default for SimpleConfiguration {
    fn default() -> (configuration: Self)
        ensures
            configuration@ == default_configuration(),
    {
        SimpleConfiguration {
            refresh_duration: Duration::from_secs(DEFAULT_REFRESH_SECS),
            namespaces_selector: Selector::default(),
            services_selector: Selector::default(),
        }
    }
}

/// The overrides that a builder has been given so far.
pub struct Overrides {
    pub refresh_duration: Option<Duration>,
    pub namespaces_selector: Option<SelectorView>,
    pub services_selector: Option<SelectorView>,
}

/// The configuration that a builder with these overrides builds: each setting
/// is the override where there is one, and the default where there is none.
pub open spec fn built(overrides: Overrides) -> ConfigurationView {
    ConfigurationView {
        refresh_duration: match overrides.refresh_duration {
            Some(duration) => duration,
            None => default_configuration().refresh_duration,
        },
        namespaces_selector: match overrides.namespaces_selector {
            Some(selector) => selector,
            None => default_configuration().namespaces_selector,
        },
        services_selector: match overrides.services_selector {
            Some(selector) => selector,
            None => default_configuration().services_selector,
        },
    }
}

/// A builder of configurations: it collects overrides and builds the
/// configuration that they and the defaults give.
pub trait SimpleConfigurationBuilder: Sized {
    /// The overrides collected so far.
    spec fn overrides(&self) -> Overrides;

    /// Overrides the pause between two cycles.
    fn refresh_duration(&mut self, duration: &Duration) -> (builder: &mut Self)
        ensures
            builder.overrides() == (Overrides {
                refresh_duration: Some(*duration),
                ..old(self).overrides()
            }),
            *final(self) == *final(builder),
    ;

    /// Overrides the filter on the listing of namespaces.
    fn namespaces_selector(&mut self, selector: &Selector) -> (builder: &mut Self)
        ensures
            builder.overrides() == (Overrides {
                namespaces_selector: Some(selector@),
                ..old(self).overrides()
            }),
            *final(self) == *final(builder),
    ;

    /// Overrides the filter on the listing of services.
    fn services_selector(&mut self, selector: &Selector) -> (builder: &mut Self)
        ensures
            builder.overrides() == (Overrides {
                services_selector: Some(selector@),
                ..old(self).overrides()
            }),
            *final(self) == *final(builder),
    ;

    /// Builds the configuration; the builder keeps its overrides.
    fn build(&mut self) -> (configuration: SimpleConfiguration)
        ensures
            configuration@ == built(old(self).overrides()),
            final(self).overrides() == old(self).overrides(),
    ;
}

/// The builder that the program starts from.
#[derive(Debug)]
pub struct EnvConfigManager {
    refresh_duration: Option<Duration>,
    namespaces_selector: Option<Selector>,
    services_selector: Option<Selector>,
}

/// What an optional selector stands for in contracts.
pub open spec fn selector_view(selector: Option<Selector>) -> Option<SelectorView> {
    match selector {
        Some(s) => Some(s@),
        None => None,
    }
}

impl SimpleConfigurationBuilder for EnvConfigManager {
    closed spec fn overrides(&self) -> Overrides {
        Overrides {
            refresh_duration: self.refresh_duration,
            namespaces_selector: selector_view(self.namespaces_selector),
            services_selector: selector_view(self.services_selector),
        }
    }

    fn refresh_duration(&mut self, duration: &Duration) -> (builder: &mut Self) {
        self.refresh_duration = Some(*duration);
        self
    }

    fn namespaces_selector(&mut self, selector: &Selector) -> (builder: &mut Self) {
        self.namespaces_selector = Some(selector.clone());
        self
    }

    fn services_selector(&mut self, selector: &Selector) -> (builder: &mut Self) {
        self.services_selector = Some(selector.clone());
        self
    }

    fn build(&mut self) -> (configuration: SimpleConfiguration) {
        SimpleConfiguration {
            refresh_duration: match self.refresh_duration {
                Some(duration) => duration,
                None => Duration::from_secs(DEFAULT_REFRESH_SECS),
            },
            namespaces_selector: match &self.namespaces_selector {
                Some(selector) => selector.clone(),
                None => Selector::default(),
            },
            services_selector: match &self.services_selector {
                Some(selector) => selector.clone(),
                None => Selector::default(),
            },
        }
    }
}

impl EnvConfigManager {
    /// A builder without overrides.
    pub fn new() -> (builder: EnvConfigManager)
        ensures
            builder.overrides() == (Overrides {
                refresh_duration: None,
                namespaces_selector: None,
                services_selector: None,
            }),
    {
        EnvConfigManager { refresh_duration: None, namespaces_selector: None, services_selector: None }
    }
}

} // verus!
