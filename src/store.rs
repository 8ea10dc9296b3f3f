use vstd::prelude::*;
use crate::icons::{IconSet, name_of, parse_name, lemma_name_round_trip};
use crate::service::{Service, ServiceModel, models, clone_services};

verus! {

/// The contents of a store: the settings and the last aggregate health.
pub struct StoreModel {
    pub services: Seq<ServiceModel>,
    pub interval_secs: u64,
    pub icon_set: IconSet,
    pub healthy: bool,
}

/// The contents of a persisted record.
pub struct ConfigModel {
    pub services: Seq<ServiceModel>,
    pub interval_secs: u64,
    pub icon_set: Seq<char>,
}

/// Why a store operation was refused.
#[derive(Clone, Copy, Debug, PartialEq, Eq, Structural)]
pub enum StoreError {
    /// The index names no position of the current service list.
    IndexOutOfRange,
    /// The store could not be reached, because an earlier holder failed.
    InternalState,
}

impl StoreError {
    /// The text shown to the user for this error.
    pub fn message(&self) -> (r: &'static str)
        ensures
            r@ == (match *self {
                StoreError::IndexOutOfRange => "Index out of bounds"@,
                StoreError::InternalState => "Failed to lock state"@,
            }),
    {
        match self {
            StoreError::IndexOutOfRange => "Index out of bounds",
            StoreError::InternalState => "Failed to lock state",
        }
    }
}

/// The durable settings as they are written to and read from disk. The
/// display preference is kept by name.
#[derive(Clone, Debug)]
pub struct Configuration {
    pub services: Vec<Service>,
    pub interval_secs: u64,
    pub icon_set: String,
}

impl View for Configuration {
    type V = ConfigModel;

    open spec fn view(&self) -> ConfigModel {
        ConfigModel {
            services: models(self.services@),
            interval_secs: self.interval_secs,
            icon_set: self.icon_set@,
        }
    }
}

/// A request to redraw the status surface.
#[derive(Clone, Copy, Debug, PartialEq, Eq, Structural)]
pub struct Refresh {
    pub icon_set: IconSet,
    pub healthy: bool,
}

/// What the poll scheduler reads from the store in one acquisition.
#[derive(Clone, Debug)]
pub struct PollSnapshot {
    pub interval_secs: u64,
    pub services: Vec<Service>,
    pub icon_set: IconSet,
}

/// The example services and settings used when nothing was persisted.
pub open spec fn default_model() -> StoreModel {
    StoreModel {
        services: seq![
            ServiceModel { name: "Google DNS"@, ip: "8.8.8.8"@, port: "53"@ },
            ServiceModel { name: "Localhost HTTP"@, ip: "127.0.0.1"@, port: "80"@ },
        ],
        interval_secs: 10,
        icon_set: IconSet::Default,
        healthy: true,
    }
}

/// The record that persisting a store writes: everything but the health.
pub open spec fn record_of(s: StoreModel) -> ConfigModel {
    ConfigModel { services: s.services, interval_secs: s.interval_secs, icon_set: name_of(s.icon_set) }
}

/// The store that loading a record gives: health starts out good.
pub open spec fn load_of(c: ConfigModel) -> StoreModel {
    StoreModel {
        services: c.services,
        interval_secs: c.interval_secs,
        icon_set: parse_name(c.icon_set),
        healthy: true,
    }
}

/// Persisting a store and loading the record gives back its services, its
/// interval and its display preference.
pub proof fn lemma_persist_round_trip(s: StoreModel)
    ensures
        load_of(record_of(s)).services == s.services,
        load_of(record_of(s)).interval_secs == s.interval_secs,
        load_of(record_of(s)).icon_set == s.icon_set,
{
    lemma_name_round_trip(s.icon_set);
}

/// The service list, settings and last aggregate health, which the mutation
/// operations and the poll scheduler share.
pub struct HealthStore {
    services: Vec<Service>,
    interval_secs: u64,
    icon_set: IconSet,
    healthy: bool,
}

impl View for HealthStore {
    type V = StoreModel;

    closed spec fn view(&self) -> StoreModel {
        StoreModel {
            services: models(self.services@),
            interval_secs: self.interval_secs,
            icon_set: self.icon_set,
            healthy: self.healthy,
        }
    }
}

fn text(s: &str) -> (r: String)
    ensures
        r@ == s@,
{
    String::from_str(s)
}

impl HealthStore {
    /// A store with the built-in example services, a ten second interval and
    /// the default display preference.
    pub fn with_defaults() -> (r: HealthStore)
        ensures
            r@ == default_model(),
    {
        let mut services: Vec<Service> = Vec::new();
        services.push(Service::new(text("Google DNS"), text("8.8.8.8"), text("53")));
        services.push(Service::new(text("Localhost HTTP"), text("127.0.0.1"), text("80")));
        let r = HealthStore { services, interval_secs: 10, icon_set: IconSet::Default, healthy: true };
        assert(r@.services =~= default_model().services);
        r
    }

    /// A store holding a loaded record, with health reset to good.
    pub fn from_config(c: Configuration) -> (r: HealthStore)
        ensures
            r@ == load_of(c@),
    {
        let icon_set = IconSet::from_name(c.icon_set.as_str());
        HealthStore { services: c.services, interval_secs: c.interval_secs, icon_set, healthy: true }
    }

    /// The record to persist.
    pub fn to_config(&self) -> (r: Configuration)
        ensures
            r@ == record_of(self@),
    {
        Configuration {
            services: clone_services(&self.services),
            interval_secs: self.interval_secs,
            icon_set: self.icon_set.name(),
        }
    }

    pub fn list_services(&self) -> (r: Vec<Service>)
        ensures
            models(r@) == self@.services,
    {
        clone_services(&self.services)
    }

    /// Appends a service; returns the new list.
    pub fn add_service(&mut self, name: String, ip: String, port: String) -> (r: Vec<Service>)
        ensures
            final(self)@ == (StoreModel {
                services: old(self)@.services.push(ServiceModel { name: name@, ip: ip@, port: port@ }),
                ..old(self)@
            }),
            models(r@) == final(self)@.services,
    {
        self.services.push(Service::new(name, ip, port));
        assert(self@.services =~= old(self)@.services.push(
            ServiceModel { name: name@, ip: ip@, port: port@ },
        ));
        self.list_services()
    }

    /// Removes the service at `index`; later services move one place down.
    pub fn remove_service(&mut self, index: usize) -> (r: Result<Vec<Service>, StoreError>)
        ensures
            index < old(self)@.services.len() ==> r is Ok && final(self)@ == (StoreModel {
                services: old(self)@.services.remove(index as int),
                ..old(self)@
            }) && models(r->Ok_0@) == final(self)@.services,
            index >= old(self)@.services.len() ==> r == Err::<Vec<Service>, StoreError>(
                StoreError::IndexOutOfRange,
            ) && final(self)@ == old(self)@,
    {
        if index < self.services.len() {
            self.services.remove(index);
            assert(self@.services =~= old(self)@.services.remove(index as int));
            Ok(self.list_services())
        } else {
            Err(StoreError::IndexOutOfRange)
        }
    }

    /// Replaces the service at `index`; returns the new list.
    pub fn update_service(&mut self, index: usize, name: String, ip: String, port: String) -> (r:
        Result<Vec<Service>, StoreError>)
        ensures
            index < old(self)@.services.len() ==> r is Ok && final(self)@ == (StoreModel {
                services: old(self)@.services.update(
                    index as int,
                    ServiceModel { name: name@, ip: ip@, port: port@ },
                ),
                ..old(self)@
            }) && models(r->Ok_0@) == final(self)@.services,
            index >= old(self)@.services.len() ==> r == Err::<Vec<Service>, StoreError>(
                StoreError::IndexOutOfRange,
            ) && final(self)@ == old(self)@,
    {
        if index < self.services.len() {
            self.services.set(index, Service::new(name, ip, port));
            assert(self@.services =~= old(self)@.services.update(
                index as int,
                ServiceModel { name: name@, ip: ip@, port: port@ },
            ));
            Ok(self.list_services())
        } else {
            Err(StoreError::IndexOutOfRange)
        }
    }

    /// Sets the poll interval; zero means a probe on every tick.
    pub fn set_interval(&mut self, secs: u64)
        ensures
            final(self)@ == (StoreModel { interval_secs: secs, ..old(self)@ }),
    {
        self.interval_secs = secs;
    }

    pub fn get_interval(&self) -> (r: u64)
        ensures
            r == self@.interval_secs,
    {
        self.interval_secs
    }

    /// Sets the display preference and asks for an immediate redraw with the
    /// last known aggregate health; nothing is probed.
    pub fn set_icon_set(&mut self, preference: IconSet) -> (r: Refresh)
        ensures
            final(self)@ == (StoreModel { icon_set: preference, ..old(self)@ }),
            r == (Refresh { icon_set: preference, healthy: old(self)@.healthy }),
    {
        self.icon_set = preference;
        Refresh { icon_set: preference, healthy: self.healthy }
    }

    pub fn get_icon_set(&self) -> (r: IconSet)
        ensures
            r == self@.icon_set,
    {
        self.icon_set
    }

    /// Records the aggregate health of the last completed poll.
    pub fn record_health(&mut self, healthy: bool)
        ensures
            final(self)@ == (StoreModel { healthy, ..old(self)@ }),
    {
        self.healthy = healthy;
    }

    pub fn is_healthy(&self) -> (r: bool)
        ensures
            r == self@.healthy,
    {
        self.healthy
    }

    /// The interval, services and preference, read together.
    pub fn poll_snapshot(&self) -> (r: PollSnapshot)
        ensures
            r.interval_secs == self@.interval_secs,
            models(r.services@) == self@.services,
            r.icon_set == self@.icon_set,
    {
        PollSnapshot {
            interval_secs: self.interval_secs,
            services: clone_services(&self.services),
            icon_set: self.icon_set,
        }
    }
}

} // verus!
