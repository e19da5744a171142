//! Derives a fully-qualified domain name for every service of a Kubernetes
//! cluster from two annotations, `fqdn.domain` and `fqdn.tld`, which a service
//! either carries itself or inherits from its namespace.
//!
//! The crate holds the decisions only: how annotations resolve to a name, how
//! the configuration is put together, and how one poll cycle after the other
//! proceeds. Talking to the cluster, sleeping and logging are left to the
//! caller, which feeds what it observed back into [`reconcile::step`].

pub mod annotations;
pub mod cluster;
pub mod configuration;
pub mod cycle;
pub mod reconcile;
pub mod resolver;
