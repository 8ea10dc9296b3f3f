//! Health monitoring of a list of network endpoints: the service list and
//! settings store, its persisted record, the rules of the poll scheduler, and
//! the choice of status icon.
pub mod service;
pub mod icons;
pub mod store;
pub mod probe;
pub mod scheduler;
