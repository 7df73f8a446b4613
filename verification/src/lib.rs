//! Core of an init/service manager: a crash-consistent state store with
//! double-buffered generations, the recovery protocol that reconciles
//! in-memory state with durable fact after an abrupt restart, and the
//! generic unit lifecycle machinery (load states, queues, rate limiting)
//! that the store protects.

pub mod cmdline;
pub mod core_station;
pub mod error;
pub mod history;
pub mod install;
pub mod limit;
pub mod mount;
pub mod preset;
pub mod records;
pub mod reli;
pub mod socketpid;
pub mod socketre;
pub mod spawn;
pub mod station;
pub mod store;
pub mod strutil;
pub mod uefile;
pub mod unit;
pub mod usb;
