//! Control core of a networked indicator lamp: a settings store with
//! delta-merge and diff-apply semantics, a data broker that fans requests out
//! to device components and fans their answers back in, a persistence
//! contract for durable component state, and the coordinator state machine
//! that sequences connectivity bring-up, remote session acquisition and the
//! steady-state polling loop.

pub mod config;
pub mod coordinator;
pub mod device;
pub mod dexcom;
pub mod dimmer;
pub mod encoder;
pub mod lamp;
pub mod power;
pub mod server;
pub mod settings;
pub mod storage;
pub mod sys;
pub mod wifi;
