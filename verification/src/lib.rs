//! A photovoltaic inverter as a Matter Solar Power device.
//!
//! A publisher puts the inverter's identity, readings and link status on MQTT
//! topics. This library holds what is decided on the way from there to Matter:
//!
//! - `senml` reads the packs of readings, and scales decimal literals exactly;
//! - `domain` folds messages into the snapshot that Matter is read from;
//! - `ingest` says which topics to listen to, and what each publish says;
//! - `matter` is what each cluster reads as, how the node is composed, and which
//!   changes are reported;
//! - `config`, `identity` and `lifecycle` are the daemon around them;
//! - `laws` states what holds of all this together.
//!
//! Each function says what it returns over mathematical models of its arguments:
//! text as a sequence of characters, payloads as sequences of bytes.
pub mod config;
pub mod decimal;
pub mod domain;
pub mod faults;
pub mod identity;
pub mod ingest;
pub mod json;
pub mod laws;
pub mod lifecycle;
pub mod matter;
pub mod senml;
pub mod text;
