//! The Matter side: what each cluster of the Solar Power device is read as,
//! how the node is composed, and which changes are reported.
pub mod accuracy;
pub mod bridge;
pub mod desc_tags;
pub mod eem;
pub mod epm;
pub mod list;
pub mod node;
pub mod power_source;
pub mod temperature;
