//! What holds of the library as a whole.
pub mod clusters;
pub mod composition;
pub mod documents;
pub mod functions;
pub mod history;
pub mod lifetime;
pub mod packs;
pub mod places;
pub mod reporting;
pub mod routing;
pub mod scaling;
pub mod settings;
pub mod snapshots;
pub mod texts;
pub mod views;
