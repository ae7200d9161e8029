//! A catalog provider ("extension") for a media-browsing host: pagination
//! policy, the records it hands back, and the five catalog operations.
pub mod decimal;
pub mod extension;
pub mod model;
pub mod pagination;
pub mod provider;
