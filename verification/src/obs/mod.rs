//! What the OBS protocol reports, normalized to domain values.

pub mod event;
pub mod mapper;
pub mod scan;
