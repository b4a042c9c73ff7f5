//! Planning and bookkeeping for fetching the episodes of a series: the
//! listing's titles, the per-episode token, URL and file name, and the
//! decisions of the streaming download.

pub mod token;
pub mod sanitize;
pub mod header;
pub mod decimal;
pub mod error;
pub mod listing;
pub mod plan;
pub mod fetch;
pub mod run;
