//! Retrieval of archived on-demand radio episodes: the catalog and
//! selection shapes, the listing serializer, the series and filename
//! computations, and the per-episode download decisions, each with its
//! contract. Network access, the filesystem and the external media
//! pipeline stay behind thin boundaries.

pub mod decode;
pub mod http;
pub mod json;
pub mod listing;
pub mod model;
pub mod paths;
pub mod plan;
pub mod text;
pub mod urls;
