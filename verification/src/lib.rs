//! Catalog synchronisation and manifest resolution for a Docker-compatible
//! image registry.
//!
//! - [`json`] reads a JSON text into a tree of plain values.
//! - [`model`] holds the documents a registry answers with; [`decode`] reads
//!   them out of a tree and [`encode`] writes them back.
//! - [`resolve`] tells which of the three shapes a manifest has and reads it
//!   in that shape.
//! - [`crawl`] walks the registry's catalog page by page; the caller makes
//!   the requests.
//! - [`store`] keeps the catalog as a set of names in alphabetical order
//!   ([`order`]) and [`page`] computes the window of a page of it.
//! - [`endpoints`] builds the addresses that are asked and the bodies that
//!   are answered; [`text`] writes and reads decimal numerals.

pub mod crawl;
pub mod decode;
pub mod encode;
pub mod endpoints;
pub mod json;
pub mod model;
pub mod order;
pub mod page;
pub mod resolve;
pub mod store;
pub mod text;

pub use model::{
    DockerManifest, ErrorsV2, ErrorsV2Detail, Manifest, ManifestConfig, ManifestV2, ManifestV2List,
    ManifestV2ListPlatform, Repos, SchemaVersion, Tags,
};
pub use resolve::get_manifest;
