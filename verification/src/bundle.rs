//! Shareable theme bundles: metadata plus a raw TOML configuration.

use vstd::prelude::*;

verus! {

/// Metadata embedded in a theme bundle.
#[derive(Debug)]
pub struct BundleMeta {
    pub name: String,
    pub author: String,
    pub description: String,
    pub version: String,
}

/// A shareable theme bundle = metadata + raw TOML config.
#[derive(Debug)]
pub struct ThemeBundle {
    pub meta: BundleMeta,
    pub config_toml: String,
}

} // verus!
