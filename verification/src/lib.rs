//! Map-tile serving: the datasource registry, the resolution of a layer's
//! source block into a backend, the shared failure kinds, and the settings
//! of the web server that hosts them.

pub mod config;
pub mod crs;
pub mod datasource;
pub mod error;
pub mod processes;
pub mod registry;
pub mod source_cfg;
pub mod static_assets;
pub mod text;
