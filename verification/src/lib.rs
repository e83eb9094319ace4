//! Static-site assembly: template naming, a handlebars-backed registry,
//! layout transclusion, output mapping, and freshness-based asset sync.

pub mod config;
pub mod errors;
pub mod helper;
pub mod paths;
pub mod registry;
pub mod scaffold;
pub mod site;
pub mod sync;
