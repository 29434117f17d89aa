//! Decisions and pure computations behind initialising a smart-contract
//! project: resolving templates, sequencing the scaffold and version-control
//! steps, deriving remappings and merging editor settings.
pub mod args;
pub mod fetch;
pub mod remappings;
pub mod scaffold;
pub mod session;
pub mod settings;
pub mod template;

pub use args::{InitArgs, InstallOpts};
