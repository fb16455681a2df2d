//! Debug images of the running process.
//!
//! For every executable image that the loader has mapped into the process the
//! crate computes a normalized debug identifier, the one a symbol server is
//! asked for, and describes the image by name, address and size.
//!
//! The identifier bytes come from the linker in little-endian field order and
//! have to leave in network order; a mistake there yields an identifier that
//! looks valid and matches nothing. The functions below are therefore verified
//! against mathematical models of their data: [`identifier`] holds the
//! normalizer and [`image`] the collector. [`loader`] asks `findshlibs` for the
//! modules of the process, and [`report`] hands the descriptors to
//! `sentry_core`.

pub mod identifier;
pub mod image;
pub mod loader;
pub mod report;

pub use identifier::{normalize, NativeIdentifier, NormalizedDebugId};
pub use image::{
    collect_images, describe, needs_executable_path, resolve_name, ImageDescriptor, LoadedModules,
    RawModule, PLACEHOLDER_NAME,
};
pub use loader::loaded_modules;
pub use report::{debug_images, report_images};
