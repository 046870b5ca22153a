//! Lowering of ECMAScript module syntax to calls of a module registry.
//!
//! A module is lowered on its own, in two steps. The collector
//! ([`es_module_collector`]) passes over the body once and lists every
//! binding that the module imports or exports, in source order; on its way
//! it strips the module declarations from the body, or keeps them. The
//! emitter ([`emitter`]) then writes the statements that bind the imports,
//! which go before the body, and those that register the exports, which go
//! behind it.
//!
//! What each step computes is stated in [`collector_rules`] and
//! [`emitter_rules`], and the contracts of the executable functions refer
//! to these. [`collector_laws`] and [`emitter_laws`] prove what follows for
//! every module.
//!
//! The library works on a syntax of its own ([`syntax`]), which spells out
//! import and export declarations and leaves everything else to the host
//! compiler.

pub mod bindings;
pub mod collector_laws;
pub mod collector_rules;
pub mod constants;
pub mod emitter;
pub mod emitter_laws;
pub mod emitter_rules;
pub mod error;
pub mod es_module_collector;
pub mod import_idents;
pub mod import_paths;
pub mod syntax;
pub mod utils;

pub use emitter::{global_esm, GlobalEsmModule};
pub use error::TransformError;
pub use es_module_collector::{EsModuleCollector, ExportModule, ImportModule, ModuleType};
pub use import_paths::ImportPaths;
