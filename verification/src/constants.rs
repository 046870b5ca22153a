//! The names by which lowered code reaches the module registry.

use vstd::prelude::*;

verus! {

/// The global binding that holds the registry.
pub const REGISTRY: &'static str = "registry";

/// The operation that returns what a module exports.
pub const MODULE_IMPORT_METHOD_NAME: &'static str = "import";

/// The operation that returns what a module exports, as a namespace.
pub const MODULE_IMPORT_WILDCARD_METHOD_NAME: &'static str = "importAll";

/// The operation that registers the default and named exports of a
/// module.
pub const MODULE_EXPORT_METHOD_NAME: &'static str = "export";

/// The operation that adds all that some namespaces hold to the exports
/// of a module.
pub const MODULE_EXPORT_ALL_METHOD_NAME: &'static str = "exportAll";

/// The operation that opens the registration of a module.
pub const MODULE_INIT_METHOD_NAME: &'static str = "init";

/// The operation that clears the registration of a module that exports
/// nothing.
pub const MODULE_RESET_METHOD_NAME: &'static str = "reset";

/// The name of the default export of a module.
pub const DEFAULT_EXPORT_NAME: &'static str = "default";

/// The name that the value of an anonymous default export is bound to.
pub const EXPORT_DEFAULT_IDENT: &'static str = "__export_default";

/// The name that the default export of a source module is bound to when
/// it is re-exported.
pub const RE_EXPORT_DEFAULT_IDENT: &'static str = "__default";

/// The name that a namespace is bound to when it is re-exported under a
/// name.
pub const RE_EXPORT_IDENT: &'static str = "__re_export";

/// The name that a namespace is bound to when all that it holds is
/// re-exported.
pub const RE_EXPORT_ALL_IDENT: &'static str = "__h";

} // verus!
