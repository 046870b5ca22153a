//! The bindings of a module: what it imports and what it exports, each
//! as one flat entry.

use crate::syntax::{view_opt, Ident, IdentView};
use vstd::prelude::*;

verus! {

/// How a binding crosses the module boundary.
#[derive(Clone, Copy, Debug, PartialEq, Eq, Structural)]
pub enum ModuleType {
    Default,
    Named,
    /// The default export of a source module, re-exported under a name:
    /// `export { default as x } from "m"`.
    DefaultAsNamed,
    /// An import of a whole namespace, or an export of everything that a
    /// namespace holds.
    NamespaceOrAll,
}

/// One binding that the module imports.
#[derive(Debug, PartialEq, Eq)]
pub struct ImportModule {
    /// The local name.
    pub ident: Ident,
    /// The name under which the source module exports the binding, where
    /// the source gives one.
    pub imported: Option<Ident>,
    /// The source module, as written.
    pub module_src: String,
    pub module_type: ModuleType,
}

/// The view of [`ImportModule`].
pub struct ImportModuleView {
    pub ident: IdentView,
    pub imported: Option<IdentView>,
    pub module_src: Seq<char>,
    pub module_type: ModuleType,
}

impl View for ImportModule {
    type V = ImportModuleView;

    open spec fn view(&self) -> ImportModuleView {
        ImportModuleView {
            ident: self.ident@,
            imported: view_opt(self.imported),
            module_src: self.module_src@,
            module_type: self.module_type,
        }
    }
}

/// One binding that the module exports.
#[derive(Debug, PartialEq, Eq)]
pub struct ExportModule {
    /// The local name: `a` in `export { a as b }`.
    pub ident: Ident,
    /// The name that importers see, where it is written: `b` in
    /// `export { a as b }`.
    pub as_ident: Option<Ident>,
    pub module_type: ModuleType,
}

/// The view of [`ExportModule`].
pub struct ExportModuleView {
    pub ident: IdentView,
    pub as_ident: Option<IdentView>,
    pub module_type: ModuleType,
}

impl View for ExportModule {
    type V = ExportModuleView;

    open spec fn view(&self) -> ExportModuleView {
        ExportModuleView {
            ident: self.ident@,
            as_ident: view_opt(self.as_ident),
            module_type: self.module_type,
        }
    }
}

/// `import ident from "module_src"`
pub open spec fn import_default(ident: IdentView, module_src: Seq<char>) -> ImportModuleView {
    ImportModuleView { ident, imported: None, module_src, module_type: ModuleType::Default }
}

/// `import { imported as ident } from "module_src"`
pub open spec fn import_named(
    ident: IdentView,
    module_src: Seq<char>,
    imported: Option<IdentView>,
) -> ImportModuleView {
    ImportModuleView { ident, imported, module_src, module_type: ModuleType::Named }
}

/// `import * as ident from "module_src"`
pub open spec fn import_namespace(ident: IdentView, module_src: Seq<char>) -> ImportModuleView {
    ImportModuleView { ident, imported: None, module_src, module_type: ModuleType::NamespaceOrAll }
}

/// `export default ident`
pub open spec fn export_default(ident: IdentView) -> ExportModuleView {
    ExportModuleView { ident, as_ident: None, module_type: ModuleType::Default }
}

/// `export { ident as as_ident }`
pub open spec fn export_named(ident: IdentView, as_ident: Option<IdentView>) -> ExportModuleView {
    ExportModuleView { ident, as_ident, module_type: ModuleType::Named }
}

/// Everything that the namespace `ident` holds.
pub open spec fn export_spread(ident: IdentView, as_ident: Option<IdentView>) -> ExportModuleView {
    ExportModuleView { ident, as_ident, module_type: ModuleType::NamespaceOrAll }
}

impl ImportModule {
    /// `import ident from "module_src"`
    pub fn default(ident: Ident, module_src: String) -> (r: Self)
        ensures
            r@ == import_default(ident@, module_src@),
    {
        ImportModule { ident, imported: None, module_src, module_type: ModuleType::Default }
    }

    /// `import { imported as ident } from "module_src"`
    pub fn named(ident: Ident, module_src: String, imported: Option<Ident>) -> (r: Self)
        ensures
            r@ == import_named(ident@, module_src@, view_opt(imported)),
    {
        ImportModule { ident, imported, module_src, module_type: ModuleType::Named }
    }

    /// `import * as ident from "module_src"`
    pub fn namespace(ident: Ident, module_src: String) -> (r: Self)
        ensures
            r@ == import_namespace(ident@, module_src@),
    {
        ImportModule { ident, imported: None, module_src, module_type: ModuleType::NamespaceOrAll }
    }
}

impl ExportModule {
    /// `export default ident`
    pub fn default(ident: Ident) -> (r: Self)
        ensures
            r@ == export_default(ident@),
    {
        ExportModule { ident, as_ident: None, module_type: ModuleType::Default }
    }

    /// `export { ident as as_ident }`
    pub fn named(ident: Ident, as_ident: Option<Ident>) -> (r: Self)
        ensures
            r@ == export_named(ident@, view_opt(as_ident)),
    {
        ExportModule { ident, as_ident, module_type: ModuleType::Named }
    }

    /// Everything that the namespace `ident` holds.
    pub fn all(ident: Ident, as_ident: Option<Ident>) -> (r: Self)
        ensures
            r@ == export_spread(ident@, view_opt(as_ident)),
    {
        ExportModule { ident, as_ident, module_type: ModuleType::NamespaceOrAll }
    }
}

} // verus!
