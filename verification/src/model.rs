//! The import statements and module items that the rewriter works on, as
//! plain values, together with their mathematical views.

use vstd::prelude::*;

verus! {

/// One binding introduced by an import statement.
#[derive(Debug, PartialEq, Eq)]
pub enum ImportSpecifier {
    /// `import { name } from ...` or `import { name as local } from ...`;
    /// `imported` is the exported name when it differs from the local alias.
    Named { local: String, imported: Option<String> },
    /// `import local from ...`
    DefaultBinding { local: String },
    /// `import * as local from ...`
    NamespaceBinding { local: String },
}

/// The view of an `ImportSpecifier`.
#[verifier::ext_equal]
pub enum SpecifierView {
    Named { local: Seq<char>, imported: Option<Seq<char>> },
    DefaultBinding { local: Seq<char> },
    NamespaceBinding { local: Seq<char> },
}

impl View for ImportSpecifier {
    type V = SpecifierView;

    open spec fn view(&self) -> SpecifierView {
        match self {
            ImportSpecifier::Named { local, imported } => SpecifierView::Named {
                local: local@,
                imported: match imported {
                    Some(s) => Some(s@),
                    None => None,
                },
            },
            ImportSpecifier::DefaultBinding { local } => SpecifierView::DefaultBinding {
                local: local@,
            },
            ImportSpecifier::NamespaceBinding { local } => SpecifierView::NamespaceBinding {
                local: local@,
            },
        }
    }
}

impl Clone for ImportSpecifier {
    fn clone(&self) -> (r: Self)
        ensures
            r@ == self@,
    {
        match self {
            ImportSpecifier::Named { local, imported } => ImportSpecifier::Named {
                local: local.clone(),
                imported: match imported {
                    Some(s) => Some(s.clone()),
                    None => None,
                },
            },
            ImportSpecifier::DefaultBinding { local } => ImportSpecifier::DefaultBinding {
                local: local.clone(),
            },
            ImportSpecifier::NamespaceBinding { local } => ImportSpecifier::NamespaceBinding {
                local: local.clone(),
            },
        }
    }
}

/// One top-level `import` declaration.
#[derive(Debug, PartialEq, Eq)]
pub struct ImportDecl {
    /// The source path of the import.
    pub src: String,
    /// Whether the import is type-only (`import type ...`).
    pub type_only: bool,
    /// Whether the import carries an import-attributes (`with`) clause.
    pub with_attributes: bool,
    /// The bindings the import introduces; empty for a side-effect import.
    pub specifiers: Vec<ImportSpecifier>,
}

/// The view of an `ImportDecl`.
#[verifier::ext_equal]
pub struct ImportDeclView {
    pub src: Seq<char>,
    pub type_only: bool,
    pub with_attributes: bool,
    pub specifiers: Seq<SpecifierView>,
}

impl View for ImportDecl {
    type V = ImportDeclView;

    open spec fn view(&self) -> ImportDeclView {
        ImportDeclView {
            src: self.src@,
            type_only: self.type_only,
            with_attributes: self.with_attributes,
            specifiers: self.specifiers@.map_values(|s: ImportSpecifier| s@),
        }
    }
}

impl Clone for ImportDecl {
    fn clone(&self) -> (r: Self)
        ensures
            r@ == self@,
    {
        let mut specifiers: Vec<ImportSpecifier> = Vec::new();
        let mut i: usize = 0;
        while i < self.specifiers.len()
            invariant
                i <= self.specifiers.len(),
                specifiers@.len() == i,
                forall|j: int| 0 <= j < i ==> specifiers@[j]@ == self.specifiers@[j]@,
            decreases self.specifiers.len() - i,
        {
            specifiers.push(self.specifiers[i].clone());
            i = i + 1;
        }
        proof {
            assert(specifiers@.map_values(|s: ImportSpecifier| s@) =~= self.specifiers@.map_values(
                |s: ImportSpecifier| s@,
            ));
        }
        let r = ImportDecl {
            src: self.src.clone(),
            type_only: self.type_only,
            with_attributes: self.with_attributes,
            specifiers,
        };
        proof {
            assert(r@ =~= self@);
        }
        r
    }
}

/// One top-level item of a module: an import declaration, or any other
/// statement, identified by an opaque tag so the host can restore it.
#[derive(Debug, PartialEq, Eq)]
pub enum ModuleItem {
    Import(ImportDecl),
    Other(u64),
}

/// The view of a `ModuleItem`.
#[verifier::ext_equal]
pub enum ModuleItemView {
    Import(ImportDeclView),
    Other(u64),
}

impl View for ModuleItem {
    type V = ModuleItemView;

    open spec fn view(&self) -> ModuleItemView {
        match self {
            ModuleItem::Import(d) => ModuleItemView::Import(d@),
            ModuleItem::Other(id) => ModuleItemView::Other(*id),
        }
    }
}

impl Clone for ModuleItem {
    fn clone(&self) -> (r: Self)
        ensures
            r@ == self@,
    {
        match self {
            ModuleItem::Import(d) => ModuleItem::Import(d.clone()),
            ModuleItem::Other(id) => ModuleItem::Other(*id),
        }
    }
}

/// The views of a sequence of import declarations.
pub open spec fn decls_view(v: Seq<ImportDecl>) -> Seq<ImportDeclView> {
    v.map_values(|d: ImportDecl| d@)
}

/// The views of a sequence of module items.
pub open spec fn items_view(v: Seq<ModuleItem>) -> Seq<ModuleItemView> {
    v.map_values(|it: ModuleItem| it@)
}

} // verus!
