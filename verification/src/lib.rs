//! Rewrites `import` statements that reference a configured "barrel" package
//! into deep per-symbol imports, splitting multi-symbol imports into one
//! import per symbol.

use vstd::prelude::*;

pub mod config;
pub mod laws;
pub mod model;
pub mod patterns;
pub mod strings;
pub mod transform;

pub use config::{Config, ModuleConfig, PackageConfig, Transform};
pub use model::{ImportDecl, ImportSpecifier, ModuleItem};
pub use transform::{
    modularize_imports, modularize_module, InvalidPattern, Rewriter, TransformImports,
};
