//! The rule tables the rewriter is configured with: per-package deep-import
//! layouts, keyed by package-name pattern.

use vstd::prelude::*;

verus! {

/// For one exported symbol: the relative submodule path segment to append,
/// and whether the generated import must bind that symbol as a default
/// export.
#[derive(Debug, PartialEq, Eq)]
pub struct ModuleConfig {
    pub src: String,
    pub is_default: bool,
}

/// The view of a `ModuleConfig`.
#[verifier::ext_equal]
pub struct ModuleConfigView {
    pub src: Seq<char>,
    pub is_default: bool,
}

impl View for ModuleConfig {
    type V = ModuleConfigView;

    open spec fn view(&self) -> ModuleConfigView {
        ModuleConfigView { src: self.src@, is_default: self.is_default }
    }
}

impl Clone for ModuleConfig {
    fn clone(&self) -> (r: Self)
        ensures
            r@ == self@,
    {
        ModuleConfig { src: self.src.clone(), is_default: self.is_default }
    }
}

/// One barrel package's deep-import layout: the directory under the package
/// that holds the per-symbol submodules, and the per-symbol entries, keyed by
/// exported symbol name, in configured order.
#[derive(Debug, PartialEq, Eq)]
pub struct PackageConfig {
    pub es_dir: String,
    pub modules: Vec<(String, ModuleConfig)>,
}

/// The view of a `PackageConfig`.
#[verifier::ext_equal]
pub struct PackageConfigView {
    pub es_dir: Seq<char>,
    pub modules: Seq<(Seq<char>, ModuleConfigView)>,
}

impl View for PackageConfig {
    type V = PackageConfigView;

    open spec fn view(&self) -> PackageConfigView {
        PackageConfigView {
            es_dir: self.es_dir@,
            modules: self.modules@.map_values(|p: (String, ModuleConfig)| (p.0@, p.1@)),
        }
    }
}

impl Clone for PackageConfig {
    fn clone(&self) -> (r: Self)
        ensures
            r@ == self@,
    {
        let mut modules: Vec<(String, ModuleConfig)> = Vec::new();
        let mut i: usize = 0;
        while i < self.modules.len()
            invariant
                i <= self.modules.len(),
                modules@.len() == i,
                forall|j: int| 0 <= j < i ==> (#[trigger] modules@[j]).0@ == self.modules@[j].0@
                    && modules@[j].1@ == self.modules@[j].1@,
            decreases self.modules.len() - i,
        {
            let pair = (self.modules[i].0.clone(), self.modules[i].1.clone());
            modules.push(pair);
            i = i + 1;
        }
        let r = PackageConfig { es_dir: self.es_dir.clone(), modules };
        proof {
            assert(r@.modules =~= self@.modules);
            assert(r@ =~= self@);
        }
        r
    }
}

/// The whole configuration: package-name patterns paired with package
/// configurations, in configured order.
#[derive(Debug, PartialEq, Eq)]
pub struct Config {
    pub packages: Vec<(String, PackageConfig)>,
}

/// The view of a `Config`.
#[verifier::ext_equal]
pub struct ConfigView {
    pub packages: Seq<(Seq<char>, PackageConfigView)>,
}

impl View for Config {
    type V = ConfigView;

    open spec fn view(&self) -> ConfigView {
        ConfigView {
            packages: self.packages@.map_values(|p: (String, PackageConfig)| (p.0@, p.1@)),
        }
    }
}

/// A path template accepted in configuration: a single template string, or
/// a list of (matcher, template) pairs. Carried for forward compatibility;
/// the rewriting path does not consume it.
#[derive(Debug, PartialEq, Eq)]
pub enum Transform {
    Single(String),
    Pairs(Vec<(String, String)>),
}

impl From<&str> for Transform {
    fn from(s: &str) -> (r: Self) {
        Transform::Single(s.to_owned())
    }
}

impl vstd::std_specs::convert::FromSpecImpl<&str> for Transform {
    /// No heap string can be named in specification, so nothing is promised
    /// of this conversion.
    open spec fn obeys_from_spec() -> bool {
        false
    }

    open spec fn from_spec(v: &str) -> Self {
        arbitrary()
    }
}

impl From<Vec<(String, String)>> for Transform {
    fn from(v: Vec<(String, String)>) -> (r: Self) {
        Transform::Pairs(v)
    }
}

impl vstd::std_specs::convert::FromSpecImpl<Vec<(String, String)>> for Transform {
    open spec fn obeys_from_spec() -> bool {
        true
    }

    open spec fn from_spec(v: Vec<(String, String)>) -> Self {
        Transform::Pairs(v)
    }
}

/// The entry for the exported symbol `name` in `modules`: the first pair
/// whose key equals `name`, if any.
pub open spec fn spec_lookup(modules: Seq<(Seq<char>, ModuleConfigView)>, name: Seq<char>) -> Option<
    ModuleConfigView,
>
    decreases modules.len(),
{
    if modules.len() == 0 {
        None
    } else if modules[0].0 == name {
        Some(modules[0].1)
    } else {
        spec_lookup(modules.drop_first(), name)
    }
}

} // verus!
