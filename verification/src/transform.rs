//! The rewriting engine: building the ordered rule table from the
//! configuration, matching import sources against it, and rewriting import
//! declarations into deep per-symbol imports.

use vstd::prelude::*;

use crate::config::{
    Config, ConfigView, ModuleConfig, PackageConfig, PackageConfigView, spec_lookup,
};
use crate::model::{
    decls_view, items_view, ImportDecl, ImportDeclView, ImportSpecifier, ModuleItem,
    ModuleItemView, SpecifierView,
};
use crate::patterns::{regex_capture_groups, regex_captures, regex_is_valid, regex_matches,
    regex_valid};
use crate::strings::{collapse_slashes, join_segments, normalize_slashes};

verus! {

/// `p` wrapped as a fully anchored pattern, unless it already starts with a
/// start anchor or ends with an end anchor.
pub open spec fn spec_anchor(p: Seq<char>) -> Seq<char> {
    if !(p.len() > 0 && p[0] == '^') && !(p.len() > 0 && p[p.len() - 1] == '$') {
        seq!['^'] + p + seq!['$']
    } else {
        p
    }
}

/// Anchors `p` as `spec_anchor` describes.
pub fn anchor_pattern(p: &str) -> (r: String)
    ensures
        r@ == spec_anchor(p@),
{
    let n = p.unicode_len();
    let starts = n > 0 && p.get_char(0) == '^';
    let ends = n > 0 && p.get_char(n - 1) == '$';
    if !starts && !ends {
        proof {
            reveal_strlit("^");
            reveal_strlit("$");
        }
        let r = String::from_str("^").concat(p).concat("$");
        proof {
            assert(r@ =~= seq!['^'] + p@ + seq!['$']);
        }
        r
    } else {
        p.to_owned()
    }
}

/// The configuration's patterns, anchored, paired with their package
/// configurations, in configured order.
pub open spec fn anchored_rules(config: ConfigView) -> Seq<(Seq<char>, PackageConfigView)> {
    config.packages.map_values(|p: (Seq<char>, PackageConfigView)| (spec_anchor(p.0), p.1))
}

/// All patterns of the rule list are accepted by the regular-expression
/// engine.
pub open spec fn rules_valid(rules: Seq<(Seq<char>, PackageConfigView)>) -> bool {
    forall|i: int| 0 <= i < rules.len() ==> regex_valid((#[trigger] rules[i]).0)
}

/// The index of the first rule whose pattern matches `name`, if any.
pub open spec fn spec_match_idx(
    rules: Seq<(Seq<char>, PackageConfigView)>,
    name: Seq<char>,
) -> Option<int>
    decreases rules.len(),
{
    if rules.len() == 0 {
        None
    } else if regex_matches(rules[0].0, name) {
        Some(0)
    } else {
        match spec_match_idx(rules.drop_first(), name) {
            Some(i) => Some(i + 1),
            None => None,
        }
    }
}

/// Rule matching is first-match-wins: the matched index is the earliest rule
/// whose pattern matches, and a missed match means no rule's pattern matches.
pub proof fn lemma_first_match_wins(rules: Seq<(Seq<char>, PackageConfigView)>, name: Seq<char>)
    ensures
        match spec_match_idx(rules, name) {
            Some(i) => 0 <= i < rules.len() && regex_matches(rules[i].0, name) && (forall|j: int|
                0 <= j < i ==> !regex_matches((#[trigger] rules[j]).0, name)),
            None => forall|j: int|
                0 <= j < rules.len() ==> !regex_matches((#[trigger] rules[j]).0, name),
        },
    decreases rules.len(),
{
    if rules.len() == 0 {
    } else if regex_matches(rules[0].0, name) {
    } else {
        lemma_first_match_wins(rules.drop_first(), name);
        match spec_match_idx(rules.drop_first(), name) {
            Some(i0) => {
                assert(rules.drop_first()[i0] == rules[i0 + 1]);
                assert forall|j: int| 0 <= j < i0 + 1 implies !regex_matches(
                    (#[trigger] rules[j]).0,
                    name,
                ) by {
                    if j > 0 {
                        assert(rules.drop_first()[j - 1] == rules[j]);
                        assert(!regex_matches(rules.drop_first()[j - 1].0, name));
                    }
                }
            },
            None => {
                assert forall|j: int| 0 <= j < rules.len() implies !regex_matches(
                    (#[trigger] rules[j]).0,
                    name,
                ) by {
                    if j > 0 {
                        assert(rules.drop_first()[j - 1] == rules[j]);
                        assert(!regex_matches(rules.drop_first()[j - 1].0, name));
                    }
                }
            },
        }
    }
}

/// The error of configuration loading: the pattern at `index` is not a valid
/// regular expression after anchoring.
#[derive(Debug, PartialEq, Eq, Clone, Copy)]
pub struct InvalidPattern {
    pub index: usize,
}

/// The compiled rule table: anchored patterns, each paired with its package
/// configuration, in configured order.
#[derive(Debug)]
pub struct TransformImports {
    pub packages: Vec<(String, PackageConfig)>,
}

impl View for TransformImports {
    type V = Seq<(Seq<char>, PackageConfigView)>;

    open spec fn view(&self) -> Seq<(Seq<char>, PackageConfigView)> {
        self.packages@.map_values(|p: (String, PackageConfig)| (p.0@, p.1@))
    }
}

impl TransformImports {
    /// Every pattern in the table is accepted by the regular-expression
    /// engine; `modularize_imports` establishes this.
    pub open spec fn wf(&self) -> bool {
        rules_valid(self@)
    }
}

/// Builds the rule table from the configuration: each pattern is anchored
/// and compiled eagerly, in configured order; the first pattern the engine
/// rejects aborts loading.
pub fn modularize_imports(config: &Config) -> (r: Result<TransformImports, InvalidPattern>)
    ensures
        match r {
            Ok(t) => t@ == anchored_rules(config@) && t.wf(),
            Err(e) => e.index < config.packages@.len() && !regex_valid(
                anchored_rules(config@)[e.index as int].0,
            ) && (forall|j: int|
                0 <= j < e.index ==> regex_valid((#[trigger] anchored_rules(config@)[j]).0)),
        },
{
    let mut packages: Vec<(String, PackageConfig)> = Vec::new();
    let mut i: usize = 0;
    while i < config.packages.len()
        invariant
            i <= config.packages.len(),
            packages@.len() == i,
            forall|j: int|
                0 <= j < i ==> (#[trigger] packages@[j]).0@ == spec_anchor(config@.packages[j].0)
                    && packages@[j].1@ == config@.packages[j].1,
            forall|j: int| 0 <= j < i ==> regex_valid((#[trigger] packages@[j]).0@),
        decreases config.packages.len() - i,
    {
        let anchored = anchor_pattern(config.packages[i].0.as_str());
        if !regex_is_valid(anchored.as_str()) {
            proof {
                assert(config@.packages[i as int].0 == config.packages@[i as int].0@);
                assert(anchored_rules(config@)[i as int].0 == spec_anchor(config@.packages[
                    i as int
                ].0));
                assert forall|j: int| 0 <= j < i implies regex_valid(
                    (#[trigger] anchored_rules(config@)[j]).0,
                ) by {
                    assert(packages@[j].0@ == spec_anchor(config@.packages[j].0));
                    assert(regex_valid(packages@[j].0@));
                }
            }
            return Err(InvalidPattern { index: i });
        }
        let cfg = config.packages[i].1.clone();
        packages.push((anchored, cfg));
        i = i + 1;
    }
    let t = TransformImports { packages };
    proof {
        assert(t@ =~= anchored_rules(config@));
    }
    Ok(t)
}

/// One matched import source: the source string itself, the matching rule's
/// package configuration, and the capture groups of the match (group 0 the
/// whole match), kept for path templating.
#[derive(Debug)]
pub struct Rewriter {
    pub key: String,
    pub config: PackageConfig,
    pub group: Vec<String>,
}

impl TransformImports {
    /// Scans the rules in order and returns a `Rewriter` for the first rule
    /// whose pattern matches `name`, or nothing if none matches.
    pub fn should_rewrite(&self, name: &str) -> (r: Option<Rewriter>)
        requires
            self.wf(),
        ensures
            (r is Some) == (spec_match_idx(self@, name@) is Some),
            r matches Some(rw) ==> {
                let i = spec_match_idx(self@, name@)->0;
                rw.key@ == name@ && rw.config@ == self@[i].1 && rw.group.deep_view()
                    == regex_capture_groups(self@[i].0, name@)
            },
    {
        let mut i: usize = 0;
        while i < self.packages.len()
            invariant
                self.wf(),
                i <= self.packages.len(),
                forall|j: int| 0 <= j < i ==> !regex_matches((#[trigger] self@[j]).0, name@),
            decreases self.packages.len() - i,
        {
            let caps = regex_captures(self.packages[i].0.as_str(), name);
            proof {
                assert(self@[i as int] == (self.packages@[i as int].0@, self.packages@[
                    i as int
                ].1@));
            }
            match caps {
                Some(group) => {
                    proof {
                        assert(regex_matches(self@[i as int].0, name@));
                        lemma_first_match_wins(self@, name@);
                        match spec_match_idx(self@, name@) {
                            Some(k) => {
                                if k < i as int {
                                    assert(!regex_matches((self@[k]).0, name@));
                                } else if k > i as int {
                                    assert(!regex_matches((self@[i as int]).0, name@));
                                }
                            },
                            None => {
                                assert(!regex_matches((self@[i as int]).0, name@));
                            },
                        }
                        assert(spec_match_idx(self@, name@) == Some(i as int));
                    }
                    return Some(
                        Rewriter {
                            key: name.to_owned(),
                            config: self.packages[i].1.clone(),
                            group,
                        },
                    );
                },
                None => {
                    proof {
                        assert(regex_valid(self@[i as int].0));
                        assert(!regex_matches(self@[i as int].0, name@));
                    }
                },
            }
            i = i + 1;
        }
        proof {
            lemma_first_match_wins(self@, name@);
        }
        None
    }
}

/// The exported name a named specifier is looked up under: its imported name
/// when one is given, else its local name.
pub open spec fn spec_imported_name(local: Seq<char>, imported: Option<Seq<char>>) -> Seq<char> {
    match imported {
        Some(n) => n,
        None => local,
    }
}

/// The deep-import path segment for `name` under `cfg`: the configured
/// submodule path when `name` has an entry, else `name` itself.
pub open spec fn spec_segment(cfg: PackageConfigView, name: Seq<char>) -> Seq<char> {
    match spec_lookup(cfg.modules, name) {
        Some(mc) => mc.src,
        None => name,
    }
}

/// The rewritten import path for `name`:
/// `<key>/<cfg.es_dir>/<segment>`, doubled separators collapsed.
pub open spec fn spec_new_path(key: Seq<char>, cfg: PackageConfigView, name: Seq<char>) -> Seq<
    char,
> {
    collapse_slashes(key + seq!['/'] + cfg.es_dir + seq!['/'] + spec_segment(cfg, name))
}

/// Whether the rewritten import of `name` must bind it as a default export:
/// the configured flag when `name` has an entry, else true.
pub open spec fn spec_is_default(cfg: PackageConfigView, name: Seq<char>) -> bool {
    match spec_lookup(cfg.modules, name) {
        Some(mc) => mc.is_default,
        None => true,
    }
}

/// The single-specifier import declaration that replaces one named
/// specifier of a matched import.
pub open spec fn spec_rewrite_named(
    key: Seq<char>,
    cfg: PackageConfigView,
    sp: SpecifierView,
) -> ImportDeclView {
    match sp {
        SpecifierView::Named { local, imported } => {
            let name = spec_imported_name(local, imported);
            ImportDeclView {
                src: spec_new_path(key, cfg, name),
                type_only: false,
                with_attributes: false,
                specifiers: seq![
                    if spec_is_default(cfg, name) {
                        SpecifierView::DefaultBinding { local }
                    } else {
                        SpecifierView::Named { local, imported }
                    }
                ],
            }
        },
        _ => arbitrary(),
    }
}

/// Every specifier is a plain named binding.
pub open spec fn all_named(specs: Seq<SpecifierView>) -> bool {
    forall|i: int| 0 <= i < specs.len() ==> (#[trigger] specs[i]) is Named
}

/// What rewriting one matched import declaration yields: the declaration
/// itself when it is type-only, attributed, or holds a default or namespace
/// binding; else one single-specifier declaration per named specifier.
pub open spec fn spec_rewrite_import(
    key: Seq<char>,
    cfg: PackageConfigView,
    d: ImportDeclView,
) -> Seq<ImportDeclView> {
    if d.type_only || d.with_attributes {
        seq![d]
    } else if !all_named(d.specifiers) {
        seq![d]
    } else {
        Seq::new(d.specifiers.len(), |i: int| spec_rewrite_named(key, cfg, d.specifiers[i]))
    }
}

impl Rewriter {
    /// The configured entry for the exported symbol `name_str`, if any.
    pub fn get_config_from_exports(&self, name_str: &String) -> (r: Option<ModuleConfig>)
        ensures
            match r {
                Some(mc) => spec_lookup(self.config@.modules, name_str@) == Some(mc@),
                None => spec_lookup(self.config@.modules, name_str@) is None,
            },
    {
        let mut i: usize = 0;
        proof {
            assert(self.config@.modules.skip(0) =~= self.config@.modules);
        }
        while i < self.config.modules.len()
            invariant
                i <= self.config.modules.len(),
                spec_lookup(self.config@.modules, name_str@) == spec_lookup(
                    self.config@.modules.skip(i as int),
                    name_str@,
                ),
            decreases self.config.modules.len() - i,
        {
            proof {
                assert(self.config@.modules.len() == self.config.modules@.len());
                assert(self.config@.modules.skip(i as int)[0] == self.config@.modules[i as int]);
                assert(self.config@.modules.skip(i as int).drop_first() =~= self.config@
                    .modules.skip(i + 1 as int));
                assert(self.config@.modules[i as int] == (self.config.modules@[i as int].0@,
                self.config.modules@[i as int].1@));
            }
            if self.config.modules[i].0 == *name_str {
                return Some(self.config.modules[i].1.clone());
            }
            i = i + 1;
        }
        proof {
            assert(self.config@.modules.skip(self.config.modules@.len() as int) =~= Seq::<(
                Seq<char>,
                crate::config::ModuleConfigView,
            )>::empty());
        }
        None
    }

    /// Builds the rewritten import path for the exported symbol `name_str`
    /// (empty for a side-effect import).
    pub fn new_path(&self, name_str: Option<&String>) -> (r: String)
        ensures
            r@ == spec_new_path(
                self.key@,
                self.config@,
                match name_str {
                    Some(s) => s@,
                    None => Seq::<char>::empty(),
                },
            ),
    {
        let name: String = match name_str {
            Some(s) => (*s).clone(),
            None => String::new(),
        };
        let member_config = self.get_config_from_exports(&name);
        let raw = match member_config {
            Some(mc) => join_segments(
                self.key.as_str(),
                self.config.es_dir.as_str(),
                mc.src.as_str(),
            ),
            None => join_segments(self.key.as_str(), self.config.es_dir.as_str(), name.as_str()),
        };
        normalize_slashes(raw.as_str())
    }

    /// Rewrites one matched import declaration, as `spec_rewrite_import`
    /// describes.
    pub fn rewrite_import(&self, old_decl: &ImportDecl) -> (r: Vec<ImportDecl>)
        ensures
            decls_view(r@) == spec_rewrite_import(self.key@, self.config@, old_decl@),
    {
        if old_decl.type_only || old_decl.with_attributes {
            let mut r: Vec<ImportDecl> = Vec::new();
            r.push(old_decl.clone());
            proof {
                assert(decls_view(r@) =~~= seq![old_decl@]);
            }
            return r;
        }
        let mut out: Vec<ImportDecl> = Vec::new();
        let mut i: usize = 0;
        while i < old_decl.specifiers.len()
            invariant
                i <= old_decl.specifiers.len(),
                !old_decl@.type_only,
                !old_decl@.with_attributes,
                out@.len() == i,
                forall|j: int| 0 <= j < i ==> (#[trigger] old_decl@.specifiers[j]) is Named,
                forall|j: int|
                    0 <= j < i ==> (#[trigger] out@[j])@ == spec_rewrite_named(
                        self.key@,
                        self.config@,
                        old_decl@.specifiers[j],
                    ),
            decreases old_decl.specifiers.len() - i,
        {
            proof {
                assert(old_decl@.specifiers[i as int] == old_decl.specifiers@[i as int]@);
            }
            match &old_decl.specifiers[i] {
                ImportSpecifier::Named { local, imported } => {
                    let name_string: String = match imported {
                        Some(n) => n.clone(),
                        None => local.clone(),
                    };
                    let member_config = self.get_config_from_exports(&name_string);
                    let is_default = match &member_config {
                        Some(mc) => mc.is_default,
                        None => true,
                    };
                    let new_path = self.new_path(Some(&name_string));
                    let specifier = if is_default {
                        ImportSpecifier::DefaultBinding { local: local.clone() }
                    } else {
                        ImportSpecifier::Named {
                            local: local.clone(),
                            imported: match imported {
                                Some(n) => Some(n.clone()),
                                None => None,
                            },
                        }
                    };
                    let mut specifiers: Vec<ImportSpecifier> = Vec::new();
                    specifiers.push(specifier);
                    let decl = ImportDecl {
                        src: new_path,
                        type_only: false,
                        with_attributes: false,
                        specifiers,
                    };
                    proof {
                        assert(decl@ =~~= spec_rewrite_named(
                            self.key@,
                            self.config@,
                            old_decl@.specifiers[i as int],
                        ));
                    }
                    out.push(decl);
                },
                _ => {
                    let mut r: Vec<ImportDecl> = Vec::new();
                    r.push(old_decl.clone());
                    proof {
                        assert(!((old_decl@.specifiers[i as int]) is Named));
                        assert(!all_named(old_decl@.specifiers));
                        assert(decls_view(r@) =~~= seq![old_decl@]);
                    }
                    return r;
                },
            }
            i = i + 1;
        }
        proof {
            assert(all_named(old_decl@.specifiers));
            assert(decls_view(out@) =~~= spec_rewrite_import(self.key@, self.config@, old_decl@));
        }
        out
    }
}

/// What rewriting one top-level item yields. A non-import item, a type-only
/// or attributed import, and an import whose source matches no rule pass
/// through unchanged. A matched side-effect import keeps no specifiers and
/// gets the rewritten path; a matched import with specifiers is rewritten as
/// `spec_rewrite_import` describes.
pub open spec fn spec_rewrite_item(
    rules: Seq<(Seq<char>, PackageConfigView)>,
    item: ModuleItemView,
) -> Seq<ModuleItemView> {
    match item {
        ModuleItemView::Other(_) => seq![item],
        ModuleItemView::Import(d) => {
            if d.type_only || d.with_attributes {
                seq![item]
            } else {
                match spec_match_idx(rules, d.src) {
                    None => seq![item],
                    Some(i) => {
                        let cfg = rules[i].1;
                        if d.specifiers.len() == 0 {
                            seq![
                                ModuleItemView::Import(
                                    ImportDeclView {
                                        src: spec_new_path(d.src, cfg, Seq::empty()),
                                        type_only: false,
                                        with_attributes: false,
                                        specifiers: Seq::empty(),
                                    },
                                )
                            ]
                        } else {
                            spec_rewrite_import(d.src, cfg, d).map_values(
                                |dd: ImportDeclView| ModuleItemView::Import(dd),
                            )
                        }
                    },
                }
            }
        },
    }
}

/// What rewriting a module's top-level item list yields: the concatenation
/// of what rewriting each item yields, in original order.
pub open spec fn spec_transform(
    rules: Seq<(Seq<char>, PackageConfigView)>,
    items: Seq<ModuleItemView>,
) -> Seq<ModuleItemView>
    decreases items.len(),
{
    if items.len() == 0 {
        Seq::empty()
    } else {
        spec_rewrite_item(rules, items[0]) + spec_transform(rules, items.drop_first())
    }
}

/// Rewriting a list and one more item is rewriting the list, then the item.
pub proof fn lemma_transform_snoc(
    rules: Seq<(Seq<char>, PackageConfigView)>,
    items: Seq<ModuleItemView>,
    item: ModuleItemView,
)
    ensures
        spec_transform(rules, items.push(item)) == spec_transform(rules, items)
            + spec_rewrite_item(rules, item),
    decreases items.len(),
{
    if items.len() == 0 {
        assert(items.push(item).drop_first() =~= items);
        assert(spec_transform(rules, items.push(item)) =~= spec_transform(rules, items)
            + spec_rewrite_item(rules, item));
    } else {
        lemma_transform_snoc(rules, items.drop_first(), item);
        assert(items.push(item).drop_first() =~= items.drop_first().push(item));
        assert(spec_transform(rules, items.push(item)) =~= spec_transform(rules, items)
            + spec_rewrite_item(rules, item));
    }
}

impl TransformImports {
    /// Rewrites a module's top-level item list, as `spec_transform`
    /// describes.
    pub fn transform_module(&self, items: &Vec<ModuleItem>) -> (r: Vec<ModuleItem>)
        requires
            self.wf(),
        ensures
            items_view(r@) == spec_transform(self@, items_view(items@)),
    {
        let mut out: Vec<ModuleItem> = Vec::new();
        let mut i: usize = 0;
        proof {
            assert(items_view(items@).take(0) =~= Seq::<ModuleItemView>::empty());
            assert(items_view(out@) =~= Seq::<ModuleItemView>::empty());
        }
        while i < items.len()
            invariant
                self.wf(),
                i <= items.len(),
                items_view(out@) == spec_transform(self@, items_view(items@).take(i as int)),
            decreases items.len() - i,
        {
            let ghost out_before = items_view(out@);
            let ghost item_v = items@[i as int]@;
            match &items[i] {
                ModuleItem::Import(decl) => {
                    if decl.type_only || decl.with_attributes {
                        out.push(items[i].clone());
                        proof {
                            assert(spec_rewrite_item(self@, item_v) =~= seq![item_v]);
                            assert(items_view(out@) =~= out_before + spec_rewrite_item(
                                self@,
                                item_v,
                            ));
                        }
                    } else {
                        match self.should_rewrite(decl.src.as_str()) {
                            Some(rewriter) => {
                                let ghost idx = spec_match_idx(self@, decl.src@)->0;
                                proof {
                                    lemma_first_match_wins(self@, decl.src@);
                                }
                                if decl.specifiers.len() == 0 {
                                    let new_path = rewriter.new_path(None);
                                    let new_decl = ImportDecl {
                                        src: new_path,
                                        type_only: false,
                                        with_attributes: false,
                                        specifiers: Vec::new(),
                                    };
                                    out.push(ModuleItem::Import(new_decl));
                                    proof {
                                        assert(spec_rewrite_item(self@, item_v)
                                            =~~= seq![ModuleItemView::Import(
                                            ImportDeclView {
                                                src: spec_new_path(
                                                    decl.src@,
                                                    self@[idx].1,
                                                    Seq::empty(),
                                                ),
                                                type_only: false,
                                                with_attributes: false,
                                                specifiers: Seq::empty(),
                                            },
                                        )]);
                                        assert(items_view(out@) =~~= out_before
                                            + spec_rewrite_item(self@, item_v));
                                    }
                                } else {
                                    let new_decls = rewriter.rewrite_import(decl);
                                    let mut k: usize = 0;
                                    proof {
                                        assert(items_view(out@) =~= out_before + decls_view(
                                            new_decls@,
                                        ).map_values(
                                            |dd: ImportDeclView| ModuleItemView::Import(dd),
                                        ).take(0));
                                    }
                                    while k < new_decls.len()
                                        invariant
                                            k <= new_decls.len(),
                                            items_view(out@) == out_before + decls_view(
                                                new_decls@,
                                            ).map_values(
                                                |dd: ImportDeclView| ModuleItemView::Import(dd),
                                            ).take(k as int),
                                        decreases new_decls.len() - k,
                                    {
                                        let ghost m = decls_view(new_decls@).map_values(
                                            |dd: ImportDeclView| ModuleItemView::Import(dd),
                                        );
                                        let ghost out_pre = out@;
                                        out.push(ModuleItem::Import(new_decls[k].clone()));
                                        proof {
                                            assert(m[k as int] == ModuleItemView::Import(
                                                new_decls@[k as int]@,
                                            ));
                                            assert(items_view(out@) =~= items_view(out_pre).push(
                                                m[k as int],
                                            ));
                                            assert(m.take(k + 1 as int) =~= m.take(k as int).push(
                                                m[k as int],
                                            ));
                                            assert(items_view(out@) =~= out_before + m.take(
                                                k + 1 as int,
                                            ));
                                        }
                                        k = k + 1;
                                    }
                                    proof {
                                        assert(decls_view(new_decls@).map_values(
                                            |dd: ImportDeclView| ModuleItemView::Import(dd),
                                        ).take(new_decls@.len() as int) =~= decls_view(
                                            new_decls@,
                                        ).map_values(
                                            |dd: ImportDeclView| ModuleItemView::Import(dd),
                                        ));
                                        assert(spec_rewrite_item(self@, item_v) =~~= decls_view(
                                            new_decls@,
                                        ).map_values(
                                            |dd: ImportDeclView| ModuleItemView::Import(dd),
                                        ));
                                        assert(items_view(out@) =~~= out_before
                                            + spec_rewrite_item(self@, item_v));
                                    }
                                }
                            },
                            None => {
                                out.push(items[i].clone());
                                proof {
                                    assert(spec_rewrite_item(self@, item_v) =~= seq![item_v]);
                                    assert(items_view(out@) =~= out_before + spec_rewrite_item(
                                        self@,
                                        item_v,
                                    ));
                                }
                            },
                        }
                    }
                },
                ModuleItem::Other(_) => {
                    out.push(items[i].clone());
                    proof {
                        assert(spec_rewrite_item(self@, item_v) =~= seq![item_v]);
                        assert(items_view(out@) =~= out_before + spec_rewrite_item(self@, item_v));
                    }
                },
            }
            proof {
                assert(items_view(items@).take(i + 1 as int) =~= items_view(items@).take(
                    i as int,
                ).push(item_v));
                lemma_transform_snoc(self@, items_view(items@).take(i as int), item_v);
            }
            i = i + 1;
        }
        proof {
            assert(items_view(items@).take(items@.len() as int) =~= items_view(items@));
        }
        out
    }
}

/// Builds the rule table from `config` and rewrites `items` with it in one
/// step; fails exactly when a configured pattern, anchored, is not a valid
/// regular expression.
pub fn modularize_module(config: &Config, items: &Vec<ModuleItem>) -> (r: Result<
    Vec<ModuleItem>,
    InvalidPattern,
>)
    ensures
        match r {
            Ok(out) => rules_valid(anchored_rules(config@)) && items_view(out@) == spec_transform(
                anchored_rules(config@),
                items_view(items@),
            ),
            Err(e) => e.index < config.packages@.len() && !regex_valid(
                anchored_rules(config@)[e.index as int].0,
            ) && (forall|j: int|
                0 <= j < e.index ==> regex_valid((#[trigger] anchored_rules(config@)[j]).0)),
        },
{
    let table = match modularize_imports(config) {
        Ok(table) => table,
        Err(e) => {
            return Err(e);
        },
    };
    Ok(table.transform_module(items))
}

} // verus!

