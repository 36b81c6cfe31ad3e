//! Properties of the rewriting engine, stated over the specification
//! functions and proved once for all inputs.

use vstd::prelude::*;

use crate::config::PackageConfigView;
use crate::model::{ImportDeclView, ModuleItemView, SpecifierView};
use crate::strings::lemma_no_doubled_separator;
use crate::transform::{
    all_named, spec_imported_name, spec_is_default, spec_match_idx, spec_new_path,
    spec_rewrite_import, spec_rewrite_item, spec_rewrite_named,
};

verus! {

/// An import whose source matches no rule passes through unchanged:
/// rewriting it is the identity transform.
pub proof fn lemma_unmatched_import_unchanged(
    rules: Seq<(Seq<char>, PackageConfigView)>,
    d: ImportDeclView,
)
    requires
        spec_match_idx(rules, d.src) is None,
    ensures
        spec_rewrite_item(rules, ModuleItemView::Import(d)) == seq![ModuleItemView::Import(d)],
{
}

/// A module none of whose imports matches a rule is rewritten to itself:
/// rewriting is the identity transform on non-matching input.
pub proof fn lemma_no_match_module_identity(
    rules: Seq<(Seq<char>, PackageConfigView)>,
    items: Seq<ModuleItemView>,
)
    requires
        forall|k: int|
            0 <= k < items.len() ==> ((#[trigger] items[k]) matches ModuleItemView::Import(d)
                ==> spec_match_idx(rules, d.src) is None),
    ensures
        crate::transform::spec_transform(rules, items) == items,
    decreases items.len(),
{
    if items.len() > 0 {
        lemma_no_match_module_identity(rules, items.drop_first());
        assert(spec_rewrite_item(rules, items[0]) == seq![items[0]]);
        assert(crate::transform::spec_transform(rules, items) =~= items);
    }
}

/// A type-only or attributed import passes through unchanged, matched or
/// not.
pub proof fn lemma_type_only_passthrough(
    rules: Seq<(Seq<char>, PackageConfigView)>,
    d: ImportDeclView,
)
    requires
        d.type_only || d.with_attributes,
    ensures
        spec_rewrite_item(rules, ModuleItemView::Import(d)) == seq![ModuleItemView::Import(d)],
{
}

/// An import that holds any specifier besides plain named bindings — a
/// default or namespace binding, in any mixture — is left entirely
/// unmodified, even when its source matches a rule.
pub proof fn lemma_mixed_specifiers_unchanged(
    rules: Seq<(Seq<char>, PackageConfigView)>,
    d: ImportDeclView,
)
    requires
        !d.type_only,
        !d.with_attributes,
        d.specifiers.len() > 0,
        !all_named(d.specifiers),
    ensures
        spec_rewrite_item(rules, ModuleItemView::Import(d)) == seq![ModuleItemView::Import(d)],
{
    match spec_match_idx(rules, d.src) {
        Some(i) => {
            assert(spec_rewrite_import(d.src, rules[i].1, d) == seq![d]);
            assert(seq![d].map_values(|dd: ImportDeclView| ModuleItemView::Import(dd))
                =~= seq![ModuleItemView::Import(d)]);
        },
        None => {
        },
    }
}

/// Rewriting a matched, all-named-specifier import yields one import per
/// specifier, and every produced import holds exactly one specifier.
pub proof fn lemma_one_specifier_each(key: Seq<char>, cfg: PackageConfigView, d: ImportDeclView)
    requires
        !d.type_only,
        !d.with_attributes,
        all_named(d.specifiers),
    ensures
        spec_rewrite_import(key, cfg, d).len() == d.specifiers.len(),
        forall|k: int|
            0 <= k < d.specifiers.len() ==> (#[trigger] spec_rewrite_import(key, cfg, d)[
                k
            ]).specifiers.len() == 1,
{
    assert forall|k: int| 0 <= k < d.specifiers.len() implies (#[trigger] spec_rewrite_import(
        key,
        cfg,
        d,
    )[k]).specifiers.len() == 1 by {
        assert(d.specifiers[k] is Named);
        assert(spec_rewrite_import(key, cfg, d)[k] == spec_rewrite_named(
            key,
            cfg,
            d.specifiers[k],
        ));
    }
}

/// The produced specifier is faithful to the resolved kind: a symbol
/// resolved as a default export becomes a default binding under the original
/// local alias; one resolved as named keeps the original imported-name /
/// local-alias pair. The produced path is the rewritten path for the
/// imported name.
pub proof fn lemma_default_vs_named(
    key: Seq<char>,
    cfg: PackageConfigView,
    local: Seq<char>,
    imported: Option<Seq<char>>,
)
    ensures
        ({
            let name = spec_imported_name(local, imported);
            let d = spec_rewrite_named(key, cfg, SpecifierView::Named { local, imported });
            &&& spec_is_default(cfg, name) ==> d.specifiers == seq![
                SpecifierView::DefaultBinding { local },
            ]
            &&& !spec_is_default(cfg, name) ==> d.specifiers == seq![
                SpecifierView::Named { local, imported },
            ]
            &&& d.src == spec_new_path(key, cfg, name)
            &&& !d.type_only
            &&& !d.with_attributes
        }),
{
}

/// Every constructed import path is free of doubled separators, whatever
/// the configured directory and segment hold.
pub proof fn lemma_path_single_separators(key: Seq<char>, cfg: PackageConfigView, name: Seq<char>)
    ensures
        forall|i: int|
            0 <= i && i + 1 < spec_new_path(key, cfg, name).len() ==> !((
            #[trigger] spec_new_path(key, cfg, name)[i]) == '/' && spec_new_path(key, cfg, name)[
                i + 1
            ] == '/'),
{
    lemma_no_doubled_separator(
        key + seq!['/'] + cfg.es_dir + seq!['/'] + crate::transform::spec_segment(cfg, name),
    );
}

} // verus!
