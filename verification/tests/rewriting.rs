use modularize_imports::{
    modularize_imports, modularize_module, Config, ImportDecl, ImportSpecifier, ModuleConfig,
    ModuleItem, PackageConfig, Transform,
};

fn package(es_dir: &str, modules: Vec<(&str, &str, bool)>) -> PackageConfig {
    PackageConfig {
        es_dir: es_dir.to_string(),
        modules: modules
            .into_iter()
            .map(|(name, src, is_default)| {
                (name.to_string(), ModuleConfig { src: src.to_string(), is_default })
            })
            .collect(),
    }
}

fn config(packages: Vec<(&str, PackageConfig)>) -> Config {
    Config {
        packages: packages.into_iter().map(|(pat, cfg)| (pat.to_string(), cfg)).collect(),
    }
}

fn named(local: &str) -> ImportSpecifier {
    ImportSpecifier::Named { local: local.to_string(), imported: None }
}

fn named_as(imported: &str, local: &str) -> ImportSpecifier {
    ImportSpecifier::Named { local: local.to_string(), imported: Some(imported.to_string()) }
}

fn import(src: &str, specifiers: Vec<ImportSpecifier>) -> ImportDecl {
    ImportDecl { src: src.to_string(), type_only: false, with_attributes: false, specifiers }
}

fn rewrite(cfg: &Config, items: Vec<ModuleItem>) -> Vec<ModuleItem> {
    modularize_module(cfg, &items).expect("configuration should load")
}

fn ui_lib_config() -> Config {
    config(vec![(
        "ui-lib",
        package("es", vec![("Button", "button", true), ("Grid", "grid/index", false)]),
    )])
}

#[test]
fn unmatched_import_passthrough() {
    let cfg = ui_lib_config();
    let decl = import("other-lib", vec![named("Button")]);
    let items = vec![ModuleItem::Import(decl.clone())];
    assert_eq!(rewrite(&cfg, items), vec![ModuleItem::Import(decl)]);
}

#[test]
fn pattern_is_anchored() {
    let cfg = config(vec![("foo", package("es", vec![]))]);

    let hit = import("foo", vec![named("A")]);
    let out = rewrite(&cfg, vec![ModuleItem::Import(hit)]);
    assert_eq!(
        out,
        vec![ModuleItem::Import(import(
            "foo/es/A",
            vec![ImportSpecifier::DefaultBinding { local: "A".to_string() }]
        ))]
    );

    for source in ["foo/bar", "xfoo"] {
        let miss = import(source, vec![named("A")]);
        let out = rewrite(&cfg, vec![ModuleItem::Import(miss.clone())]);
        assert_eq!(out, vec![ModuleItem::Import(miss)]);
    }
}

#[test]
fn first_match_wins() {
    let cfg = config(vec![
        ("pkg", package("first", vec![])),
        ("^pkg$", package("second", vec![])),
    ]);
    let out = rewrite(&cfg, vec![ModuleItem::Import(import("pkg", vec![named("A")]))]);
    assert_eq!(
        out,
        vec![ModuleItem::Import(import(
            "pkg/first/A",
            vec![ImportSpecifier::DefaultBinding { local: "A".to_string() }]
        ))]
    );
}

#[test]
fn split_one_specifier_each() {
    let cfg = ui_lib_config();
    let decl = import("ui-lib", vec![named("Button"), named("Grid"), named("Zed")]);
    let out = rewrite(&cfg, vec![ModuleItem::Import(decl)]);
    assert_eq!(out.len(), 3);
    for item in &out {
        match item {
            ModuleItem::Import(d) => assert_eq!(d.specifiers.len(), 1),
            ModuleItem::Other(_) => panic!("expected an import"),
        }
    }
}

#[test]
fn default_and_named_fidelity() {
    let cfg = ui_lib_config();
    let decl = import("ui-lib", vec![named_as("Button", "B"), named_as("Grid", "G")]);
    let out = rewrite(&cfg, vec![ModuleItem::Import(decl)]);
    assert_eq!(
        out,
        vec![
            ModuleItem::Import(import(
                "ui-lib/es/button",
                vec![ImportSpecifier::DefaultBinding { local: "B".to_string() }]
            )),
            ModuleItem::Import(import("ui-lib/es/grid/index", vec![named_as("Grid", "G")])),
        ]
    );
}

#[test]
fn mixed_specifiers_untouched() {
    let cfg = ui_lib_config();
    let decl = import(
        "ui-lib",
        vec![
            ImportSpecifier::NamespaceBinding { local: "ns".to_string() },
            named("Button"),
        ],
    );
    let out = rewrite(&cfg, vec![ModuleItem::Import(decl.clone())]);
    assert_eq!(out, vec![ModuleItem::Import(decl)]);
}

#[test]
fn default_binding_untouched() {
    let cfg = ui_lib_config();
    let decl = import(
        "ui-lib",
        vec![ImportSpecifier::DefaultBinding { local: "UiLib".to_string() }, named("Button")],
    );
    let out = rewrite(&cfg, vec![ModuleItem::Import(decl.clone())]);
    assert_eq!(out, vec![ModuleItem::Import(decl)]);
}

#[test]
fn slash_normalization() {
    let cfg = config(vec![("pkg", package("", vec![("Button", "/button", true)]))]);
    let out = rewrite(&cfg, vec![ModuleItem::Import(import("pkg", vec![named("Button")]))]);
    assert_eq!(
        out,
        vec![ModuleItem::Import(import(
            "pkg/button",
            vec![ImportSpecifier::DefaultBinding { local: "Button".to_string() }]
        ))]
    );
}

#[test]
fn side_effect_import_rewrite() {
    let cfg = config(vec![("pkg/all", package("es", vec![]))]);
    let out = rewrite(&cfg, vec![ModuleItem::Import(import("pkg/all", vec![]))]);
    assert_eq!(out, vec![ModuleItem::Import(import("pkg/all/es/", vec![]))]);
}

#[test]
fn end_to_end_example() {
    let cfg = ui_lib_config();
    let decl = import("ui-lib", vec![named("Button"), named_as("Grid", "G")]);
    let out = rewrite(&cfg, vec![ModuleItem::Import(decl)]);
    assert_eq!(
        out,
        vec![
            ModuleItem::Import(import(
                "ui-lib/es/button",
                vec![ImportSpecifier::DefaultBinding { local: "Button".to_string() }]
            )),
            ModuleItem::Import(import("ui-lib/es/grid/index", vec![named_as("Grid", "G")])),
        ]
    );
}

#[test]
fn type_only_passthrough() {
    let cfg = ui_lib_config();
    let mut decl = import("ui-lib", vec![named("Button")]);
    decl.type_only = true;
    let out = rewrite(&cfg, vec![ModuleItem::Import(decl.clone())]);
    assert_eq!(out, vec![ModuleItem::Import(decl)]);
}

#[test]
fn attributed_import_passthrough() {
    let cfg = ui_lib_config();
    let mut decl = import("ui-lib", vec![named("Button")]);
    decl.with_attributes = true;
    let out = rewrite(&cfg, vec![ModuleItem::Import(decl.clone())]);
    assert_eq!(out, vec![ModuleItem::Import(decl)]);
}

#[test]
fn invalid_pattern_rejected() {
    let cfg = config(vec![("ui-lib", package("es", vec![])), ("(", package("es", vec![]))]);
    let err = modularize_module(&cfg, &vec![]).expect_err("the pattern should be rejected");
    assert_eq!(err.index, 1);
    assert!(modularize_imports(&cfg).is_err());
}

#[test]
fn empty_config_identity() {
    let cfg = config(vec![]);
    let items = vec![
        ModuleItem::Other(7),
        ModuleItem::Import(import("ui-lib", vec![named("Button")])),
        ModuleItem::Import(import("pkg", vec![])),
    ];
    assert_eq!(rewrite(&cfg, items.clone()), items);
}

#[test]
fn other_items_keep_their_places() {
    let cfg = ui_lib_config();
    let items = vec![
        ModuleItem::Other(1),
        ModuleItem::Import(import("ui-lib", vec![named("Button"), named("Grid")])),
        ModuleItem::Other(2),
    ];
    let out = rewrite(&cfg, items);
    assert_eq!(out.len(), 4);
    assert_eq!(out[0], ModuleItem::Other(1));
    assert_eq!(
        out[1],
        ModuleItem::Import(import(
            "ui-lib/es/button",
            vec![ImportSpecifier::DefaultBinding { local: "Button".to_string() }]
        ))
    );
    assert_eq!(out[2], ModuleItem::Import(import("ui-lib/es/grid/index", vec![named("Grid")])));
    assert_eq!(out[3], ModuleItem::Other(2));
}

#[test]
fn unlisted_symbol_defaults() {
    let cfg = ui_lib_config();
    let out = rewrite(&cfg, vec![ModuleItem::Import(import("ui-lib", vec![named("Zed")]))]);
    assert_eq!(
        out,
        vec![ModuleItem::Import(import(
            "ui-lib/es/Zed",
            vec![ImportSpecifier::DefaultBinding { local: "Zed".to_string() }]
        ))]
    );
}

#[test]
fn lookup_uses_imported_name_not_alias() {
    let cfg = config(vec![("pkg", package("lib", vec![("foo", "f", false)]))]);
    let out = rewrite(&cfg, vec![ModuleItem::Import(import("pkg", vec![named_as("foo", "bar")]))]);
    assert_eq!(
        out,
        vec![ModuleItem::Import(import("pkg/lib/f", vec![named_as("foo", "bar")]))]
    );
}

#[test]
fn capture_groups_are_exposed() {
    let cfg = config(vec![("^(ui)-lib$", package("es", vec![]))]);
    let table = modularize_imports(&cfg).expect("configuration should load");
    let rewriter = table.should_rewrite("ui-lib").expect("the source should match");
    assert_eq!(rewriter.key, "ui-lib");
    assert_eq!(rewriter.group, vec!["ui-lib".to_string(), "ui".to_string()]);
    assert!(table.should_rewrite("ui-libx").is_none());
}

#[test]
fn transform_from_pairs() {
    let pairs = vec![("a".to_string(), "b".to_string())];
    assert_eq!(Transform::from(pairs.clone()), Transform::Pairs(pairs));
    assert_eq!(Transform::from("tpl"), Transform::Single("tpl".to_string()));
}
