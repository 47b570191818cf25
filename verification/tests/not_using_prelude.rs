use std::sync::Arc;

use klint::ctxt::AnalysisCtxt;
use klint::diagnostic::Level;
use klint::hir_lints::not_using_prelude::{Item, ItemKind, NotUsingPrelude, UseKind, UsePath};
use klint::program::{CrateData, ModChild, Module, Program};
use klint::span::Span;

const DEP: u32 = 1;
const DEP_ROOT: u64 = 100;
const DEP_MOD_A: u64 = 101;
const DEP_PRELUDE: u64 = 102;
const DEP_FN_A: u64 = 103;
const DEP_FN_B: u64 = 104;
const DEP_HIDDEN: u64 = 105;

fn child(name: &str, def_id: u64, is_mod: bool, is_public: bool) -> ModChild {
    ModChild { name: name.to_string(), def_id, is_mod, is_public }
}

fn dep_modules() -> Vec<Module> {
    vec![
        Module {
            def_id: DEP_ROOT,
            children: vec![child("a", DEP_MOD_A, true, true), child("prelude", DEP_PRELUDE, true, true)],
        },
        Module { def_id: DEP_MOD_A, children: vec![child("a", DEP_FN_A, false, true)] },
        Module {
            def_id: DEP_PRELUDE,
            children: vec![
                child("a", DEP_FN_A, false, true),
                child("b", DEP_FN_B, false, true),
                child("hidden", DEP_HIDDEN, false, false),
            ],
        },
    ]
}

fn program(local: &str, crates: Vec<CrateData>, modules: Vec<Module>) -> Program {
    Program {
        local_crate_name: local.to_string(),
        crates,
        modules,
        identities: vec![],
        drop_in_place: None,
        mem_drop: None,
    }
}

fn dep_crate(is_direct: bool) -> CrateData {
    CrateData { cnum: DEP, name: "dep".to_string(), is_direct, root: DEP_ROOT }
}

fn dep_program(local: &str) -> Program {
    program(local, vec![dep_crate(true)], dep_modules())
}

fn use_item(segments: &[&str], res: Vec<Option<u64>>, kind: UseKind) -> Item {
    Item {
        kind: ItemKind::Use(
            UsePath { segments: segments.iter().map(|s| s.to_string()).collect(), res },
            kind,
        ),
        span: Span { lo: 10, hi: 24 },
    }
}

fn pass(prog: Program) -> NotUsingPrelude {
    NotUsingPrelude::new(AnalysisCtxt::new(prog))
}

#[test]
fn import_available_via_prelude_is_flagged() {
    let mut lint = pass(dep_program("main"));
    let item = use_item(&["dep", "a", "a"], vec![Some(DEP_FN_A)], UseKind::Single);
    let diag = lint.check_item(&item).expect("the import is redundant");
    assert_eq!(diag.level, Level::Warning);
    assert_eq!(diag.lint, "not_using_prelude");
    assert_eq!(diag.message, "this item is available via prelude");
    assert_eq!(diag.span.primary_spans, vec![Span { lo: 10, hi: 24 }]);
    assert!(diag.span.span_labels.is_empty());
    assert_eq!(diag.children.len(), 1);
    assert_eq!(diag.children[0].level, Level::Help);
    assert_eq!(diag.children[0].message, "import with `dep::prelude::*` instead");
    assert!(diag.children[0].span.primary_spans.is_empty());
}

#[test]
fn wildcard_import_of_prelude_is_not_flagged() {
    let mut lint = pass(dep_program("main"));
    let item = use_item(&["dep", "prelude"], vec![Some(DEP_PRELUDE)], UseKind::Glob);
    assert!(lint.check_item(&item).is_none());
}

#[test]
fn scenario_flags_only_the_direct_import() {
    let mut lint = pass(dep_program("main"));
    let first = use_item(&["src", "a", "a"], vec![Some(DEP_FN_A)], UseKind::Single);
    let second = use_item(&["src", "prelude"], vec![Some(DEP_PRELUDE)], UseKind::Glob);
    let found: Vec<_> = [first, second].iter().filter_map(|i| lint.check_item(i)).collect();
    assert_eq!(found.len(), 1);
    assert_eq!(found[0].children[0].message, "import with `dep::prelude::*` instead");
}

#[test]
fn glob_and_list_imports_are_ignored() {
    let mut lint = pass(dep_program("main"));
    assert!(lint.check_item(&use_item(&["dep", "a"], vec![Some(DEP_FN_A)], UseKind::Glob)).is_none());
    assert!(lint
        .check_item(&use_item(&["dep", "a"], vec![Some(DEP_FN_A)], UseKind::ListStem))
        .is_none());
    assert!(lint.check_item(&Item { kind: ItemKind::Other, span: Span { lo: 1, hi: 2 } }).is_none());
}

#[test]
fn path_through_prelude_is_not_flagged() {
    let mut lint = pass(dep_program("main"));
    let item = use_item(&["dep", "prelude", "a"], vec![Some(DEP_FN_A)], UseKind::Single);
    assert!(lint.check_item(&item).is_none());
    let near = use_item(&["dep", "preludes", "a"], vec![Some(DEP_FN_A)], UseKind::Single);
    assert!(lint.check_item(&near).is_some());
}

#[test]
fn mixed_namespace_import_is_not_flagged() {
    let mut lint = pass(dep_program("main"));
    let partly = use_item(&["dep", "a", "a"], vec![Some(DEP_FN_A), Some(DEP_MOD_A)], UseKind::Single);
    assert!(lint.check_item(&partly).is_none());
    let not_an_item = use_item(&["dep", "a", "a"], vec![Some(DEP_FN_A), None], UseKind::Single);
    assert!(lint.check_item(&not_an_item).is_none());
    let both = use_item(&["dep", "a", "a"], vec![Some(DEP_FN_A), Some(DEP_FN_B)], UseKind::Single);
    assert!(lint.check_item(&both).is_some());
}

#[test]
fn import_that_resolves_to_nothing_is_not_flagged() {
    let mut lint = pass(dep_program("main"));
    assert!(lint.check_item(&use_item(&["dep", "a", "a"], vec![], UseKind::Single)).is_none());
}

#[test]
fn doctest_units_are_exempt() {
    let item = use_item(&["dep", "a", "a"], vec![Some(DEP_FN_A)], UseKind::Single);
    assert!(pass(dep_program("rust_out_doctest_0")).check_item(&item).is_none());
    assert!(pass(dep_program("doctest")).check_item(&item).is_none());
    assert!(pass(dep_program("doctes")).check_item(&item).is_some());
    assert!(pass(dep_program("")).check_item(&item).is_some());
}

#[test]
fn surface_holds_public_prelude_members_only() {
    let mut cx = AnalysisCtxt::new(dep_program("main"));
    let surface = cx.prelude_def_ids();
    assert_eq!(surface.len(), 2);
    assert_eq!(surface.get(&DEP_FN_A), Some(&DEP));
    assert_eq!(surface.get(&DEP_FN_B), Some(&DEP));
    assert_eq!(surface.get(&DEP_HIDDEN), None);
    assert_eq!(surface.get(&DEP_PRELUDE), None);
}

#[test]
fn transitive_dependencies_are_left_out() {
    let prog = program("main", vec![dep_crate(false)], dep_modules());
    assert!(prog.prelude_surface().is_empty());
    let item = use_item(&["dep", "a", "a"], vec![Some(DEP_FN_A)], UseKind::Single);
    assert!(pass(prog).check_item(&item).is_none());
}

#[test]
fn prelude_must_be_a_module() {
    let modules = vec![
        Module { def_id: DEP_ROOT, children: vec![child("prelude", DEP_PRELUDE, false, true)] },
        Module { def_id: DEP_PRELUDE, children: vec![child("a", DEP_FN_A, false, true)] },
    ];
    assert!(program("main", vec![dep_crate(true)], modules).prelude_surface().is_empty());
}

#[test]
fn first_prelude_module_is_taken() {
    let modules = vec![
        Module {
            def_id: DEP_ROOT,
            children: vec![
                child("prelude", 7, false, true),
                child("prelude", DEP_PRELUDE, true, true),
                child("prelude", DEP_MOD_A, true, true),
            ],
        },
        Module { def_id: DEP_MOD_A, children: vec![child("a", DEP_FN_A, false, true)] },
        Module { def_id: DEP_PRELUDE, children: vec![child("b", DEP_FN_B, false, true)] },
    ];
    let prog = program("main", vec![dep_crate(true)], modules);
    assert_eq!(prog.find_prelude(DEP_ROOT), Some(DEP_PRELUDE));
    let surface = prog.prelude_surface();
    assert_eq!(surface.len(), 1);
    assert_eq!(surface.get(&DEP_FN_B), Some(&DEP));
}

#[test]
fn unit_without_prelude_is_skipped() {
    let modules = vec![Module { def_id: DEP_ROOT, children: vec![child("a", DEP_MOD_A, true, true)] }];
    let prog = program("main", vec![dep_crate(true)], modules);
    assert_eq!(prog.find_prelude(DEP_ROOT), None);
    assert_eq!(prog.find_prelude(999), None);
    assert!(prog.prelude_surface().is_empty());
}

#[test]
fn later_unit_wins_a_shared_symbol() {
    let mut modules = dep_modules();
    modules.push(Module { def_id: 200, children: vec![child("prelude", 201, true, true)] });
    modules.push(Module { def_id: 201, children: vec![child("a", DEP_FN_A, false, true)] });
    let crates = vec![
        dep_crate(true),
        CrateData { cnum: 2, name: "other".to_string(), is_direct: true, root: 200 },
    ];
    let prog = program("main", crates, modules);
    let surface = prog.prelude_surface();
    assert_eq!(surface.get(&DEP_FN_A), Some(&2));
    assert_eq!(surface.get(&DEP_FN_B), Some(&DEP));
    let item = use_item(&["other", "a"], vec![Some(DEP_FN_A)], UseKind::Single);
    let diag = pass(prog).check_item(&item).expect("flagged");
    assert_eq!(diag.children[0].message, "import with `other::prelude::*` instead");
}

#[test]
fn second_request_returns_the_cached_index() {
    let mut cx = AnalysisCtxt::new(dep_program("main"));
    let first = cx.prelude_def_ids();
    let second = cx.prelude_def_ids();
    assert!(Arc::ptr_eq(&first, &second));
    assert_eq!(*first, *second);
    assert_eq!(first.len(), 2);
}

#[test]
fn context_answers_name_queries() {
    let cx = AnalysisCtxt::new(dep_program("main"));
    assert_eq!(cx.local_crate_name(), "main");
    assert_eq!(cx.crate_name(DEP).map(|s| s.as_str()), Some("dep"));
    assert_eq!(cx.crate_name(9), None);
    assert_eq!(cx.program().find_module(DEP_PRELUDE), Some(2));
    assert_eq!(cx.program().find_module(1), None);
    assert_eq!(cx.program().find_crate(DEP), Some(0));
}
