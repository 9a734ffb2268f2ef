use ctest_next::generation::{parse_crate, parsed_crate, side_path};
use ctest_next::{
    Action, Event, FfiItems, Generation, GenerationError, ItemKind, Stage, Struct, TestGenerator,
    TestSide, Type,
};
use std::path::PathBuf;

fn disk_full() -> std::io::Error {
    std::io::Error::new(std::io::ErrorKind::Other, "disk full")
}

fn start(cfg: &mut TestGenerator) -> Generation {
    let (run, action) = cfg.generate_files(PathBuf::from("src/lib.rs"), PathBuf::from("all.d"));
    match action {
        Action::Expand(path) => assert_eq!(path, PathBuf::from("src/lib.rs")),
        _ => panic!("the crate is expanded first"),
    }
    run
}

fn created(action: Action) -> PathBuf {
    match action {
        Action::Create(path) => path,
        _ => panic!("a file is to be created"),
    }
}

fn failure(action: Action) -> GenerationError {
    match action {
        Action::Finish(Err(error)) => error,
        _ => panic!("the run is to fail"),
    }
}

/// Goes through the reports of a run in which items have been collected.
fn report_all(run: &mut Generation, cfg: &TestGenerator, first: Action) -> (Vec<String>, Action) {
    let mut lines = Vec::new();
    let mut action = first;
    while let Action::Report(more) = action {
        lines.extend(more);
        action = run.advance(cfg, Event::Reported);
    }
    (lines, action)
}

/// Brings a run to the creation of the Rust file.
fn to_rust_file(cfg: &mut TestGenerator) -> (Generation, PathBuf) {
    cfg.out_dir(PathBuf::from("out"));
    let mut run = start(cfg);
    run.advance(cfg, Event::Expanded(Ok("pub struct S;".to_string())));
    let action = run.advance(cfg, Event::Collected(FfiItems::new()));
    let (_, action) = report_all(&mut run, cfg, action);
    (run, created(action))
}

#[test]
fn a_run_makes_both_files() {
    let mut cfg = TestGenerator::new();
    cfg.skip_struct(|s| s.ident() == "hidden").verbose_skip(true).out_dir(PathBuf::from("out"));
    let mut run = start(&mut cfg);
    match run.advance(&cfg, Event::Expanded(Ok("struct A; struct B;".to_string()))) {
        Action::Collect(tree) => assert_eq!(tree.items.len(), 2),
        _ => panic!("the items are collected"),
    }
    let mut items = FfiItems::new();
    items.structs.push(Struct { ident: "hidden".to_string() });
    items.structs.push(Struct { ident: "shown".to_string() });
    let action = run.advance(&cfg, Event::Collected(items));
    let (lines, action) = report_all(&mut run, &cfg, action);
    assert_eq!(lines, vec!["Skipping struct \"hidden\"".to_string()]);
    assert_eq!(run.ffi_items().structs, vec![Struct { ident: "shown".to_string() }]);
    assert_eq!(created(action), PathBuf::from("out/all.rs"));
    assert!(matches!(run.advance(&cfg, Event::Created(Ok(()))), Action::Render(TestSide::Rust)));
    match run.advance(&cfg, Event::Rendered(Ok("rust text".to_string()))) {
        Action::Write(text) => assert_eq!(text, "rust text"),
        _ => panic!("the text is written"),
    }
    assert_eq!(created(run.advance(&cfg, Event::Written(Ok(())))), PathBuf::from("out/all.c"));
    assert!(matches!(run.advance(&cfg, Event::Created(Ok(()))), Action::Render(TestSide::C)));
    match run.advance(&cfg, Event::Rendered(Ok("c text".to_string()))) {
        Action::Write(text) => assert_eq!(text, "c text"),
        _ => panic!("the text is written"),
    }
    match run.advance(&cfg, Event::Written(Ok(()))) {
        Action::Finish(Ok(path)) => assert_eq!(path, PathBuf::from("out/all.d")),
        _ => panic!("the run is over"),
    }
    assert_eq!(run.stage(), Stage::Finished);
}

#[test]
fn the_default_directory_is_asked_for() {
    let mut cfg = TestGenerator::new();
    let mut run = start(&mut cfg);
    run.advance(&cfg, Event::Expanded(Ok(String::new())));
    let action = run.advance(&cfg, Event::Collected(FfiItems::new()));
    let (lines, action) = report_all(&mut run, &cfg, action);
    assert!(lines.is_empty());
    assert!(matches!(action, Action::FindOutDir));
    let path = created(run.advance(&cfg, Event::OutDirFound(PathBuf::from("target/build"))));
    assert_eq!(path, PathBuf::from("target/build/all.rs"));
}

#[test]
fn an_absolute_file_stays_where_it_is() {
    let mut cfg = TestGenerator::new();
    cfg.out_dir(PathBuf::from("out"));
    let (mut run, _) = cfg.generate_files(PathBuf::from("lib.rs"), PathBuf::from("/tmp/all"));
    run.advance(&cfg, Event::Expanded(Ok(String::new())));
    let action = run.advance(&cfg, Event::Collected(FfiItems::new()));
    let (_, action) = report_all(&mut run, &cfg, action);
    assert_eq!(created(action), PathBuf::from("/tmp/all.rs"));
}

#[test]
fn expansion_can_fail() {
    let mut cfg = TestGenerator::new();
    let mut run = start(&mut cfg);
    let error = failure(run.advance(&cfg, Event::Expanded(Err("no rustc".to_string()))));
    assert_eq!(error.message(), "unable to expand crate src/lib.rs: no rustc");
    assert!(matches!(error, GenerationError::MacroExpansion(_, _)));
}

#[test]
fn bad_syntax_is_reported_with_the_source() {
    let mut cfg = TestGenerator::new();
    let mut run = start(&mut cfg);
    match failure(run.advance(&cfg, Event::Expanded(Ok("struct".to_string())))) {
        GenerationError::RustSyntax(source, reason) => {
            assert_eq!(source, "struct");
            assert!(reason.contains("expected identifier"));
        }
        _ => panic!("the source is not valid"),
    }
    assert_eq!(run.stage(), Stage::Finished);
}

#[test]
fn parse_results_are_taken_up() {
    match parse_crate("fn f() {} fn g() {}".to_string()) {
        Ok(tree) => assert_eq!(tree.items.len(), 2),
        Err(_) => panic!("the source is valid"),
    }
    match parsed_crate("source".to_string(), Err("reason".to_string())) {
        Err(error) => {
            assert_eq!(error.message(), "unable to parse expanded crate source: reason")
        }
        Ok(_) => panic!("the error is kept"),
    }
}

#[test]
fn a_file_may_not_be_created() {
    let mut cfg = TestGenerator::new();
    let (mut run, path) = to_rust_file(&mut cfg);
    assert_eq!(path, PathBuf::from("out/all.rs"));
    let error = failure(run.advance(&cfg, Event::Created(Err(disk_full()))));
    assert_eq!(error.message(), "unable to create or write template file: disk full");
}

#[test]
fn a_template_may_not_render() {
    let mut cfg = TestGenerator::new();
    let (mut run, _) = to_rust_file(&mut cfg);
    run.advance(&cfg, Event::Created(Ok(())));
    let error = failure(run.advance(&cfg, Event::Rendered(Err("oops".to_string()))));
    assert_eq!(error.message(), "unable to render Rust template: oops");
}

#[test]
fn the_other_template_may_not_render() {
    let mut cfg = TestGenerator::new();
    let (mut run, _) = to_rust_file(&mut cfg);
    run.advance(&cfg, Event::Created(Ok(())));
    run.advance(&cfg, Event::Rendered(Ok("text".to_string())));
    run.advance(&cfg, Event::Written(Ok(())));
    run.advance(&cfg, Event::Created(Ok(())));
    let error = failure(run.advance(&cfg, Event::Rendered(Err("oops".to_string()))));
    assert_eq!(error.message(), "unable to render C template: oops");
}

#[test]
fn a_file_may_not_be_written() {
    let mut cfg = TestGenerator::new();
    let (mut run, _) = to_rust_file(&mut cfg);
    run.advance(&cfg, Event::Created(Ok(())));
    run.advance(&cfg, Event::Rendered(Ok("text".to_string())));
    let error = failure(run.advance(&cfg, Event::Written(Err(disk_full()))));
    assert!(matches!(error, GenerationError::OsError(_)));
    assert_eq!(run.stage(), Stage::Finished);
}

#[test]
fn unmapped_items_have_a_message() {
    assert_eq!(GenerationError::ItemMap.message(), "unable to map Rust identifier or type");
}

#[test]
fn extensions_replace_each_other() {
    let path = PathBuf::from("a/b.txt");
    assert_eq!(side_path(&path, TestSide::Rust), PathBuf::from("a/b.rs"));
    assert_eq!(side_path(&path, TestSide::C), PathBuf::from("a/b.c"));
    assert_eq!(side_path(&PathBuf::from("plain"), TestSide::C), PathBuf::from("plain.c"));
}

#[test]
fn the_longest_run_takes_fourteen_events() {
    let mut cfg = TestGenerator::new();
    let mut run = start(&mut cfg);
    let text = || Ok("text".to_string());
    let events = vec![
        Event::Expanded(Ok(String::new())),
        Event::Collected(FfiItems::new()),
        Event::Reported,
        Event::Reported,
        Event::Reported,
        Event::Reported,
        Event::Reported,
        Event::OutDirFound(PathBuf::from("out")),
        Event::Created(Ok(())),
        Event::Rendered(text()),
        Event::Written(Ok(())),
        Event::Created(Ok(())),
        Event::Rendered(text()),
        Event::Written(Ok(())),
    ];
    assert_eq!(events.len(), 14);
    let last = events.len() - 1;
    for (i, event) in events.into_iter().enumerate() {
        assert!(run.stage() != Stage::Finished);
        let action = run.advance(&cfg, event);
        assert_eq!(matches!(action, Action::Finish(Ok(_))), i == last);
    }
    assert_eq!(run.stage(), Stage::Finished);
}

#[test]
fn a_tree_is_handed_on() {
    let mut cfg = TestGenerator::new();
    let mut run = start(&mut cfg);
    let tree = parse_crate("const A: u8 = 1;".to_string());
    match run.take_tree(tree) {
        Action::Collect(tree) => assert_eq!(tree.items.len(), 1),
        _ => panic!("the items are collected"),
    }
    assert_eq!(run.stage(), Stage::Collecting);
}

#[test]
fn each_kind_is_reported_before_the_next_is_filtered() {
    let mut cfg = TestGenerator::new();
    cfg.skip_alias(|_| true).skip_struct(|_| true).verbose_skip(true);
    let mut run = start(&mut cfg);
    run.advance(&cfg, Event::Expanded(Ok(String::new())));
    let mut items = FfiItems::new();
    items.aliases.push(Type { ident: "a".to_string() });
    items.structs.push(Struct { ident: "s".to_string() });
    let mut reports = Vec::new();
    let mut action = run.advance(&cfg, Event::Collected(items));
    while let Action::Report(lines) = action {
        reports.push((run.stage(), lines, run.ffi_items().structs.len()));
        action = run.advance(&cfg, Event::Reported);
    }
    assert_eq!(
        reports,
        vec![
            (Stage::Reporting(ItemKind::Alias), vec!["Skipping alias \"a\"".to_string()], 1),
            (Stage::Reporting(ItemKind::Const), vec![], 1),
            (Stage::Reporting(ItemKind::Struct), vec!["Skipping struct \"s\"".to_string()], 0),
            (Stage::Reporting(ItemKind::Fn), vec![], 0),
            (Stage::Reporting(ItemKind::Static), vec![], 0),
        ]
    );
}
