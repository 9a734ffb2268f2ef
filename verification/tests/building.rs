use ctest_next::{Field, Fn, Parameter, Static, Struct, TestGenerator, VolatileItemKind};
use std::path::PathBuf;

fn func(ident: &str) -> Fn {
    Fn { ident: ident.to_string() }
}

fn param(ident: &str) -> Parameter {
    Parameter { ident: ident.to_string() }
}

#[test]
fn new_is_blank() {
    let cfg = TestGenerator::new();
    assert!(cfg.headers.is_empty());
    assert!(cfg.target.is_none());
    assert!(cfg.includes.is_empty());
    assert!(cfg.out_dir.is_none());
    assert!(cfg.flags.is_empty());
    assert!(cfg.defines.is_empty());
    assert!(cfg.mapped_names.is_empty());
    assert!(cfg.skips.is_empty());
    assert!(!cfg.verbose_skip);
    assert!(cfg.volatile_items.is_empty());
    assert!(cfg.array_arg.is_none());
    assert!(TestGenerator::default().headers.is_empty());
}

#[test]
fn headers_keep_their_order() {
    let mut cfg = TestGenerator::new();
    cfg.header("foo.h").header("bar.h");
    assert_eq!(cfg.headers, vec!["foo.h".to_string(), "bar.h".to_string()]);
    assert!(cfg.flags.is_empty());
}

#[test]
fn the_last_target_counts() {
    let mut cfg = TestGenerator::new();
    cfg.target("i686-unknown-linux-gnu").target("x86_64-unknown-linux-gnu");
    assert_eq!(cfg.target, Some("x86_64-unknown-linux-gnu".to_string()));
}

#[test]
fn paths_are_kept() {
    let mut cfg = TestGenerator::new();
    cfg.include_path(PathBuf::from("out/include"))
        .include_path(PathBuf::from("more"))
        .out_dir(PathBuf::from("first"))
        .out_dir(PathBuf::from("path/to/output"));
    assert_eq!(cfg.includes, vec![PathBuf::from("out/include"), PathBuf::from("more")]);
    assert_eq!(cfg.out_dir, Some(PathBuf::from("path/to/output")));
}

#[test]
fn flags_and_defines() {
    let mut cfg = TestGenerator::new();
    cfg.flag("-Wno-type-limits")
        .define("_GNU_SOURCE", None)
        .define("_WIN32_WINNT", Some("0x8000"));
    assert_eq!(cfg.flags, vec!["-Wno-type-limits".to_string()]);
    assert_eq!(
        cfg.defines,
        vec![
            ("_GNU_SOURCE".to_string(), None),
            ("_WIN32_WINNT".to_string(), Some("0x8000".to_string())),
        ]
    );
}

#[test]
fn settings_can_be_made_in_either_order() {
    let mut a = TestGenerator::new();
    a.header("a.h").flag("-x").verbose_skip(true);
    let mut b = TestGenerator::new();
    b.verbose_skip(true).flag("-x").header("a.h");
    assert_eq!(a.headers, b.headers);
    assert_eq!(a.flags, b.flags);
    assert_eq!(a.verbose_skip, b.verbose_skip);
}

#[test]
fn verbose_skip_can_be_taken_back() {
    let mut cfg = TestGenerator::new();
    cfg.verbose_skip(true);
    assert!(cfg.verbose_skip);
    cfg.verbose_skip(false);
    assert!(!cfg.verbose_skip);
}

#[test]
fn volatile_rules_keep_to_their_kind() {
    let mut cfg = TestGenerator::new();
    cfg.volatile_field(|s, f| s.ident() == "foo_t" && f.ident() == "inner_t")
        .volatile_static(|s| s.ident() == "foo_t")
        .volatile_fn_arg(|f, _p| f.ident() == "size_of_T")
        .volatile_fn_return_type(|f| f.ident() == "size_of_T");
    let items = || {
        vec![
            VolatileItemKind::StructField(
                Struct { ident: "foo_t".to_string() },
                Field { ident: "inner_t".to_string() },
            ),
            VolatileItemKind::Static(Static { ident: "foo_t".to_string() }),
            VolatileItemKind::FnArgument(func("size_of_T"), Box::new(param("x"))),
            VolatileItemKind::FnReturnType(func("size_of_T")),
        ]
    };
    assert_eq!(cfg.volatile_items.len(), 4);
    for rule in 0..4 {
        for (kind, item) in items().into_iter().enumerate() {
            assert_eq!(cfg.volatile_items[rule].applies(item), rule == kind);
        }
    }
    let other = VolatileItemKind::FnReturnType(func("other"));
    assert!(!cfg.volatile_items[3].applies(other));
}

#[test]
fn the_last_array_rule_counts() {
    let mut cfg = TestGenerator::new();
    cfg.array_arg(|_, _| true).array_arg(|f, arg| {
        match (f.ident(), arg.ident()) {
            ("foo", "bar") => true,
            _ => false,
        }
    });
    let rule = cfg.array_arg.unwrap();
    assert!(rule.applies(func("foo"), param("bar")));
    assert!(!rule.applies(func("foo"), param("baz")));
}
