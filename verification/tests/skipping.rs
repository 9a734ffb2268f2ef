use ctest_next::skipping::{is_skipped, report_line};
use ctest_next::{
    Const, FfiItems, Field, Fn, ItemKind, MapInput, Static, Struct, TestGenerator, Type,
};
use std::cell::RefCell;
use std::rc::Rc;

fn found() -> FfiItems {
    let mut items = FfiItems::new();
    for name in ["foo_a", "bar", "foo_b", "baz"] {
        items.aliases.push(Type { ident: name.to_string() });
        items.constants.push(Const { ident: name.to_uppercase() });
        items.structs.push(Struct { ident: name.to_string() });
        items.foreign_functions.push(Fn { ident: name.to_string() });
        items.foreign_statics.push(Static { ident: name.to_string() });
    }
    items
}

/// Filters every kind of item, and gives all lines.
fn filter(cfg: &TestGenerator, items: &mut FfiItems) -> Vec<String> {
    let mut lines = cfg.filter_ffi_items(ItemKind::Alias, items);
    let mut kind = ItemKind::Alias;
    while let Some(next) = kind.next() {
        lines.extend(cfg.filter_ffi_items(next, items));
        kind = next;
    }
    lines
}

fn all_rules(verbose: bool) -> TestGenerator {
    let mut cfg = TestGenerator::new();
    cfg.skip_struct(|s| s.ident().starts_with("foo_"))
        .skip_alias(|a| a.ident() == "bar")
        .skip_const(|c| c.ident().starts_with("FOO_"))
        .skip_static(|s| s.ident() == "baz")
        .skip_fn(|f| f.ident().starts_with("ba"))
        .verbose_skip(verbose);
    cfg
}

#[test]
fn skipped_items_leave_and_the_rest_keeps_its_order() {
    let mut items = found();
    let lines = filter(&all_rules(true), &mut items);
    let mut expected = FfiItems::new();
    for name in ["foo_a", "foo_b", "baz"] {
        expected.aliases.push(Type { ident: name.to_string() });
    }
    for name in ["BAR", "BAZ"] {
        expected.constants.push(Const { ident: name.to_string() });
    }
    for name in ["bar", "baz"] {
        expected.structs.push(Struct { ident: name.to_string() });
    }
    for name in ["foo_a", "foo_b"] {
        expected.foreign_functions.push(Fn { ident: name.to_string() });
    }
    for name in ["foo_a", "bar", "foo_b"] {
        expected.foreign_statics.push(Static { ident: name.to_string() });
    }
    assert_eq!(items, expected);
    assert_eq!(
        lines,
        vec![
            "Skipping alias \"bar\"".to_string(),
            "Skipping const \"FOO_A\"".to_string(),
            "Skipping const \"FOO_B\"".to_string(),
            "Skipping struct \"foo_a\"".to_string(),
            "Skipping struct \"foo_b\"".to_string(),
            "Skipping fn \"bar\"".to_string(),
            "Skipping fn \"baz\"".to_string(),
            "Skipping static \"baz\"".to_string(),
        ]
    );
}

#[test]
fn reporting_does_not_decide() {
    let mut loud = found();
    let mut quiet = found();
    assert_eq!(filter(&all_rules(true), &mut loud).len(), 8);
    assert!(filter(&all_rules(false), &mut quiet).is_empty());
    assert_eq!(loud, quiet);
}

#[test]
fn nothing_is_skipped_without_rules() {
    let mut items = found();
    let mut cfg = TestGenerator::new();
    cfg.verbose_skip(true);
    assert!(filter(&cfg, &mut items).is_empty());
    assert_eq!(items, found());
}

#[test]
fn field_rules_take_no_item_out() {
    let mut items = found();
    let mut cfg = TestGenerator::new();
    cfg.skip_field(|_, _| true).verbose_skip(true);
    assert!(filter(&cfg, &mut items).is_empty());
    assert_eq!(items, found());
}

#[test]
fn field_rule_answers_for_fields() {
    let mut cfg = TestGenerator::new();
    cfg.skip_field(|s, f| s.ident() == "foo_t" || (s.ident() == "bar_t" && f.ident() == "bar"));
    let foo = Struct { ident: "foo_t".to_string() };
    let bar = Struct { ident: "bar_t".to_string() };
    let field = Field { ident: "bar".to_string() };
    let other = Field { ident: "other".to_string() };
    assert!(is_skipped(&cfg.skips, &MapInput::Field(&foo, &other)));
    assert!(is_skipped(&cfg.skips, &MapInput::Field(&bar, &field)));
    assert!(!is_skipped(&cfg.skips, &MapInput::Field(&bar, &other)));
    assert!(!is_skipped(&cfg.skips, &MapInput::Struct(&foo)));
}

#[test]
fn filtering_twice_is_filtering_once() {
    let cfg = all_rules(true);
    let mut items = found();
    filter(&cfg, &mut items);
    let once = items.clone();
    assert!(filter(&cfg, &mut items).is_empty());
    assert_eq!(items, once);
}

#[test]
fn the_order_of_rules_does_not_matter() {
    let mut a = TestGenerator::new();
    a.skip_struct(|s| s.ident() == "bar").skip_struct(|s| s.ident() == "baz");
    let mut b = TestGenerator::new();
    b.skip_struct(|s| s.ident() == "baz").skip_struct(|s| s.ident() == "bar");
    let mut first = found();
    let mut second = found();
    filter(&a, &mut first);
    filter(&b, &mut second);
    assert_eq!(first, second);
    assert_eq!(first.structs.len(), 2);
    assert_eq!(first.aliases.len(), 4);
}

#[test]
fn a_further_rule_brings_nothing_back() {
    let mut cfg = TestGenerator::new();
    cfg.skip_fn(|_| true).skip_fn(|_| false).skip_alias(|_| false);
    let f = Fn { ident: "f".to_string() };
    assert!(is_skipped(&cfg.skips, &MapInput::Fn(&f)));
    assert!(!is_skipped(&cfg.skips, &MapInput::Type("f")));
}

#[test]
fn report_lines_quote_the_name() {
    assert_eq!(report_line("struct", "stat"), "Skipping struct \"stat\"");
}

#[test]
fn no_item_is_lost() {
    let mut items = found();
    let lines = filter(&all_rules(true), &mut items);
    let kept = items.aliases.len()
        + items.constants.len()
        + items.structs.len()
        + items.foreign_functions.len()
        + items.foreign_statics.len();
    assert_eq!(kept, 12);
    assert_eq!(kept + lines.len(), 20);
}

#[test]
fn one_kind_is_filtered_at_a_time() {
    let cfg = all_rules(true);
    let mut items = found();
    let lines = cfg.filter_ffi_items(ItemKind::Struct, &mut items);
    assert_eq!(
        lines,
        vec!["Skipping struct \"foo_a\"".to_string(), "Skipping struct \"foo_b\"".to_string()]
    );
    let mut expected = found();
    expected.structs.retain(|s| !s.ident().starts_with("foo_"));
    assert_eq!(items, expected);
}

#[test]
fn rules_are_asked_about_one_kind_after_the_other() {
    let asked = Rc::new(RefCell::new(Vec::new()));
    let mut cfg = TestGenerator::new();
    let log = asked.clone();
    cfg.skip_alias(move |a| {
        log.borrow_mut().push(a.ident().to_string());
        a.ident() == "bar"
    });
    let log = asked.clone();
    cfg.skip_const(move |c| {
        log.borrow_mut().push(c.ident().to_string());
        false
    });
    cfg.verbose_skip(true);
    let mut items = found();
    assert_eq!(
        cfg.filter_ffi_items(ItemKind::Alias, &mut items),
        vec!["Skipping alias \"bar\"".to_string()]
    );
    assert_eq!(*asked.borrow(), vec!["foo_a", "bar", "foo_b", "baz"]);
    asked.borrow_mut().clear();
    assert!(cfg.filter_ffi_items(ItemKind::Const, &mut items).is_empty());
    assert_eq!(*asked.borrow(), vec!["FOO_A", "BAR", "FOO_B", "BAZ"]);
}

#[test]
fn skips_field_asks_the_field_rules() {
    let mut cfg = TestGenerator::new();
    cfg.skip_struct(|_| true)
        .skip_field(|s, f| s.ident() == "bar_t" && f.ident() == "bar");
    let s = Struct { ident: "bar_t".to_string() };
    assert!(cfg.skips_field(&s, &Field { ident: "bar".to_string() }));
    assert!(!cfg.skips_field(&s, &Field { ident: "baz".to_string() }));
}

#[test]
fn more_rules_keep_fewer_items() {
    let mut items = found();
    let mut fewer = found();
    let mut cfg = TestGenerator::new();
    cfg.skip_struct(|s| s.ident() == "bar");
    filter(&cfg, &mut items);
    cfg.skip_struct(|s| s.ident().starts_with("foo_")).skip_struct(|_| false);
    filter(&cfg, &mut fewer);
    let names: Vec<&str> = items.structs.iter().map(|s| s.ident()).collect();
    assert_eq!(names, vec!["foo_a", "foo_b", "baz"]);
    let names: Vec<&str> = fewer.structs.iter().map(|s| s.ident()).collect();
    assert_eq!(names, vec!["baz"]);
}
