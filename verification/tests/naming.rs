use ctest_next::{Const, Field, Fn, MapInput, Static, Struct, TestGenerator, Type};

fn struct_(ident: &str) -> Struct {
    Struct { ident: ident.to_string() }
}

#[test]
fn default_names() {
    let cfg = TestGenerator::new();
    let s = struct_("s_t");
    let c = Const { ident: "C".to_string() };
    let f = Fn { ident: "f".to_string() };
    let st = Static { ident: "g".to_string() };
    let t = Type { ident: "alias_t".to_string() };
    let field = Field { ident: "len".to_string() };
    assert_eq!(cfg.map(MapInput::Struct(&s)).unwrap(), "s_t");
    assert_eq!(cfg.map(MapInput::Const(&c)).unwrap(), "C");
    assert_eq!(cfg.map(MapInput::Fn(&f)).unwrap(), "f");
    assert_eq!(cfg.map(MapInput::Static(&st)).unwrap(), "g");
    assert_eq!(cfg.map(MapInput::Alias(&t)).unwrap(), "alias_t");
    assert_eq!(cfg.map(MapInput::Field(&s, &field)).unwrap(), "len");
    assert_eq!(cfg.map(MapInput::StructType("timeval")).unwrap(), "struct timeval");
    assert_eq!(cfg.map(MapInput::UnionType("T1Union")).unwrap(), "union T1Union");
    assert_eq!(cfg.map(MapInput::Type("c_int")).unwrap(), "c_int");
}

#[test]
fn rename_field_replaces_part_of_the_name() {
    let mut cfg = TestGenerator::new();
    cfg.rename_field(|_s, field| Some(field.ident().replace("foo", "bar")));
    let s = struct_("foo_t");
    let field = Field { ident: "foo_len".to_string() };
    assert_eq!(cfg.map(MapInput::Field(&s, &field)).unwrap(), "bar_len");
    assert_eq!(cfg.map(MapInput::Struct(&s)).unwrap(), "foo_t");
}

#[test]
fn rename_fn_appends_a_suffix() {
    let mut cfg = TestGenerator::new();
    cfg.rename_fn(|f| Some(format!("{}_c", f.ident())));
    let f = Fn { ident: "size_of_T".to_string() };
    assert_eq!(cfg.map(MapInput::Fn(&f)).unwrap(), "size_of_T_c");
    assert_eq!(cfg.map(MapInput::Type("size_of_T")).unwrap(), "size_of_T");
}

#[test]
fn rename_type_appends_a_suffix() {
    let mut cfg = TestGenerator::new();
    cfg.rename_type(|ty| Some(format!("{}_t", ty)));
    assert_eq!(cfg.map(MapInput::Type("size")).unwrap(), "size_t");
    assert_eq!(cfg.map(MapInput::StructType("size")).unwrap(), "struct size");
    assert_eq!(cfg.map(MapInput::UnionType("size")).unwrap(), "union size");
}

#[test]
fn rename_struct_ty_only_where_it_answers() {
    let mut cfg = TestGenerator::new();
    cfg.rename_struct_ty(|ty| if ty == "timeval" { Some(format!("{ty}_t")) } else { None });
    assert_eq!(cfg.map(MapInput::StructType("timeval")).unwrap(), "timeval_t");
    assert_eq!(cfg.map(MapInput::StructType("timespec")).unwrap(), "struct timespec");
    assert_eq!(cfg.map(MapInput::UnionType("timeval")).unwrap(), "union timeval");
}

#[test]
fn rename_union_ty_only_where_it_answers() {
    let mut cfg = TestGenerator::new();
    cfg.rename_union_ty(|ty| if ty == "T1Union" { Some(format!("__{ty}")) } else { None });
    assert_eq!(cfg.map(MapInput::UnionType("T1Union")).unwrap(), "__T1Union");
    assert_eq!(cfg.map(MapInput::UnionType("T2Union")).unwrap(), "union T2Union");
    assert_eq!(cfg.map(MapInput::StructType("T1Union")).unwrap(), "struct T1Union");
}

#[test]
fn rename_constant_keeps_to_constants() {
    let mut cfg = TestGenerator::new();
    cfg.rename_constant(|c| Some(c.ident().to_lowercase()));
    let c = Const { ident: "FOO".to_string() };
    let g = Static { ident: "FOO".to_string() };
    assert_eq!(cfg.map(MapInput::Const(&c)).unwrap(), "foo");
    assert_eq!(cfg.map(MapInput::Static(&g)).unwrap(), "FOO");
}

#[test]
fn the_earlier_answer_wins() {
    let mut cfg = TestGenerator::new();
    cfg.rename_type(|ty| if ty == "a" { Some("first".to_string()) } else { None })
        .rename_fn(|_| Some("function".to_string()))
        .rename_type(|_| Some("second".to_string()))
        .rename_type(|_| Some("third".to_string()));
    assert_eq!(cfg.map(MapInput::Type("a")).unwrap(), "first");
    assert_eq!(cfg.map(MapInput::Type("b")).unwrap(), "second");
}

#[test]
fn names_stay_the_same_when_asked_again() {
    let mut cfg = TestGenerator::new();
    cfg.rename_type(|ty| Some(format!("{ty}_t")));
    let first = cfg.map(MapInput::Type("off")).unwrap();
    assert_eq!(first, "off_t");
    assert_eq!(cfg.map(MapInput::Type("off")).unwrap(), first);
}
