//! What holds of rules: whom they ask, and how a list of them comes to an answer.
use crate::generator::{kind_outcome, kind_ready, GeneratorModel};
use crate::items::{
    Const, FfiItem, FfiItemsModel, Field, ItemKind, MapInput, Parameter, Static, Struct, Type,
    VolatileItemKind,
};
use crate::laws::{picks, selection_keeps_order};
use crate::naming::{name_answer, name_ready, rename_answer, unnamed_before};
use crate::rules::{
    alias_skip, arg_array, const_rename, const_skip, field_rename, field_skip, field_volatile,
    fn_arg_volatile, fn_rename, fn_return_volatile, fn_skip, static_skip, static_volatile,
    struct_skip, struct_type_rename, type_rename, union_type_rename, RenameModel, SkipModel,
};
use crate::skipping::{list_outcome, select, skip_answer, skip_ready, spared_before};
use vstd::prelude::*;

verus! {

/// On its own kind of item, a skip rule can be asked exactly where the caller's function can be
/// called, and answers exactly what the caller's function answers.
pub proof fn skip_rules_answer_for_the_caller<
    A: Fn(&Struct) -> bool,
    B: Fn(&Struct, &Field) -> bool,
    C: Fn(&Type) -> bool,
    D: Fn(&Const) -> bool,
    E: Fn(&Static) -> bool,
    G: Fn(&crate::items::Fn) -> bool,
>(
    a: A,
    b: B,
    c: C,
    d: D,
    e: E,
    g: G,
    struct_: &'static Struct,
    field: &'static Field,
    alias: &'static Type,
    constant: &'static Const,
    static_: &'static Static,
    func: &'static crate::items::Fn,
    r: bool,
)
    ensures
        struct_skip(a).may_return(MapInput::Struct(struct_), r) <==> call_ensures(a, (struct_,), r),
        field_skip(b).may_return(MapInput::Field(struct_, field), r) <==> call_ensures(
            b,
            (struct_, field),
            r,
        ),
        alias_skip(c).may_return(MapInput::Alias(alias), r) <==> call_ensures(c, (alias,), r),
        const_skip(d).may_return(MapInput::Const(constant), r) <==> call_ensures(
            d,
            (constant,),
            r,
        ),
        static_skip(e).may_return(MapInput::Static(static_), r) <==> call_ensures(
            e,
            (static_,),
            r,
        ),
        fn_skip(g).may_return(MapInput::Fn(func), r) <==> call_ensures(g, (func,), r),
        struct_skip(a).takes(MapInput::Struct(struct_)) <==> call_requires(a, (struct_,)),
        field_skip(b).takes(MapInput::Field(struct_, field)) <==> call_requires(
            b,
            (struct_, field),
        ),
        alias_skip(c).takes(MapInput::Alias(alias)) <==> call_requires(c, (alias,)),
        const_skip(d).takes(MapInput::Const(constant)) <==> call_requires(d, (constant,)),
        static_skip(e).takes(MapInput::Static(static_)) <==> call_requires(e, (static_,)),
        fn_skip(g).takes(MapInput::Fn(func)) <==> call_requires(g, (func,)),
{
}

/// A skip rule can be asked about every item that is not of its kind.
pub proof fn skip_rules_take_other_kinds<
    A: Fn(&Struct) -> bool,
    B: Fn(&Struct, &Field) -> bool,
    C: Fn(&Type) -> bool,
    D: Fn(&Const) -> bool,
    E: Fn(&Static) -> bool,
    G: Fn(&crate::items::Fn) -> bool,
>(a: A, b: B, c: C, d: D, e: E, g: G, item: MapInput<'static>)
    ensures
        !(item is Struct) ==> struct_skip(a).takes(item),
        !(item is Field) ==> field_skip(b).takes(item),
        !(item is Alias) ==> alias_skip(c).takes(item),
        !(item is Const) ==> const_skip(d).takes(item),
        !(item is Static) ==> static_skip(e).takes(item),
        !(item is Fn) ==> fn_skip(g).takes(item),
{
}

/// On its own kind of item, a rename rule can be asked exactly where the caller's function can be
/// called, and answers exactly what the caller's function answers, `None` among it.
pub proof fn rename_rules_answer_for_the_caller<
    A: Fn(&Const) -> Option<String>,
    B: Fn(&Struct, &Field) -> Option<String>,
    C: Fn(&crate::items::Fn) -> Option<String>,
    D: Fn(&str) -> Option<String>,
>(
    a: A,
    b: B,
    c: C,
    d: D,
    constant: &'static Const,
    struct_: &'static Struct,
    field: &'static Field,
    func: &'static crate::items::Fn,
    ty: &'static str,
    r: Option<String>,
)
    ensures
        const_rename(a).may_return(MapInput::Const(constant), r) <==> call_ensures(
            a,
            (constant,),
            r,
        ),
        field_rename(b).may_return(MapInput::Field(struct_, field), r) <==> call_ensures(
            b,
            (struct_, field),
            r,
        ),
        fn_rename(c).may_return(MapInput::Fn(func), r) <==> call_ensures(c, (func,), r),
        type_rename(d).may_return(MapInput::Type(ty), r) <==> call_ensures(d, (ty,), r),
        struct_type_rename(d).may_return(MapInput::StructType(ty), r) <==> call_ensures(
            d,
            (ty,),
            r,
        ),
        union_type_rename(d).may_return(MapInput::UnionType(ty), r) <==> call_ensures(
            d,
            (ty,),
            r,
        ),
        const_rename(a).takes(MapInput::Const(constant)) <==> call_requires(a, (constant,)),
        field_rename(b).takes(MapInput::Field(struct_, field)) <==> call_requires(
            b,
            (struct_, field),
        ),
        fn_rename(c).takes(MapInput::Fn(func)) <==> call_requires(c, (func,)),
        type_rename(d).takes(MapInput::Type(ty)) <==> call_requires(d, (ty,)),
        struct_type_rename(d).takes(MapInput::StructType(ty)) <==> call_requires(d, (ty,)),
        union_type_rename(d).takes(MapInput::UnionType(ty)) <==> call_requires(d, (ty,)),
{
}

/// A rename rule can be asked about every item that is not of its kind.
pub proof fn rename_rules_take_other_kinds<
    A: Fn(&Const) -> Option<String>,
    B: Fn(&Struct, &Field) -> Option<String>,
    C: Fn(&crate::items::Fn) -> Option<String>,
    D: Fn(&str) -> Option<String>,
>(a: A, b: B, c: C, d: D, item: MapInput<'static>)
    ensures
        !(item is Const) ==> const_rename(a).takes(item),
        !(item is Field) ==> field_rename(b).takes(item),
        !(item is Fn) ==> fn_rename(c).takes(item),
        !(item is Type) ==> type_rename(d).takes(item),
        !(item is StructType) ==> struct_type_rename(d).takes(item),
        !(item is UnionType) ==> union_type_rename(d).takes(item),
{
}

/// On its own kind of item, a volatility rule can be asked exactly where the caller's function can
/// be called, and answers exactly what the caller's function answers; it can be asked about
/// everything else.
pub proof fn volatile_rules_answer_for_the_caller<
    A: Fn(Struct, Field) -> bool,
    B: Fn(Static) -> bool,
    C: Fn(crate::items::Fn, Box<Parameter>) -> bool,
    D: Fn(crate::items::Fn) -> bool,
>(
    a: A,
    b: B,
    c: C,
    d: D,
    struct_: Struct,
    field: Field,
    static_: Static,
    func: crate::items::Fn,
    param: Box<Parameter>,
    item: VolatileItemKind,
    r: bool,
)
    ensures
        field_volatile(a).may_return(VolatileItemKind::StructField(struct_, field), r)
            <==> call_ensures(a, (struct_, field), r),
        static_volatile(b).may_return(VolatileItemKind::Static(static_), r) <==> call_ensures(
            b,
            (static_,),
            r,
        ),
        fn_arg_volatile(c).may_return(VolatileItemKind::FnArgument(func, param), r)
            <==> call_ensures(c, (func, param), r),
        fn_return_volatile(d).may_return(VolatileItemKind::FnReturnType(func), r) <==> call_ensures(
            d,
            (func,),
            r,
        ),
        field_volatile(a).takes(VolatileItemKind::StructField(struct_, field)) <==> call_requires(
            a,
            (struct_, field),
        ),
        static_volatile(b).takes(VolatileItemKind::Static(static_)) <==> call_requires(
            b,
            (static_,),
        ),
        fn_arg_volatile(c).takes(VolatileItemKind::FnArgument(func, param)) <==> call_requires(
            c,
            (func, param),
        ),
        fn_return_volatile(d).takes(VolatileItemKind::FnReturnType(func)) <==> call_requires(
            d,
            (func,),
        ),
        !(item is StructField) ==> field_volatile(a).takes(item),
        !(item is Static) ==> static_volatile(b).takes(item),
        !(item is FnArgument) ==> fn_arg_volatile(c).takes(item),
        !(item is FnReturnType) ==> fn_return_volatile(d).takes(item),
{
}

/// The array rule can be asked about an argument exactly where the caller's function can be
/// called, and answers exactly what the caller's function answers.
pub proof fn array_rule_answers_for_the_caller<F: Fn(crate::items::Fn, Parameter) -> bool>(
    f: F,
    func: crate::items::Fn,
    arg: Parameter,
    r: bool,
)
    ensures
        arg_array(f).may_return((func, arg), r) <==> call_ensures(f, (func, arg), r),
        arg_array(f).takes((func, arg)) <==> call_requires(f, (func, arg)),
{
}

/// The first rule names the item, or it says `None` and the others decide. Without rules there is
/// no name. This alone determines what any list of rules answers.
pub proof fn first_rule_names_or_passes_on(
    rule: RenameModel,
    rest: Seq<RenameModel>,
    item: MapInput<'static>,
    name: Option<String>,
)
    ensures
        rename_answer(seq![rule] + rest, item, name) <==> (name is Some && rule.may_return(
            item,
            name,
        )) || (rule.may_return(item, None) && rename_answer(rest, item, name)),
        rename_answer(Seq::empty(), item, name) <==> name is None,
{
    let all = seq![rule] + rest;
    assert(all[0] == rule);
    unnamed_by_first_and_rest(rule, rest, item);
    if name is Some {
        if rename_answer(all, item, name) {
            let i = choose|i: int|
                0 <= i < all.len() && (#[trigger] all[i]).may_return(item, name)
                    && unnamed_before(all, item, i);
            if i > 0 {
                assert(all[i] == rest[i - 1]);
                assert(unnamed_before(rest, item, i - 1));
            }
        }
        if rule.may_return(item, name) {
            assert(unnamed_before(all, item, 0));
        }
        if rule.may_return(item, None) && rename_answer(rest, item, name) {
            let i = choose|i: int|
                0 <= i < rest.len() && (#[trigger] rest[i]).may_return(item, name)
                    && unnamed_before(rest, item, i);
            assert(all[i + 1] == rest[i]);
            assert(unnamed_before(all, item, i + 1));
        }
    } else {
        assert(all.len() == rest.len() + 1);
        assert(unnamed_before(rest, item, rest.len() as int) <==> rename_answer(rest, item, None));
    }
}

proof fn unnamed_by_first_and_rest(
    rule: RenameModel,
    rest: Seq<RenameModel>,
    item: MapInput<'static>,
)
    ensures
        forall|n: int|
            0 <= n <= rest.len() ==> (unnamed_before(seq![rule] + rest, item, n + 1) <==> (
            rule.may_return(item, None) && #[trigger] unnamed_before(rest, item, n))),
{
    let all = seq![rule] + rest;
    assert(all[0] == rule);
    assert forall|n: int| 0 <= n <= rest.len() implies (unnamed_before(all, item, n + 1) <==> (
    rule.may_return(item, None) && #[trigger] unnamed_before(rest, item, n))) by {
        if unnamed_before(all, item, n + 1) {
            assert(all[0].may_return(item, None));
            assert forall|i: int| 0 <= i < n implies (#[trigger] rest[i]).may_return(item, None) by {
                assert(all[i + 1] == rest[i]);
            }
        }
        if rule.may_return(item, None) && unnamed_before(rest, item, n) {
            assert forall|i: int| 0 <= i < n + 1 implies (#[trigger] all[i]).may_return(
                item,
                None,
            ) by {
                if i > 0 {
                    assert(all[i] == rest[i - 1]);
                }
            }
        }
    }
}

/// A name is what the first rule gives, or else what the other rules come to.
pub proof fn name_is_the_first_answer(
    rule: RenameModel,
    rest: Seq<RenameModel>,
    item: MapInput<'static>,
    name: String,
)
    ensures
        name_answer(seq![rule] + rest, item, name) <==> rule.may_return(item, Some(name)) || (
        rule.may_return(item, None) && name_answer(rest, item, name)),
{
    first_rule_names_or_passes_on(rule, rest, item, Some(name));
    first_rule_names_or_passes_on(rule, rest, item, None);
}

/// Without rules an item is called by its own name. Only the name of a struct or union type gets
/// the keyword of C and a space before it.
pub proof fn own_name_without_rules(
    constant: &'static Const,
    func: &'static crate::items::Fn,
    static_: &'static Static,
    struct_: &'static Struct,
    alias: &'static Type,
    field: &'static Field,
    ty: &'static str,
    name: String,
)
    ensures
        name_answer(Seq::empty(), MapInput::Const(constant), name) <==> name@ == constant.ident@,
        name_answer(Seq::empty(), MapInput::Fn(func), name) <==> name@ == func.ident@,
        name_answer(Seq::empty(), MapInput::Static(static_), name) <==> name@ == static_.ident@,
        name_answer(Seq::empty(), MapInput::Struct(struct_), name) <==> name@ == struct_.ident@,
        name_answer(Seq::empty(), MapInput::Alias(alias), name) <==> name@ == alias.ident@,
        name_answer(Seq::empty(), MapInput::Field(struct_, field), name) <==> name@
            == field.ident@,
        name_answer(Seq::empty(), MapInput::Type(ty), name) <==> name@ == ty@,
        name_answer(Seq::empty(), MapInput::StructType(ty), name) <==> name@ == seq![
            's',
            't',
            'r',
            'u',
            'c',
            't',
            ' ',
        ] + ty@,
        name_answer(Seq::empty(), MapInput::UnionType(ty), name) <==> name@ == seq![
            'u',
            'n',
            'i',
            'o',
            'n',
            ' ',
        ] + ty@,
{
    reveal_strlit("struct ");
    reveal_strlit("union ");
    assert("struct "@ =~= seq!['s', 't', 'r', 'u', 'c', 't', ' ']);
    assert("union "@ =~= seq!['u', 'n', 'i', 'o', 'n', ' ']);
    assert forall|item: MapInput<'static>| #[trigger]
        rename_answer(Seq::empty(), item, None) && !rename_answer(
            Seq::empty(),
            item,
            Some(name),
        ) by {}
}

/// With one rule, given for constants, a constant is called what the caller's function says, or by
/// its own name where that function has no answer; and the like for the other kinds.
pub proof fn sole_rule_names_its_kind<
    A: Fn(&Const) -> Option<String>,
    B: Fn(&Struct, &Field) -> Option<String>,
    C: Fn(&crate::items::Fn) -> Option<String>,
    D: Fn(&str) -> Option<String>,
>(
    a: A,
    b: B,
    c: C,
    d: D,
    constant: &'static Const,
    struct_: &'static Struct,
    field: &'static Field,
    func: &'static crate::items::Fn,
    ty: &'static str,
    name: String,
)
    ensures
        name_answer(seq![const_rename(a)], MapInput::Const(constant), name) <==> call_ensures(
            a,
            (constant,),
            Some(name),
        ) || (call_ensures(a, (constant,), None) && name@ == constant.ident@),
        name_answer(seq![field_rename(b)], MapInput::Field(struct_, field), name) <==> call_ensures(
            b,
            (struct_, field),
            Some(name),
        ) || (call_ensures(b, (struct_, field), None) && name@ == field.ident@),
        name_answer(seq![fn_rename(c)], MapInput::Fn(func), name) <==> call_ensures(
            c,
            (func,),
            Some(name),
        ) || (call_ensures(c, (func,), None) && name@ == func.ident@),
        name_answer(seq![type_rename(d)], MapInput::Type(ty), name) <==> call_ensures(
            d,
            (ty,),
            Some(name),
        ) || (call_ensures(d, (ty,), None) && name@ == ty@),
        name_answer(seq![struct_type_rename(d)], MapInput::StructType(ty), name)
            <==> call_ensures(d, (ty,), Some(name)) || (call_ensures(d, (ty,), None) && name@
            == "struct "@ + ty@),
        name_answer(seq![union_type_rename(d)], MapInput::UnionType(ty), name) <==> call_ensures(
            d,
            (ty,),
            Some(name),
        ) || (call_ensures(d, (ty,), None) && name@ == "union "@ + ty@),
{
    let none = Seq::<RenameModel>::empty();
    sole_rule(const_rename(a), MapInput::Const(constant), name);
    sole_rule(field_rename(b), MapInput::Field(struct_, field), name);
    sole_rule(fn_rename(c), MapInput::Fn(func), name);
    sole_rule(type_rename(d), MapInput::Type(ty), name);
    sole_rule(struct_type_rename(d), MapInput::StructType(ty), name);
    sole_rule(union_type_rename(d), MapInput::UnionType(ty), name);
    assert forall|item: MapInput<'static>| #[trigger]
        rename_answer(none, item, None) && !rename_answer(none, item, Some(name)) by {}
}

proof fn sole_rule(rule: RenameModel, item: MapInput<'static>, name: String)
    ensures
        name_answer(seq![rule], item, name) <==> rule.may_return(item, Some(name)) || (
        rule.may_return(item, None) && name_answer(Seq::empty(), item, name)),
{
    name_is_the_first_answer(rule, Seq::empty(), item, name);
    assert(seq![rule] + Seq::<RenameModel>::empty() == seq![rule]);
}

/// Names can be asked for where the first rule can be asked, and the others too if it may say
/// `None`.
pub proof fn names_can_be_asked_for(
    rule: RenameModel,
    rest: Seq<RenameModel>,
    item: MapInput<'static>,
)
    ensures
        name_ready(seq![rule] + rest, item) <==> rule.takes(item) && (rule.may_return(item, None)
            ==> name_ready(rest, item)),
        name_ready(Seq::empty(), item),
{
    let all = seq![rule] + rest;
    assert(all[0] == rule);
    unnamed_by_first_and_rest(rule, rest, item);
    if name_ready(all, item) {
        assert(unnamed_before(all, item, 0));
        assert(all[0].takes(item));
        if rule.may_return(item, None) {
            assert forall|i: int| 0 <= i < rest.len() && unnamed_before(rest, item, i) implies (
            #[trigger] rest[i]).takes(item) by {
                assert(all[i + 1] == rest[i]);
                assert(unnamed_before(all, item, i + 1));
            }
        }
    }
    if rule.takes(item) && (rule.may_return(item, None) ==> name_ready(rest, item)) {
        assert forall|i: int| 0 <= i < all.len() && unnamed_before(all, item, i) implies (
        #[trigger] all[i]).takes(item) by {
            if i > 0 {
                assert(unnamed_before(rest, item, i - 1));
                assert(all[i] == rest[i - 1]);
            }
        }
    }
}

/// The first rule skips the item, or it spares the item and the others decide. Without rules
/// nothing is skipped. This alone determines what any list of rules answers.
pub proof fn first_rule_skips_or_passes_on(
    rule: SkipModel,
    rest: Seq<SkipModel>,
    item: MapInput<'static>,
    skipped: bool,
)
    ensures
        skip_answer(seq![rule] + rest, item, skipped) <==> (skipped && rule.may_return(
            item,
            true,
        )) || (rule.may_return(item, false) && skip_answer(rest, item, skipped)),
        skip_answer(Seq::empty(), item, skipped) <==> !skipped,
{
    let all = seq![rule] + rest;
    spared_by_first_and_rest(rule, rest, item);
    if skipped {
        if skip_answer(all, item, true) {
            let i = choose|i: int|
                0 <= i < all.len() && (#[trigger] all[i]).may_return(item, true) && spared_before(
                    all,
                    item,
                    i,
                );
            if i > 0 {
                assert(all[i] == rest[i - 1]);
                assert(spared_before(rest, item, i - 1));
            }
        }
        if rule.may_return(item, true) {
            assert(all[0] == rule);
            assert(spared_before(all, item, 0));
        }
        if rule.may_return(item, false) && skip_answer(rest, item, true) {
            let i = choose|i: int|
                0 <= i < rest.len() && (#[trigger] rest[i]).may_return(item, true)
                    && spared_before(rest, item, i);
            assert(all[i + 1] == rest[i]);
            assert(spared_before(all, item, i + 1));
        }
    } else {
        assert(all.len() == rest.len() + 1);
        assert(spared_before(rest, item, rest.len() as int) <==> skip_answer(rest, item, false));
    }
}

proof fn spared_by_first_and_rest(
    rule: SkipModel,
    rest: Seq<SkipModel>,
    item: MapInput<'static>,
)
    ensures
        forall|n: int|
            0 <= n <= rest.len() ==> (spared_before(seq![rule] + rest, item, n + 1) <==> (
            rule.may_return(item, false) && #[trigger] spared_before(rest, item, n))),
{
    let all = seq![rule] + rest;
    assert(all[0] == rule);
    assert forall|n: int| 0 <= n <= rest.len() implies (spared_before(all, item, n + 1) <==> (
    rule.may_return(item, false) && #[trigger] spared_before(rest, item, n))) by {
        if spared_before(all, item, n + 1) {
            assert(all[0].may_return(item, false));
            assert forall|i: int| 0 <= i < n implies (#[trigger] rest[i]).may_return(
                item,
                false,
            ) by {
                assert(all[i + 1] == rest[i]);
            }
        }
        if rule.may_return(item, false) && spared_before(rest, item, n) {
            assert forall|i: int| 0 <= i < n + 1 implies (#[trigger] all[i]).may_return(
                item,
                false,
            ) by {
                if i > 0 {
                    assert(all[i] == rest[i - 1]);
                }
            }
        }
    }
}

/// With one rule, given for structs, a struct is skipped exactly if the caller's function says so;
/// and the like for the other kinds.
pub proof fn sole_rule_skips_its_kind<
    A: Fn(&Struct) -> bool,
    B: Fn(&Struct, &Field) -> bool,
    C: Fn(&Type) -> bool,
    D: Fn(&Const) -> bool,
    E: Fn(&Static) -> bool,
    G: Fn(&crate::items::Fn) -> bool,
>(
    a: A,
    b: B,
    c: C,
    d: D,
    e: E,
    g: G,
    struct_: &'static Struct,
    field: &'static Field,
    alias: &'static Type,
    constant: &'static Const,
    static_: &'static Static,
    func: &'static crate::items::Fn,
    skipped: bool,
)
    ensures
        skip_answer(seq![struct_skip(a)], MapInput::Struct(struct_), skipped) <==> call_ensures(
            a,
            (struct_,),
            skipped,
        ),
        skip_answer(seq![field_skip(b)], MapInput::Field(struct_, field), skipped)
            <==> call_ensures(b, (struct_, field), skipped),
        skip_answer(seq![alias_skip(c)], MapInput::Alias(alias), skipped) <==> call_ensures(
            c,
            (alias,),
            skipped,
        ),
        skip_answer(seq![const_skip(d)], MapInput::Const(constant), skipped) <==> call_ensures(
            d,
            (constant,),
            skipped,
        ),
        skip_answer(seq![static_skip(e)], MapInput::Static(static_), skipped) <==> call_ensures(
            e,
            (static_,),
            skipped,
        ),
        skip_answer(seq![fn_skip(g)], MapInput::Fn(func), skipped) <==> call_ensures(
            g,
            (func,),
            skipped,
        ),
{
    sole_rule_decides(struct_skip(a), MapInput::Struct(struct_), skipped);
    sole_rule_decides(field_skip(b), MapInput::Field(struct_, field), skipped);
    sole_rule_decides(alias_skip(c), MapInput::Alias(alias), skipped);
    sole_rule_decides(const_skip(d), MapInput::Const(constant), skipped);
    sole_rule_decides(static_skip(e), MapInput::Static(static_), skipped);
    sole_rule_decides(fn_skip(g), MapInput::Fn(func), skipped);
}

proof fn sole_rule_decides(rule: SkipModel, item: MapInput<'static>, skipped: bool)
    ensures
        skip_answer(seq![rule], item, skipped) <==> rule.may_return(item, skipped),
{
    first_rule_skips_or_passes_on(rule, Seq::empty(), item, skipped);
    assert(seq![rule] + Seq::<SkipModel>::empty() == seq![rule]);
}

/// Skip rules can be asked where the first rule can be asked, and the others too if it may spare
/// the item.
pub proof fn skip_rules_can_be_asked(
    rule: SkipModel,
    rest: Seq<SkipModel>,
    item: MapInput<'static>,
)
    ensures
        skip_ready(seq![rule] + rest, item) <==> rule.takes(item) && (rule.may_return(item, false)
            ==> skip_ready(rest, item)),
        skip_ready(Seq::empty(), item),
{
    let all = seq![rule] + rest;
    assert(all[0] == rule);
    spared_by_first_and_rest(rule, rest, item);
    if skip_ready(all, item) {
        assert(spared_before(all, item, 0));
        assert(all[0].takes(item));
        if rule.may_return(item, false) {
            assert forall|i: int| 0 <= i < rest.len() && spared_before(rest, item, i) implies (
            #[trigger] rest[i]).takes(item) by {
                assert(all[i + 1] == rest[i]);
                assert(spared_before(all, item, i + 1));
            }
        }
    }
    if rule.takes(item) && (rule.may_return(item, false) ==> skip_ready(rest, item)) {
        assert forall|i: int| 0 <= i < all.len() && spared_before(all, item, i) implies (
        #[trigger] all[i]).takes(item) by {
            if i > 0 {
                assert(spared_before(rest, item, i - 1));
                assert(all[i] == rest[i - 1]);
            }
        }
    }
}

/// A listed item stands before the skip rules as what it is, and is reported by its own name.
pub proof fn items_stand_for_themselves(
    alias: &'static Type,
    constant: &'static Const,
    struct_: &'static Struct,
    func: &'static crate::items::Fn,
    static_: &'static Static,
)
    ensures
        alias.as_input() == MapInput::Alias(alias),
        constant.as_input() == MapInput::Const(constant),
        struct_.as_input() == MapInput::Struct(struct_),
        func.as_input() == MapInput::Fn(func),
        static_.as_input() == MapInput::Static(static_),
        alias.name() == alias.ident@,
        constant.name() == constant.ident@,
        struct_.name() == struct_.ident@,
        func.name() == func.ident@,
        static_.name() == static_.ident@,
{
}

/// Of `items`, those at the places `kept_at` are kept, and those at the places `skipped_at` are
/// skipped, each as the rules answer. Every place is in one of the two lists, which are in order.
/// If `verbose`, each skipped item has its line.
pub open spec fn splits_list<T: FfiItem>(
    rules: Seq<SkipModel>,
    items: Seq<T>,
    kept: Seq<T>,
    lines: Seq<Seq<char>>,
    word: Seq<char>,
    verbose: bool,
    kept_at: Seq<int>,
    skipped_at: Seq<int>,
) -> bool {
    &&& forall|i: int, j: int| 0 <= i < j < kept_at.len() ==> kept_at[i] < kept_at[j]
    &&& forall|i: int, j: int| 0 <= i < j < skipped_at.len() ==> skipped_at[i] < skipped_at[j]
    &&& forall|i: int|
        0 <= i < items.len() ==> (#[trigger] kept_at.contains(i) <==> !skipped_at.contains(i))
    &&& kept.len() == kept_at.len()
    &&& forall|k: int|
        0 <= k < kept_at.len() ==> {
            &&& 0 <= #[trigger] kept_at[k] < items.len()
            &&& kept[k] == items[kept_at[k]]
            &&& skip_answer(rules, items[kept_at[k]].as_input(), false)
        }
    &&& forall|k: int|
        0 <= k < skipped_at.len() ==> {
            &&& 0 <= #[trigger] skipped_at[k] < items.len()
            &&& skip_answer(rules, items[skipped_at[k]].as_input(), true)
        }
    &&& lines.len() == if verbose {
        skipped_at.len()
    } else {
        0
    }
    &&& forall|k: int|
        0 <= k < lines.len() ==> #[trigger] lines[k] == "Skipping "@ + word + " \""@
            + items[skipped_at[k]].name() + "\""@
}

proof fn list_is_split<T: FfiItem>(
    rules: Seq<SkipModel>,
    items: Seq<T>,
    marks: Seq<bool>,
    kept: Seq<T>,
    lines: Seq<Seq<char>>,
    word: Seq<char>,
    verbose: bool,
)
    requires
        list_outcome(rules, items, marks, kept, lines, word, verbose),
    ensures
        exists|kept_at: Seq<int>, skipped_at: Seq<int>| #[trigger]
            splits_list(rules, items, kept, lines, word, verbose, kept_at, skipped_at),
{
    selection_keeps_order(items, marks, false);
    selection_keeps_order(items, marks, true);
    let kept_at = choose|at: Seq<int>| #[trigger] picks(items, marks, false, at);
    let skipped_at = choose|at: Seq<int>| #[trigger] picks(items, marks, true, at);
    assert forall|i: int| 0 <= i < items.len() implies (#[trigger] kept_at.contains(i)
        <==> !skipped_at.contains(i)) by {
        if kept_at.contains(i) && skipped_at.contains(i) {
            let k = choose|k: int| 0 <= k < kept_at.len() && kept_at[k] == i;
            let l = choose|l: int| 0 <= l < skipped_at.len() && skipped_at[l] == i;
            assert(marks[kept_at[k]] == false);
            assert(marks[skipped_at[l]] == true);
        }
    }
    assert forall|k: int| 0 <= k < kept_at.len() implies skip_answer(
        rules,
        items[#[trigger] kept_at[k]].as_input(),
        false,
    ) by {
        assert(marks[kept_at[k]] == false);
        assert(skip_answer(rules, items[kept_at[k]].as_input(), marks[kept_at[k]]));
    }
    assert forall|k: int| 0 <= k < skipped_at.len() implies skip_answer(
        rules,
        items[#[trigger] skipped_at[k]].as_input(),
        true,
    ) by {
        assert(marks[skipped_at[k]] == true);
        assert(skip_answer(rules, items[skipped_at[k]].as_input(), marks[skipped_at[k]]));
    }
    assert forall|k: int| 0 <= k < lines.len() implies #[trigger] lines[k] == "Skipping "@ + word
        + " \""@ + items[skipped_at[k]].name() + "\""@ by {
        assert(select(items, marks, true)[k] == items[skipped_at[k]]);
    }
    assert(splits_list(rules, items, kept, lines, word, verbose, kept_at, skipped_at));
}

/// Filtering one kind of item splits its list: an item stays, at its turn, where the rules spare
/// it, and leaves where they skip it; who leaves is reported under the word for the kind, if
/// skips are to be reported at all. The lists of the other kinds stay as they are.
pub proof fn filtering_splits_one_list(
    generator: GeneratorModel,
    before: FfiItemsModel,
    kind: ItemKind,
    marks: Seq<bool>,
    after: FfiItemsModel,
    lines: Seq<Seq<char>>,
)
    requires
        kind_outcome(generator, before, kind, marks, after, lines),
    ensures
        !(kind is Alias) ==> after.aliases == before.aliases,
        !(kind is Const) ==> after.constants == before.constants,
        !(kind is Struct) ==> after.structs == before.structs,
        !(kind is Fn) ==> after.foreign_functions == before.foreign_functions,
        !(kind is Static) ==> after.foreign_statics == before.foreign_statics,
        kind is Alias ==> exists|kept_at: Seq<int>, skipped_at: Seq<int>| #[trigger]
            splits_list(
                generator.skips,
                before.aliases,
                after.aliases,
                lines,
                "alias"@,
                generator.verbose_skip,
                kept_at,
                skipped_at,
            ),
        kind is Const ==> exists|kept_at: Seq<int>, skipped_at: Seq<int>| #[trigger]
            splits_list(
                generator.skips,
                before.constants,
                after.constants,
                lines,
                "const"@,
                generator.verbose_skip,
                kept_at,
                skipped_at,
            ),
        kind is Struct ==> exists|kept_at: Seq<int>, skipped_at: Seq<int>| #[trigger]
            splits_list(
                generator.skips,
                before.structs,
                after.structs,
                lines,
                "struct"@,
                generator.verbose_skip,
                kept_at,
                skipped_at,
            ),
        kind is Fn ==> exists|kept_at: Seq<int>, skipped_at: Seq<int>| #[trigger]
            splits_list(
                generator.skips,
                before.foreign_functions,
                after.foreign_functions,
                lines,
                "fn"@,
                generator.verbose_skip,
                kept_at,
                skipped_at,
            ),
        kind is Static ==> exists|kept_at: Seq<int>, skipped_at: Seq<int>| #[trigger]
            splits_list(
                generator.skips,
                before.foreign_statics,
                after.foreign_statics,
                lines,
                "static"@,
                generator.verbose_skip,
                kept_at,
                skipped_at,
            ),
{
    let rules = generator.skips;
    let verbose = generator.verbose_skip;
    match kind {
        ItemKind::Alias => list_is_split(
            rules,
            before.aliases,
            marks,
            after.aliases,
            lines,
            "alias"@,
            verbose,
        ),
        ItemKind::Const => list_is_split(
            rules,
            before.constants,
            marks,
            after.constants,
            lines,
            "const"@,
            verbose,
        ),
        ItemKind::Struct => list_is_split(
            rules,
            before.structs,
            marks,
            after.structs,
            lines,
            "struct"@,
            verbose,
        ),
        ItemKind::Fn => list_is_split(
            rules,
            before.foreign_functions,
            marks,
            after.foreign_functions,
            lines,
            "fn"@,
            verbose,
        ),
        ItemKind::Static => list_is_split(
            rules,
            before.foreign_statics,
            marks,
            after.foreign_statics,
            lines,
            "static"@,
            verbose,
        ),
    }
}

/// Every rule can be asked about every item.
pub open spec fn takes_everything(rules: Seq<SkipModel>) -> bool {
    forall|i: int, item: MapInput<'static>|
        0 <= i < rules.len() ==> #[trigger] rules[i].takes(item)
}

/// Where every rule can be asked about every item, any list of items can be filtered.
pub proof fn willing_rules_filter_everything(
    rules: Seq<SkipModel>,
    items: FfiItemsModel,
    kind: ItemKind,
    item: MapInput<'static>,
)
    requires
        takes_everything(rules),
    ensures
        skip_ready(rules, item),
        kind_ready(rules, items, kind),
{
}

/// Where every rule can be asked about an item, its name can be asked for.
pub proof fn willing_rules_name_everything(rules: Seq<RenameModel>, item: MapInput<'static>)
    requires
        forall|i: int| 0 <= i < rules.len() ==> (#[trigger] rules[i]).takes(item),
    ensures
        name_ready(rules, item),
{
}

} // verus!
