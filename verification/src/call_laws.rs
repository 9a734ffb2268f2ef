//! What a caller can rely on, stated of the calls themselves.
use crate::error::GenerationError;
use crate::generation::{Action, Event, Generation, GenerationModel, Stage, TestSide};
use crate::generator::{kind_outcome, GeneratorModel, TestGenerator};
use crate::items::{
    Const, FfiItems, Field, ItemKind, MapInput, Parameter, Static, Struct, Type, VolatileItemKind,
};
use crate::laws::is_run;
use crate::outside::{path_text, path_with_extension, syntax_tree};
use crate::rule_laws::{filtering_splits_one_list, splits_list};
use crate::rules::{ArrayArg, MappedName, Skip, VolatileItem};
use crate::run_laws::failed;
use crate::settings_laws::extends;
use crate::skipping::texts;
use std::path::PathBuf;
use vstd::prelude::*;
use vstd::string::to_string_from_display_ensures;

verus! {

/// A new generator holds nothing.
pub proof fn new_generator_holds_nothing(generator: TestGenerator)
    requires
        call_ensures(TestGenerator::new, (), generator),
    ensures
        generator.headers@.len() == 0,
        generator.target is None,
        generator.includes@.len() == 0,
        generator.out_dir is None,
        generator.flags@.len() == 0,
        generator.defines@.len() == 0,
        generator.mapped_names@.len() == 0,
        generator.skips@.len() == 0,
        !generator.verbose_skip,
        generator.volatile_items@.len() == 0,
        generator.array_arg is None,
{
    let model = generator@;
    assert(model.headers.len() == 0 && model.flags.len() == 0 && model.defines.len() == 0);
    assert(model.mapped_names.len() == 0 && model.skips.len() == 0);
    assert(model.volatile_items.len() == 0);
}

/// A new collection of items is empty.
pub proof fn new_items_are_none(items: FfiItems)
    requires
        call_ensures(FfiItems::new, (), items),
    ensures
        items.aliases@.len() == 0,
        items.constants@.len() == 0,
        items.structs@.len() == 0,
        items.foreign_functions@.len() == 0,
        items.foreign_statics@.len() == 0,
{
}

/// `header` keeps the headers that were there, adds its own behind them, and changes nothing
/// else.
pub proof fn header_adds_one(generator: &mut TestGenerator, header: &str, r: &mut TestGenerator)
    requires
        call_ensures(TestGenerator::header, (generator, header), r),
    ensures
        *final(generator) == *final(r),
        old(r)@ == (GeneratorModel { headers: old(r)@.headers, ..old(generator)@ }),
        old(r).headers@.len() == old(generator).headers@.len() + 1,
        old(r).headers@.last()@ == header@,
        forall|i: int|
            0 <= i < old(generator).headers@.len() ==> (#[trigger] old(r).headers@[i])@
                == old(generator).headers@[i]@,
{
    let before = old(generator)@.headers;
    let after = old(r)@.headers;
    assert(after.len() == before.len() + 1 && after.last() == header@);
    assert forall|i: int| 0 <= i < before.len() implies (#[trigger] old(r).headers@[i])@
        == old(generator).headers@[i]@ by {
        assert(after[i] == before[i]);
    }
}

/// `flag` keeps the flags that were there, adds its own behind them, and changes nothing else.
pub proof fn flag_adds_one(generator: &mut TestGenerator, flag: &str, r: &mut TestGenerator)
    requires
        call_ensures(TestGenerator::flag, (generator, flag), r),
    ensures
        *final(generator) == *final(r),
        old(r)@ == (GeneratorModel { flags: old(r)@.flags, ..old(generator)@ }),
        old(r).flags@.len() == old(generator).flags@.len() + 1,
        old(r).flags@.last()@ == flag@,
        forall|i: int|
            0 <= i < old(generator).flags@.len() ==> (#[trigger] old(r).flags@[i])@
                == old(generator).flags@[i]@,
{
    let before = old(generator)@.flags;
    let after = old(r)@.flags;
    assert(after.len() == before.len() + 1 && after.last() == flag@);
    assert forall|i: int| 0 <= i < before.len() implies (#[trigger] old(r).flags@[i])@
        == old(generator).flags@[i]@ by {
        assert(after[i] == before[i]);
    }
}

/// `include_path` keeps the paths that were there, adds its own behind them, and changes
/// nothing else.
pub proof fn include_path_adds_one(generator: &mut TestGenerator, p: PathBuf, r: &mut TestGenerator)
    requires
        call_ensures(TestGenerator::include_path, (generator, p), r),
    ensures
        *final(generator) == *final(r),
        old(r)@ == (GeneratorModel { includes: old(r)@.includes, ..old(generator)@ }),
        extends(old(r).includes@, old(generator).includes@, p),
{
    assert(extends(old(r)@.includes, old(generator)@.includes, p));
}

/// `define` keeps the definitions that were there, adds its own behind them, and changes
/// nothing else.
pub proof fn define_adds_one(
    generator: &mut TestGenerator,
    k: &str,
    v: Option<&str>,
    r: &mut TestGenerator,
)
    requires
        call_ensures(TestGenerator::define, (generator, k, v), r),
    ensures
        *final(generator) == *final(r),
        old(r)@ == (GeneratorModel { defines: old(r)@.defines, ..old(generator)@ }),
        old(r).defines@.len() == old(generator).defines@.len() + 1,
        old(r).defines@.last().0@ == k@,
        old(r).defines@.last().1 is Some <==> v is Some,
        v is Some ==> old(r).defines@.last().1->0@ == v->0@,
        extends(old(r)@.defines, old(generator)@.defines, old(r)@.defines.last()),
{
    let before = old(generator)@.defines;
    let after = old(r)@.defines;
    assert(after.len() == before.len() + 1 && after.last().0 == k@);
    let last = old(r).defines@.len() - 1;
    assert(after[last].0 == old(r).defines@[last].0@);
}

/// `target` sets the target, whatever it was, and changes nothing else.
pub proof fn target_is_set(generator: &mut TestGenerator, target: &str, r: &mut TestGenerator)
    requires
        call_ensures(TestGenerator::target, (generator, target), r),
    ensures
        *final(generator) == *final(r),
        old(r)@ == (GeneratorModel { target: old(r)@.target, ..old(generator)@ }),
        old(r).target is Some,
        old(r).target->0@ == target@,
{
    assert(old(r)@.target == Some(target@));
}

/// `out_dir` sets the output directory, whatever it was, and changes nothing else.
pub proof fn out_dir_is_set(generator: &mut TestGenerator, p: PathBuf, r: &mut TestGenerator)
    requires
        call_ensures(TestGenerator::out_dir, (generator, p), r),
    ensures
        *final(generator) == *final(r),
        old(r)@ == (GeneratorModel { out_dir: old(r)@.out_dir, ..old(generator)@ }),
        old(r).out_dir == Some(p),
{
    assert(old(r)@.out_dir == Some(p));
}

/// `verbose_skip` sets whether skipped items are reported, and changes nothing else.
pub proof fn verbose_skip_is_set(generator: &mut TestGenerator, skip: bool, r: &mut TestGenerator)
    requires
        call_ensures(TestGenerator::verbose_skip, (generator, skip), r),
    ensures
        *final(generator) == *final(r),
        old(r)@ == (GeneratorModel { verbose_skip: old(r)@.verbose_skip, ..old(generator)@ }),
        old(r).verbose_skip == skip,
{
    assert(old(r)@.verbose_skip == skip);
}

/// `skip_struct` keeps the rules that were there and adds one behind them. That one answers
/// about structs what the caller's function answers, and skips nothing else.
pub proof fn skip_struct_adds_the_callers_rule<F: Fn(&Struct) -> bool + 'static>(
    generator: &mut TestGenerator,
    f: F,
    r: &mut TestGenerator,
    item: MapInput<'static>,
    answer: bool,
)
    requires
        call_ensures(TestGenerator::skip_struct, (generator, f), r),
    ensures
        *final(generator) == *final(r),
        old(r)@ == (GeneratorModel { skips: old(r)@.skips, ..old(generator)@ }),
        old(r).skips@.len() == old(generator).skips@.len() + 1,
        forall|i: int|
            0 <= i < old(generator).skips@.len() ==> (#[trigger] old(r).skips@[i]).model()
                == old(generator).skips@[i].model(),
        call_ensures(Skip::applies, (&old(r).skips@.last(), &item), answer) ==> match item {
            MapInput::Struct(s) => call_ensures(f, (s,), answer),
            _ => !answer,
        },
{
    let before = old(generator)@.skips;
    let after = old(r)@.skips;
    assert(after.len() == before.len() + 1);
    assert(after.last() == old(r).skips@.last().model());
    assert forall|i: int| 0 <= i < before.len() implies (#[trigger] old(
        r,
    ).skips@[i]).model() == old(generator).skips@[i].model() by {
        assert(after[i] == before[i]);
    }
}

/// `skip_field` keeps the rules that were there and adds one behind them. That one answers
/// about fields what the caller's function answers, and skips nothing else.
pub proof fn skip_field_adds_the_callers_rule<F: Fn(&Struct, &Field) -> bool + 'static>(
    generator: &mut TestGenerator,
    f: F,
    r: &mut TestGenerator,
    item: MapInput<'static>,
    answer: bool,
)
    requires
        call_ensures(TestGenerator::skip_field, (generator, f), r),
    ensures
        *final(generator) == *final(r),
        old(r)@ == (GeneratorModel { skips: old(r)@.skips, ..old(generator)@ }),
        old(r).skips@.len() == old(generator).skips@.len() + 1,
        forall|i: int|
            0 <= i < old(generator).skips@.len() ==> (#[trigger] old(r).skips@[i]).model()
                == old(generator).skips@[i].model(),
        call_ensures(Skip::applies, (&old(r).skips@.last(), &item), answer) ==> match item {
            MapInput::Field(s, field) => call_ensures(f, (s, field), answer),
            _ => !answer,
        },
{
    let before = old(generator)@.skips;
    let after = old(r)@.skips;
    assert(after.len() == before.len() + 1);
    assert(after.last() == old(r).skips@.last().model());
    assert forall|i: int| 0 <= i < before.len() implies (#[trigger] old(
        r,
    ).skips@[i]).model() == old(generator).skips@[i].model() by {
        assert(after[i] == before[i]);
    }
}

/// `skip_alias` keeps the rules that were there and adds one behind them. That one answers
/// about aliases what the caller's function answers, and skips nothing else.
pub proof fn skip_alias_adds_the_callers_rule<F: Fn(&Type) -> bool + 'static>(
    generator: &mut TestGenerator,
    f: F,
    r: &mut TestGenerator,
    item: MapInput<'static>,
    answer: bool,
)
    requires
        call_ensures(TestGenerator::skip_alias, (generator, f), r),
    ensures
        *final(generator) == *final(r),
        old(r)@ == (GeneratorModel { skips: old(r)@.skips, ..old(generator)@ }),
        old(r).skips@.len() == old(generator).skips@.len() + 1,
        forall|i: int|
            0 <= i < old(generator).skips@.len() ==> (#[trigger] old(r).skips@[i]).model()
                == old(generator).skips@[i].model(),
        call_ensures(Skip::applies, (&old(r).skips@.last(), &item), answer) ==> match item {
            MapInput::Alias(alias) => call_ensures(f, (alias,), answer),
            _ => !answer,
        },
{
    let before = old(generator)@.skips;
    let after = old(r)@.skips;
    assert(after.len() == before.len() + 1);
    assert(after.last() == old(r).skips@.last().model());
    assert forall|i: int| 0 <= i < before.len() implies (#[trigger] old(
        r,
    ).skips@[i]).model() == old(generator).skips@[i].model() by {
        assert(after[i] == before[i]);
    }
}

/// `skip_const` keeps the rules that were there and adds one behind them. That one answers
/// about constants what the caller's function answers, and skips nothing else.
pub proof fn skip_const_adds_the_callers_rule<F: Fn(&Const) -> bool + 'static>(
    generator: &mut TestGenerator,
    f: F,
    r: &mut TestGenerator,
    item: MapInput<'static>,
    answer: bool,
)
    requires
        call_ensures(TestGenerator::skip_const, (generator, f), r),
    ensures
        *final(generator) == *final(r),
        old(r)@ == (GeneratorModel { skips: old(r)@.skips, ..old(generator)@ }),
        old(r).skips@.len() == old(generator).skips@.len() + 1,
        forall|i: int|
            0 <= i < old(generator).skips@.len() ==> (#[trigger] old(r).skips@[i]).model()
                == old(generator).skips@[i].model(),
        call_ensures(Skip::applies, (&old(r).skips@.last(), &item), answer) ==> match item {
            MapInput::Const(c) => call_ensures(f, (c,), answer),
            _ => !answer,
        },
{
    let before = old(generator)@.skips;
    let after = old(r)@.skips;
    assert(after.len() == before.len() + 1);
    assert(after.last() == old(r).skips@.last().model());
    assert forall|i: int| 0 <= i < before.len() implies (#[trigger] old(
        r,
    ).skips@[i]).model() == old(generator).skips@[i].model() by {
        assert(after[i] == before[i]);
    }
}

/// `skip_static` keeps the rules that were there and adds one behind them. That one answers
/// about statics what the caller's function answers, and skips nothing else.
pub proof fn skip_static_adds_the_callers_rule<F: Fn(&Static) -> bool + 'static>(
    generator: &mut TestGenerator,
    f: F,
    r: &mut TestGenerator,
    item: MapInput<'static>,
    answer: bool,
)
    requires
        call_ensures(TestGenerator::skip_static, (generator, f), r),
    ensures
        *final(generator) == *final(r),
        old(r)@ == (GeneratorModel { skips: old(r)@.skips, ..old(generator)@ }),
        old(r).skips@.len() == old(generator).skips@.len() + 1,
        forall|i: int|
            0 <= i < old(generator).skips@.len() ==> (#[trigger] old(r).skips@[i]).model()
                == old(generator).skips@[i].model(),
        call_ensures(Skip::applies, (&old(r).skips@.last(), &item), answer) ==> match item {
            MapInput::Static(s) => call_ensures(f, (s,), answer),
            _ => !answer,
        },
{
    let before = old(generator)@.skips;
    let after = old(r)@.skips;
    assert(after.len() == before.len() + 1);
    assert(after.last() == old(r).skips@.last().model());
    assert forall|i: int| 0 <= i < before.len() implies (#[trigger] old(
        r,
    ).skips@[i]).model() == old(generator).skips@[i].model() by {
        assert(after[i] == before[i]);
    }
}

/// `skip_fn` keeps the rules that were there and adds one behind them. That one answers about
/// functions what the caller's function answers, and skips nothing else.
pub proof fn skip_fn_adds_the_callers_rule<F: Fn(&crate::items::Fn) -> bool + 'static>(
    generator: &mut TestGenerator,
    f: F,
    r: &mut TestGenerator,
    item: MapInput<'static>,
    answer: bool,
)
    requires
        call_ensures(TestGenerator::skip_fn, (generator, f), r),
    ensures
        *final(generator) == *final(r),
        old(r)@ == (GeneratorModel { skips: old(r)@.skips, ..old(generator)@ }),
        old(r).skips@.len() == old(generator).skips@.len() + 1,
        forall|i: int|
            0 <= i < old(generator).skips@.len() ==> (#[trigger] old(r).skips@[i]).model()
                == old(generator).skips@[i].model(),
        call_ensures(Skip::applies, (&old(r).skips@.last(), &item), answer) ==> match item {
            MapInput::Fn(func) => call_ensures(f, (func,), answer),
            _ => !answer,
        },
{
    let before = old(generator)@.skips;
    let after = old(r)@.skips;
    assert(after.len() == before.len() + 1);
    assert(after.last() == old(r).skips@.last().model());
    assert forall|i: int| 0 <= i < before.len() implies (#[trigger] old(
        r,
    ).skips@[i]).model() == old(generator).skips@[i].model() by {
        assert(after[i] == before[i]);
    }
}

/// `rename_constant` keeps the rules that were there and adds one behind them. That one answers
/// about constants what the caller's function answers, and names nothing else.
pub proof fn rename_constant_adds_the_callers_rule<F: Fn(&Const) -> Option<String> + 'static>(
    generator: &mut TestGenerator,
    f: F,
    r: &mut TestGenerator,
    item: MapInput<'static>,
    answer: Option<String>,
)
    requires
        call_ensures(TestGenerator::rename_constant, (generator, f), r),
    ensures
        *final(generator) == *final(r),
        old(r)@ == (GeneratorModel { mapped_names: old(r)@.mapped_names, ..old(generator)@ }),
        old(r).mapped_names@.len() == old(generator).mapped_names@.len() + 1,
        forall|i: int|
            0 <= i < old(generator).mapped_names@.len() ==> (#[trigger] old(
                r,
            ).mapped_names@[i]).model() == old(generator).mapped_names@[i].model(),
        call_ensures(
            MappedName::apply,
            (&old(r).mapped_names@.last(), &item),
            answer,
        ) ==> match item {
            MapInput::Const(c) => call_ensures(f, (c,), answer),
            _ => answer is None,
        },
{
    let before = old(generator)@.mapped_names;
    let after = old(r)@.mapped_names;
    assert(after.len() == before.len() + 1);
    assert(after.last() == old(r).mapped_names@.last().model());
    assert forall|i: int| 0 <= i < before.len() implies (#[trigger] old(
        r,
    ).mapped_names@[i]).model() == old(generator).mapped_names@[i].model() by {
        assert(after[i] == before[i]);
    }
}

/// `rename_field` keeps the rules that were there and adds one behind them. That one answers
/// about fields what the caller's function answers, and names nothing else.
pub proof fn rename_field_adds_the_callers_rule<F: Fn(&Struct, &Field) -> Option<String> + 'static>(
    generator: &mut TestGenerator,
    f: F,
    r: &mut TestGenerator,
    item: MapInput<'static>,
    answer: Option<String>,
)
    requires
        call_ensures(TestGenerator::rename_field, (generator, f), r),
    ensures
        *final(generator) == *final(r),
        old(r)@ == (GeneratorModel { mapped_names: old(r)@.mapped_names, ..old(generator)@ }),
        old(r).mapped_names@.len() == old(generator).mapped_names@.len() + 1,
        forall|i: int|
            0 <= i < old(generator).mapped_names@.len() ==> (#[trigger] old(
                r,
            ).mapped_names@[i]).model() == old(generator).mapped_names@[i].model(),
        call_ensures(
            MappedName::apply,
            (&old(r).mapped_names@.last(), &item),
            answer,
        ) ==> match item {
            MapInput::Field(s, field) => call_ensures(f, (s, field), answer),
            _ => answer is None,
        },
{
    let before = old(generator)@.mapped_names;
    let after = old(r)@.mapped_names;
    assert(after.len() == before.len() + 1);
    assert(after.last() == old(r).mapped_names@.last().model());
    assert forall|i: int| 0 <= i < before.len() implies (#[trigger] old(
        r,
    ).mapped_names@[i]).model() == old(generator).mapped_names@[i].model() by {
        assert(after[i] == before[i]);
    }
}

/// `rename_fn` keeps the rules that were there and adds one behind them. That one answers about
/// functions what the caller's function answers, and names nothing else.
pub proof fn rename_fn_adds_the_callers_rule<F: Fn(&crate::items::Fn) -> Option<String> + 'static>(
    generator: &mut TestGenerator,
    f: F,
    r: &mut TestGenerator,
    item: MapInput<'static>,
    answer: Option<String>,
)
    requires
        call_ensures(TestGenerator::rename_fn, (generator, f), r),
    ensures
        *final(generator) == *final(r),
        old(r)@ == (GeneratorModel { mapped_names: old(r)@.mapped_names, ..old(generator)@ }),
        old(r).mapped_names@.len() == old(generator).mapped_names@.len() + 1,
        forall|i: int|
            0 <= i < old(generator).mapped_names@.len() ==> (#[trigger] old(
                r,
            ).mapped_names@[i]).model() == old(generator).mapped_names@[i].model(),
        call_ensures(
            MappedName::apply,
            (&old(r).mapped_names@.last(), &item),
            answer,
        ) ==> match item {
            MapInput::Fn(func) => call_ensures(f, (func,), answer),
            _ => answer is None,
        },
{
    let before = old(generator)@.mapped_names;
    let after = old(r)@.mapped_names;
    assert(after.len() == before.len() + 1);
    assert(after.last() == old(r).mapped_names@.last().model());
    assert forall|i: int| 0 <= i < before.len() implies (#[trigger] old(
        r,
    ).mapped_names@[i]).model() == old(generator).mapped_names@[i].model() by {
        assert(after[i] == before[i]);
    }
}

/// `rename_type` keeps the rules that were there and adds one behind them. That one answers
/// about types what the caller's function answers, and names nothing else.
pub proof fn rename_type_adds_the_callers_rule<F: Fn(&str) -> Option<String> + 'static>(
    generator: &mut TestGenerator,
    f: F,
    r: &mut TestGenerator,
    item: MapInput<'static>,
    answer: Option<String>,
)
    requires
        call_ensures(TestGenerator::rename_type, (generator, f), r),
    ensures
        *final(generator) == *final(r),
        old(r)@ == (GeneratorModel { mapped_names: old(r)@.mapped_names, ..old(generator)@ }),
        old(r).mapped_names@.len() == old(generator).mapped_names@.len() + 1,
        forall|i: int|
            0 <= i < old(generator).mapped_names@.len() ==> (#[trigger] old(
                r,
            ).mapped_names@[i]).model() == old(generator).mapped_names@[i].model(),
        call_ensures(
            MappedName::apply,
            (&old(r).mapped_names@.last(), &item),
            answer,
        ) ==> match item {
            MapInput::Type(ty) => call_ensures(f, (ty,), answer),
            _ => answer is None,
        },
{
    let before = old(generator)@.mapped_names;
    let after = old(r)@.mapped_names;
    assert(after.len() == before.len() + 1);
    assert(after.last() == old(r).mapped_names@.last().model());
    assert forall|i: int| 0 <= i < before.len() implies (#[trigger] old(
        r,
    ).mapped_names@[i]).model() == old(generator).mapped_names@[i].model() by {
        assert(after[i] == before[i]);
    }
}

/// `rename_struct_ty` keeps the rules that were there and adds one behind them. That one
/// answers about struct types what the caller's function answers, and names nothing else.
pub proof fn rename_struct_ty_adds_the_callers_rule<F: Fn(&str) -> Option<String> + 'static>(
    generator: &mut TestGenerator,
    f: F,
    r: &mut TestGenerator,
    item: MapInput<'static>,
    answer: Option<String>,
)
    requires
        call_ensures(TestGenerator::rename_struct_ty, (generator, f), r),
    ensures
        *final(generator) == *final(r),
        old(r)@ == (GeneratorModel { mapped_names: old(r)@.mapped_names, ..old(generator)@ }),
        old(r).mapped_names@.len() == old(generator).mapped_names@.len() + 1,
        forall|i: int|
            0 <= i < old(generator).mapped_names@.len() ==> (#[trigger] old(
                r,
            ).mapped_names@[i]).model() == old(generator).mapped_names@[i].model(),
        call_ensures(
            MappedName::apply,
            (&old(r).mapped_names@.last(), &item),
            answer,
        ) ==> match item {
            MapInput::StructType(ty) => call_ensures(f, (ty,), answer),
            _ => answer is None,
        },
{
    let before = old(generator)@.mapped_names;
    let after = old(r)@.mapped_names;
    assert(after.len() == before.len() + 1);
    assert(after.last() == old(r).mapped_names@.last().model());
    assert forall|i: int| 0 <= i < before.len() implies (#[trigger] old(
        r,
    ).mapped_names@[i]).model() == old(generator).mapped_names@[i].model() by {
        assert(after[i] == before[i]);
    }
}

/// `rename_union_ty` keeps the rules that were there and adds one behind them. That one answers
/// about union types what the caller's function answers, and names nothing else.
pub proof fn rename_union_ty_adds_the_callers_rule<F: Fn(&str) -> Option<String> + 'static>(
    generator: &mut TestGenerator,
    f: F,
    r: &mut TestGenerator,
    item: MapInput<'static>,
    answer: Option<String>,
)
    requires
        call_ensures(TestGenerator::rename_union_ty, (generator, f), r),
    ensures
        *final(generator) == *final(r),
        old(r)@ == (GeneratorModel { mapped_names: old(r)@.mapped_names, ..old(generator)@ }),
        old(r).mapped_names@.len() == old(generator).mapped_names@.len() + 1,
        forall|i: int|
            0 <= i < old(generator).mapped_names@.len() ==> (#[trigger] old(
                r,
            ).mapped_names@[i]).model() == old(generator).mapped_names@[i].model(),
        call_ensures(
            MappedName::apply,
            (&old(r).mapped_names@.last(), &item),
            answer,
        ) ==> match item {
            MapInput::UnionType(ty) => call_ensures(f, (ty,), answer),
            _ => answer is None,
        },
{
    let before = old(generator)@.mapped_names;
    let after = old(r)@.mapped_names;
    assert(after.len() == before.len() + 1);
    assert(after.last() == old(r).mapped_names@.last().model());
    assert forall|i: int| 0 <= i < before.len() implies (#[trigger] old(
        r,
    ).mapped_names@[i]).model() == old(generator).mapped_names@[i].model() by {
        assert(after[i] == before[i]);
    }
}

/// `volatile_field` keeps the rules that were there and adds one behind them. That one answers
/// about fields what the caller's function answers, and marks nothing else.
pub proof fn volatile_field_adds_the_callers_rule<F: Fn(Struct, Field) -> bool + 'static>(
    generator: &mut TestGenerator,
    f: F,
    r: &mut TestGenerator,
    item: VolatileItemKind,
    answer: bool,
)
    requires
        call_ensures(TestGenerator::volatile_field, (generator, f), r),
    ensures
        *final(generator) == *final(r),
        old(r)@ == (GeneratorModel { volatile_items: old(r)@.volatile_items, ..old(generator)@ }),
        old(r).volatile_items@.len() == old(generator).volatile_items@.len() + 1,
        forall|i: int|
            0 <= i < old(generator).volatile_items@.len() ==> (#[trigger] old(
                r,
            ).volatile_items@[i]).model() == old(generator).volatile_items@[i].model(),
        call_ensures(
            VolatileItem::applies,
            (&old(r).volatile_items@.last(), item),
            answer,
        ) ==> match item {
            VolatileItemKind::StructField(s, field) => call_ensures(f, (s, field), answer),
            _ => !answer,
        },
{
    let before = old(generator)@.volatile_items;
    let after = old(r)@.volatile_items;
    assert(after.len() == before.len() + 1);
    assert(after.last() == old(r).volatile_items@.last().model());
    assert forall|i: int| 0 <= i < before.len() implies (#[trigger] old(
        r,
    ).volatile_items@[i]).model() == old(generator).volatile_items@[i].model() by {
        assert(after[i] == before[i]);
    }
}

/// `volatile_static` keeps the rules that were there and adds one behind them. That one answers
/// about statics what the caller's function answers, and marks nothing else.
pub proof fn volatile_static_adds_the_callers_rule<F: Fn(Static) -> bool + 'static>(
    generator: &mut TestGenerator,
    f: F,
    r: &mut TestGenerator,
    item: VolatileItemKind,
    answer: bool,
)
    requires
        call_ensures(TestGenerator::volatile_static, (generator, f), r),
    ensures
        *final(generator) == *final(r),
        old(r)@ == (GeneratorModel { volatile_items: old(r)@.volatile_items, ..old(generator)@ }),
        old(r).volatile_items@.len() == old(generator).volatile_items@.len() + 1,
        forall|i: int|
            0 <= i < old(generator).volatile_items@.len() ==> (#[trigger] old(
                r,
            ).volatile_items@[i]).model() == old(generator).volatile_items@[i].model(),
        call_ensures(
            VolatileItem::applies,
            (&old(r).volatile_items@.last(), item),
            answer,
        ) ==> match item {
            VolatileItemKind::Static(s) => call_ensures(f, (s,), answer),
            _ => !answer,
        },
{
    let before = old(generator)@.volatile_items;
    let after = old(r)@.volatile_items;
    assert(after.len() == before.len() + 1);
    assert(after.last() == old(r).volatile_items@.last().model());
    assert forall|i: int| 0 <= i < before.len() implies (#[trigger] old(
        r,
    ).volatile_items@[i]).model() == old(generator).volatile_items@[i].model() by {
        assert(after[i] == before[i]);
    }
}

/// `volatile_fn_arg` keeps the rules that were there and adds one behind them. That one answers
/// about arguments what the caller's function answers, and marks nothing else.
pub proof fn volatile_fn_arg_adds_the_callers_rule<
    F: Fn(crate::items::Fn, Box<Parameter>) -> bool + 'static,
>(
    generator: &mut TestGenerator,
    f: F,
    r: &mut TestGenerator,
    item: VolatileItemKind,
    answer: bool,
)
    requires
        call_ensures(TestGenerator::volatile_fn_arg, (generator, f), r),
    ensures
        *final(generator) == *final(r),
        old(r)@ == (GeneratorModel { volatile_items: old(r)@.volatile_items, ..old(generator)@ }),
        old(r).volatile_items@.len() == old(generator).volatile_items@.len() + 1,
        forall|i: int|
            0 <= i < old(generator).volatile_items@.len() ==> (#[trigger] old(
                r,
            ).volatile_items@[i]).model() == old(generator).volatile_items@[i].model(),
        call_ensures(
            VolatileItem::applies,
            (&old(r).volatile_items@.last(), item),
            answer,
        ) ==> match item {
            VolatileItemKind::FnArgument(func, param) => call_ensures(f, (func, param), answer),
            _ => !answer,
        },
{
    let before = old(generator)@.volatile_items;
    let after = old(r)@.volatile_items;
    assert(after.len() == before.len() + 1);
    assert(after.last() == old(r).volatile_items@.last().model());
    assert forall|i: int| 0 <= i < before.len() implies (#[trigger] old(
        r,
    ).volatile_items@[i]).model() == old(generator).volatile_items@[i].model() by {
        assert(after[i] == before[i]);
    }
}

/// `volatile_fn_return_type` keeps the rules that were there and adds one behind them. That one
/// answers about return types what the caller's function answers, and marks nothing else.
pub proof fn volatile_fn_return_type_adds_the_callers_rule<
    F: Fn(crate::items::Fn) -> bool + 'static,
>(
    generator: &mut TestGenerator,
    f: F,
    r: &mut TestGenerator,
    item: VolatileItemKind,
    answer: bool,
)
    requires
        call_ensures(TestGenerator::volatile_fn_return_type, (generator, f), r),
    ensures
        *final(generator) == *final(r),
        old(r)@ == (GeneratorModel { volatile_items: old(r)@.volatile_items, ..old(generator)@ }),
        old(r).volatile_items@.len() == old(generator).volatile_items@.len() + 1,
        forall|i: int|
            0 <= i < old(generator).volatile_items@.len() ==> (#[trigger] old(
                r,
            ).volatile_items@[i]).model() == old(generator).volatile_items@[i].model(),
        call_ensures(
            VolatileItem::applies,
            (&old(r).volatile_items@.last(), item),
            answer,
        ) ==> match item {
            VolatileItemKind::FnReturnType(func) => call_ensures(f, (func,), answer),
            _ => !answer,
        },
{
    let before = old(generator)@.volatile_items;
    let after = old(r)@.volatile_items;
    assert(after.len() == before.len() + 1);
    assert(after.last() == old(r).volatile_items@.last().model());
    assert forall|i: int| 0 <= i < before.len() implies (#[trigger] old(
        r,
    ).volatile_items@[i]).model() == old(generator).volatile_items@[i].model() by {
        assert(after[i] == before[i]);
    }
}

/// `array_arg` sets the rule for arrays, whatever it was, and changes nothing else. The rule
/// answers what the caller's function answers.
pub proof fn array_arg_sets_the_callers_rule<F: Fn(crate::items::Fn, Parameter) -> bool + 'static>(
    generator: &mut TestGenerator,
    f: F,
    r: &mut TestGenerator,
    func: crate::items::Fn,
    arg: Parameter,
    answer: bool,
)
    requires
        call_ensures(TestGenerator::array_arg, (generator, f), r),
    ensures
        *final(generator) == *final(r),
        old(r)@ == (GeneratorModel { array_arg: old(r)@.array_arg, ..old(generator)@ }),
        old(r).array_arg is Some,
        call_ensures(ArrayArg::applies, (&old(r).array_arg->0, func, arg), answer) ==> call_ensures(
            f,
            (func, arg),
            answer,
        ),
{
    assert(old(r)@.array_arg is Some);
    assert(old(r)@.array_arg->0 == old(r).array_arg->0.model());
}

/// `map` never fails. The name comes from the first rule that has one: it may give the name,
/// and each rule before it may say `None`. Where every rule may say `None`, it can be the own
/// name of the item, which has a keyword before it if it is the name of a struct or union type.
pub proof fn map_gives_the_first_name(
    generator: &TestGenerator,
    item: MapInput<'static>,
    r: Result<String, GenerationError>,
)
    requires
        call_ensures(TestGenerator::map, (generator, item), r),
    ensures
        r is Ok,
        ({
            let rules = generator.mapped_names@;
            let name = r->Ok_0;
            ||| exists|i: int|
                0 <= i < rules.len() && (#[trigger] rules[i]).model().may_return(item, Some(name))
                    && forall|j: int|
                    0 <= j < i ==> (#[trigger] rules[j]).model().may_return(item, None)
            ||| (forall|j: int|
                0 <= j < rules.len() ==> (#[trigger] rules[j]).model().may_return(item, None))
                && name@ == match item {
                MapInput::Const(c) => c.ident@,
                MapInput::Fn(func) => func.ident@,
                MapInput::Static(s) => s.ident@,
                MapInput::Struct(s) => s.ident@,
                MapInput::Alias(alias) => alias.ident@,
                MapInput::Field(_, field) => field.ident@,
                MapInput::Type(ty) => ty@,
                MapInput::StructType(ty) => "struct "@ + ty@,
                MapInput::UnionType(ty) => "union "@ + ty@,
            }
        }),
{
    let rules = generator.mapped_names@;
    let models = generator@.mapped_names;
    let name = r->Ok_0;
    assert forall|j: int| 0 <= j < rules.len() implies (#[trigger] rules[j]).model()
        == models[j] by {}
    if exists|i: int|
        0 <= i < models.len() && (#[trigger] models[i]).may_return(item, Some(name)) && forall|
            j: int,
        |
            0 <= j < i ==> (#[trigger] models[j]).may_return(item, None) {
        let i = choose|i: int|
            0 <= i < models.len() && (#[trigger] models[i]).may_return(item, Some(name)) && forall|
                j: int,
            |
                0 <= j < i ==> (#[trigger] models[j]).may_return(item, None);
        assert(rules[i].model().may_return(item, Some(name)));
    }
}

/// `skips_field` is true only if a rule may skip the field and each rule before it may spare
/// it, and false only if every rule may spare the field.
pub proof fn skips_field_asks_the_rules(
    generator: &TestGenerator,
    s: &'static Struct,
    field: &'static Field,
    r: bool,
)
    requires
        call_ensures(TestGenerator::skips_field, (generator, s, field), r),
    ensures
        ({
            let rules = generator.skips@;
            let item = MapInput::Field(s, field);
            &&& r ==> exists|i: int|
                0 <= i < rules.len() && (#[trigger] rules[i]).model().may_return(item, true)
                    && forall|j: int|
                    0 <= j < i ==> (#[trigger] rules[j]).model().may_return(item, false)
            &&& !r ==> forall|j: int|
                0 <= j < rules.len() ==> (#[trigger] rules[j]).model().may_return(item, false)
        }),
{
    let rules = generator.skips@;
    let models = generator@.skips;
    let item = MapInput::Field(s, field);
    assert forall|j: int| 0 <= j < rules.len() implies (#[trigger] rules[j]).model()
        == models[j] by {}
    if r {
        let i = choose|i: int|
            0 <= i < models.len() && (#[trigger] models[i]).may_return(item, true) && forall|
                j: int,
            |
                0 <= j < i ==> (#[trigger] models[j]).may_return(item, false);
        assert(rules[i].model().may_return(item, true));
    }
}

/// `filter_ffi_items` splits the list of one kind: an item stays, at its turn, where the rules
/// spare it, and leaves where they skip it. Who leaves is reported under the word for the kind,
/// if skips are to be reported at all. The lists of the other kinds stay as they are.
pub proof fn filter_ffi_items_splits_one_list(
    generator: &TestGenerator,
    kind: ItemKind,
    items: &mut FfiItems,
    lines: Vec<String>,
)
    requires
        call_ensures(TestGenerator::filter_ffi_items, (generator, kind, items), lines),
    ensures
        !(kind is Alias) ==> final(items).aliases@ == old(items).aliases@,
        !(kind is Const) ==> final(items).constants@ == old(items).constants@,
        !(kind is Struct) ==> final(items).structs@ == old(items).structs@,
        !(kind is Fn) ==> final(items).foreign_functions@ == old(items).foreign_functions@,
        !(kind is Static) ==> final(items).foreign_statics@ == old(items).foreign_statics@,
        kind is Alias ==> exists|kept_at: Seq<int>, skipped_at: Seq<int>| #[trigger]
            splits_list(
                generator@.skips,
                old(items).aliases@,
                final(items).aliases@,
                texts(lines@),
                "alias"@,
                generator.verbose_skip,
                kept_at,
                skipped_at,
            ),
        kind is Const ==> exists|kept_at: Seq<int>, skipped_at: Seq<int>| #[trigger]
            splits_list(
                generator@.skips,
                old(items).constants@,
                final(items).constants@,
                texts(lines@),
                "const"@,
                generator.verbose_skip,
                kept_at,
                skipped_at,
            ),
        kind is Struct ==> exists|kept_at: Seq<int>, skipped_at: Seq<int>| #[trigger]
            splits_list(
                generator@.skips,
                old(items).structs@,
                final(items).structs@,
                texts(lines@),
                "struct"@,
                generator.verbose_skip,
                kept_at,
                skipped_at,
            ),
        kind is Fn ==> exists|kept_at: Seq<int>, skipped_at: Seq<int>| #[trigger]
            splits_list(
                generator@.skips,
                old(items).foreign_functions@,
                final(items).foreign_functions@,
                texts(lines@),
                "fn"@,
                generator.verbose_skip,
                kept_at,
                skipped_at,
            ),
        kind is Static ==> exists|kept_at: Seq<int>, skipped_at: Seq<int>| #[trigger]
            splits_list(
                generator@.skips,
                old(items).foreign_statics@,
                final(items).foreign_statics@,
                texts(lines@),
                "static"@,
                generator.verbose_skip,
                kept_at,
                skipped_at,
            ),
{
    let marks = choose|marks: Seq<bool>| #[trigger]
        kind_outcome(
            generator@,
            old(items)@,
            kind,
            marks,
            final(items)@,
            texts(lines@),
        );
    filtering_splits_one_list(
        generator@,
        old(items)@,
        kind,
        marks,
        final(items)@,
        texts(lines@),
    );
}

/// `generate_files` changes no setting. It starts a run of the given paths with nothing found
/// yet, and asks for the crate to be expanded.
pub proof fn generate_files_starts_a_run(
    generator: &mut TestGenerator,
    crate_path: PathBuf,
    file_path: PathBuf,
    r: (Generation, Action),
)
    requires
        call_ensures(TestGenerator::generate_files, (generator, crate_path, file_path), r),
    ensures
        *final(generator) == *old(generator),
        r.0@.crate_path == crate_path,
        r.0@.file_path == file_path,
        r.0@.stage is Expanding,
        r.0@.ffi_items.aliases.len() == 0,
        r.0@.ffi_items.constants.len() == 0,
        r.0@.ffi_items.structs.len() == 0,
        r.0@.ffi_items.foreign_functions.len() == 0,
        r.0@.ffi_items.foreign_statics.len() == 0,
        r.1 == Action::Expand(crate_path),
{
}

/// `advance` gives an error only where something outside has failed, and always there.
pub proof fn advance_fails_only_where_the_outside_fails(
    run: &mut Generation,
    generator: &TestGenerator,
    event: Event,
    action: Action,
)
    requires
        old(run)@.expects(generator@, event),
        call_ensures(Generation::advance, (run, generator, event), action),
    ensures
        (action matches Action::Finish(Err(_))) <==> failed(event),
{
}

/// `take_tree` asks for the items of the tree, or ends the run with the error.
pub proof fn take_tree_goes_on_or_fails(
    run: &mut Generation,
    parsed: Result<syn::File, GenerationError>,
    action: Action,
)
    requires
        call_ensures(Generation::take_tree, (run, parsed), action),
    ensures
        parsed matches Ok(tree) ==> action == Action::Collect(tree) && final(run)@
            == (GenerationModel { stage: Stage::Collecting, ..old(run)@ }),
        parsed matches Err(error) ==> action == Action::Finish(Err(error)) && final(run)@
            == (GenerationModel { stage: Stage::Finished, ..old(run)@ }),
{
}

/// `parse_crate` gives the syntax tree, or an error with the source and the reason of the
/// parser.
pub proof fn parse_crate_gives_tree_or_reason(
    source: String,
    r: Result<syn::File, GenerationError>,
)
    requires
        call_ensures(crate::generation::parse_crate, (source,), r),
    ensures
        syntax_tree(source@) matches Ok(tree) ==> r == Ok::<syn::File, GenerationError>(tree),
        syntax_tree(source@) matches Err(reason) ==> (r matches Err(
            GenerationError::RustSyntax(text, message),
        ) && text == source && message@ == reason),
{
}

/// The path of a side is the path of the output, with the extension of the side.
pub proof fn sides_lie_next_to_each_other(output: &PathBuf, rust: PathBuf, c: PathBuf)
    requires
        call_ensures(crate::generation::side_path, (output, TestSide::Rust), rust),
        call_ensures(crate::generation::side_path, (output, TestSide::C), c),
    ensures
        rust == path_with_extension(*output, "rs"@),
        c == path_with_extension(*output, "c"@),
{
}

/// The calls make a run: `generate_files` begins one.
pub proof fn generate_files_begins_a_run(
    generator: &mut TestGenerator,
    crate_path: PathBuf,
    file_path: PathBuf,
    r: (Generation, Action),
)
    requires
        call_ensures(TestGenerator::generate_files, (generator, crate_path, file_path), r),
    ensures
        is_run(
            old(generator)@,
            crate_path,
            file_path,
            seq![r.0@],
            Seq::empty(),
            seq![r.1],
        ),
{
}

/// The calls make a run: `advance` carries it on by one event.
pub proof fn advance_carries_the_run_on(
    crate_path: PathBuf,
    file_path: PathBuf,
    states: Seq<GenerationModel>,
    events: Seq<Event>,
    actions: Seq<Action>,
    run: &mut Generation,
    generator: &TestGenerator,
    event: Event,
    action: Action,
)
    requires
        is_run(generator@, crate_path, file_path, states, events, actions),
        states.last() == old(run)@,
        old(run)@.expects(generator@, event),
        call_ensures(Generation::advance, (run, generator, event), action),
    ensures
        is_run(
            generator@,
            crate_path,
            file_path,
            states.push(final(run)@),
            events.push(event),
            actions.push(action),
        ),
{
    let longer = states.push(final(run)@);
    let told = events.push(event);
    let asked = actions.push(action);
    assert forall|i: int| 0 <= i < told.len() implies {
        &&& longer[i].expects(generator@, #[trigger] told[i])
        &&& longer[i].steps(generator@, told[i], longer[i + 1], asked[i + 1])
    } by {
        if i < events.len() {
            assert(told[i] == events[i]);
        }
    }
}

/// What a run shows of itself is its state.
pub proof fn run_shows_its_state(run: &Generation, items: &FfiItems, stage: Stage)
    requires
        call_ensures(Generation::ffi_items, (run,), items),
        call_ensures(Generation::stage, (run,), stage),
    ensures
        items@ == run@.ffi_items,
        stage == run@.stage,
{
}

/// An item is called what it was declared as.
pub proof fn items_know_their_names(
    constant: &Const,
    field: &Field,
    func: &crate::items::Fn,
    param: &Parameter,
    static_: &Static,
    struct_: &Struct,
    alias: &Type,
    name: &str,
)
    ensures
        call_ensures(Const::ident, (constant,), name) ==> name@ == constant.ident@,
        call_ensures(Field::ident, (field,), name) ==> name@ == field.ident@,
        call_ensures(crate::items::Fn::ident, (func,), name) ==> name@ == func.ident@,
        call_ensures(Parameter::ident, (param,), name) ==> name@ == param.ident@,
        call_ensures(Static::ident, (static_,), name) ==> name@ == static_.ident@,
        call_ensures(Struct::ident, (struct_,), name) ==> name@ == struct_.ident@,
        call_ensures(Type::ident, (alias,), name) ==> name@ == alias.ident@,
{
}

/// The words for kinds and sides are those of reports, errors and file names.
pub proof fn words_are_as_shown(word: &'static str)
    ensures
        call_ensures(ItemKind::label, (ItemKind::Alias,), word) ==> word@ == "alias"@,
        call_ensures(ItemKind::label, (ItemKind::Const,), word) ==> word@ == "const"@,
        call_ensures(ItemKind::label, (ItemKind::Struct,), word) ==> word@ == "struct"@,
        call_ensures(ItemKind::label, (ItemKind::Fn,), word) ==> word@ == "fn"@,
        call_ensures(ItemKind::label, (ItemKind::Static,), word) ==> word@ == "static"@,
        call_ensures(TestSide::template_name, (TestSide::Rust,), word) ==> word@ == "Rust"@,
        call_ensures(TestSide::template_name, (TestSide::C,), word) ==> word@ == "C"@,
        call_ensures(TestSide::extension, (TestSide::Rust,), word) ==> word@ == "rs"@,
        call_ensures(TestSide::extension, (TestSide::C,), word) ==> word@ == "c"@,
{
}

/// `report_line` names the skipped item in quotes, behind the word for its kind.
pub proof fn report_line_names_the_item(label: &str, name: &str, line: String)
    requires
        call_ensures(crate::skipping::report_line, (label, name), line),
    ensures
        line@ == "Skipping "@ + label@ + " \""@ + name@ + "\""@,
{
}

/// The message of an error says what could not be done, and gives the reason as it was told.
pub proof fn messages_give_the_reason(error: &GenerationError, message: String)
    requires
        call_ensures(GenerationError::message, (error,), message),
    ensures
        *error matches GenerationError::MacroExpansion(path, reason) ==> message@
            == "unable to expand crate "@ + path_text(path) + ": "@ + reason@,
        *error matches GenerationError::RustSyntax(source, reason) ==> message@
            == "unable to parse expanded crate "@ + source@ + ": "@ + reason@,
        *error matches GenerationError::TemplateRender(template, reason) ==> message@
            == "unable to render "@ + template@ + " template: "@ + reason@,
        *error matches GenerationError::OsError(cause) ==> exists|text: String| #[trigger]
            to_string_from_display_ensures(&cause, text) && message@
                == "unable to create or write template file: "@ + text@,
        *error is ItemMap ==> message@ == "unable to map Rust identifier or type"@,
{
}

} // verus!
