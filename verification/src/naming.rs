//! How rename rules and default names decide the C name of an item.
use crate::items::MapInput;
use crate::rules::{MappedName, RenameModel};
use vstd::prelude::*;

verus! {

/// The first `n` rules may all have nothing to say about `item`.
pub open spec fn unnamed_before(rules: Seq<RenameModel>, item: MapInput<'static>, n: int) -> bool {
    forall|i: int| 0 <= i < n ==> (#[trigger] rules[i]).may_return(item, None)
}

/// Every rule up to the first one that names `item` can be called on it.
pub open spec fn name_ready(rules: Seq<RenameModel>, item: MapInput<'static>) -> bool {
    forall|i: int|
        0 <= i < rules.len() && unnamed_before(rules, item, i) ==> (#[trigger] rules[i]).takes(item)
}

/// Asked in order until one of them names `item`, the rules may come to the answer `name`.
pub open spec fn rename_answer(
    rules: Seq<RenameModel>,
    item: MapInput<'static>,
    name: Option<String>,
) -> bool {
    if name is Some {
        exists|i: int|
            0 <= i < rules.len() && (#[trigger] rules[i]).may_return(item, name) && unnamed_before(
                rules,
                item,
                i,
            )
    } else {
        unnamed_before(rules, item, rules.len() as int)
    }
}

/// The C name of an item that no rule names: its own, with the keyword that C wants before the
/// name of a struct or union type.
pub open spec fn default_name(item: MapInput<'static>) -> Seq<char> {
    match item {
        MapInput::Const(c) => c.ident@,
        MapInput::Fn(f) => f.ident@,
        MapInput::Static(s) => s.ident@,
        MapInput::Struct(s) => s.ident@,
        MapInput::Alias(t) => t.ident@,
        MapInput::Field(_, f) => f.ident@,
        MapInput::StructType(ty) => "struct "@ + ty@,
        MapInput::UnionType(ty) => "union "@ + ty@,
        MapInput::Type(ty) => ty@,
    }
}

/// `name` may be the C name of `item`: what the rules answer, or the default name where they have
/// no answer.
pub open spec fn name_answer(
    rules: Seq<RenameModel>,
    item: MapInput<'static>,
    name: String,
) -> bool {
    ||| rename_answer(rules, item, Some(name))
    ||| rename_answer(rules, item, None) && name@ == default_name(item)
}

/// The models of a list of rules.
pub open spec fn rename_models(rules: Seq<MappedName>) -> Seq<RenameModel> {
    rules.map_values(|rule: MappedName| rule.model())
}

/// Asks the rules in order, until one names `item`.
pub fn mapped_name(rules: &Vec<MappedName>, item: &MapInput<'_>) -> (r: Option<String>)
    requires
        name_ready(rename_models(rules@), *item),
    ensures
        rename_answer(rename_models(rules@), *item, r),
{
    let ghost models = rename_models(rules@);
    for i in 0..rules.len()
        invariant
            models == rename_models(rules@),
            name_ready(models, *item),
            unnamed_before(models, *item, i as int),
    {
        assert(models[i as int] == rules@[i as int].model());
        let mapped = rules[i].apply(item);
        if mapped.is_some() {
            return mapped;
        }
    }
    None
}

/// The C name of an item that no rule names.
pub fn unmapped_name(item: &MapInput<'_>) -> (r: String)
    ensures
        r@ == default_name(*item),
{
    match item {
        MapInput::Const(c) => c.ident().to_string(),
        MapInput::Fn(f) => f.ident().to_string(),
        MapInput::Static(s) => s.ident().to_string(),
        MapInput::Struct(s) => s.ident().to_string(),
        MapInput::Alias(t) => t.ident().to_string(),
        MapInput::Field(_, f) => f.ident().to_string(),
        MapInput::StructType(ty) => "struct ".to_string().concat(ty),
        MapInput::UnionType(ty) => "union ".to_string().concat(ty),
        MapInput::Type(ty) => (*ty).to_string(),
    }
}

} // verus!
