//! What holds of the settings of a generator.
use crate::generator::{optional_str, optional_text, GeneratorModel, TestGenerator};
use crate::items::{FfiItems, FfiItemsModel};
use crate::laws::{configured, Setting};
use crate::rules::{ArrayArgModel, RenameModel, SkipModel, VolatileModel};
use crate::skipping::texts;
use std::path::PathBuf;
use vstd::prelude::*;

verus! {

/// `longer` is `list` with `entry` behind it: every earlier entry is still at its place.
pub open spec fn extends<T>(longer: Seq<T>, list: Seq<T>, entry: T) -> bool {
    &&& longer.len() == list.len() + 1
    &&& forall|i: int| 0 <= i < list.len() ==> longer[i] == #[trigger] list[i]
    &&& longer[list.len() as int] == entry
}

/// A setting that collects keeps what was there, at its place, and adds the new entry behind it.
pub proof fn collecting_settings_keep_what_was_there(
    generator: GeneratorModel,
    header: Seq<char>,
    path: PathBuf,
    flag: Seq<char>,
    k: Seq<char>,
    v: Option<Seq<char>>,
    name: RenameModel,
    skip: SkipModel,
    volatile: VolatileModel,
)
    ensures
        extends(generator.with_header(header).headers, generator.headers, header),
        extends(generator.with_include(path).includes, generator.includes, path),
        extends(generator.with_flag(flag).flags, generator.flags, flag),
        extends(generator.with_define(k, v).defines, generator.defines, (k, v)),
        extends(
            generator.with_mapped_name(name).mapped_names,
            generator.mapped_names,
            name,
        ),
        extends(generator.with_skip(skip).skips, generator.skips, skip),
        extends(
            generator.with_volatile_item(volatile).volatile_items,
            generator.volatile_items,
            volatile,
        ),
{
}

/// A setting of one value has that value afterwards, whatever was there.
pub proof fn single_settings_take_the_new_value(
    generator: GeneratorModel,
    target: Seq<char>,
    path: PathBuf,
    skip: bool,
    array: ArrayArgModel,
)
    ensures
        generator.with_target(target).target == Some(target),
        generator.with_out_dir(path).out_dir == Some(path),
        generator.with_verbose_skip(skip).verbose_skip == skip,
        generator.with_array_arg(array).array_arg == Some(array),
{
}

/// A call leaves every part of the configuration alone that it does not concern.
pub proof fn settings_leave_the_rest_alone(generator: GeneratorModel, setting: Setting)
    ensures
        !(setting is Header) ==> configured(generator, setting).headers == generator.headers,
        !(setting is Target) ==> configured(generator, setting).target == generator.target,
        !(setting is IncludePath) ==> configured(generator, setting).includes == generator.includes,
        !(setting is OutDir) ==> configured(generator, setting).out_dir == generator.out_dir,
        !(setting is Flag) ==> configured(generator, setting).flags == generator.flags,
        !(setting is Define) ==> configured(generator, setting).defines == generator.defines,
        !(setting is MappedName) ==> configured(generator, setting).mapped_names
            == generator.mapped_names,
        !(setting is Skip) ==> configured(generator, setting).skips == generator.skips,
        !(setting is VerboseSkip) ==> configured(generator, setting).verbose_skip
            == generator.verbose_skip,
        !(setting is VolatileItem) ==> configured(generator, setting).volatile_items
            == generator.volatile_items,
        !(setting is ArrayArg) ==> configured(generator, setting).array_arg == generator.array_arg,
{
}

/// In a blank configuration every list is empty and nothing is set.
pub proof fn blank_configuration_holds_nothing()
    ensures
        GeneratorModel::blank().headers.len() == 0,
        GeneratorModel::blank().target is None,
        GeneratorModel::blank().includes.len() == 0,
        GeneratorModel::blank().out_dir is None,
        GeneratorModel::blank().flags.len() == 0,
        GeneratorModel::blank().defines.len() == 0,
        GeneratorModel::blank().mapped_names.len() == 0,
        GeneratorModel::blank().skips.len() == 0,
        !GeneratorModel::blank().verbose_skip,
        GeneratorModel::blank().volatile_items.len() == 0,
        GeneratorModel::blank().array_arg is None,
{
}

/// The configuration is what the fields of the generator hold, entry for entry.
pub proof fn configuration_is_what_the_fields_hold(generator: TestGenerator, i: int)
    ensures
        generator@.headers.len() == generator.headers@.len(),
        0 <= i < generator.headers@.len() ==> generator@.headers[i] == generator.headers@[i]@,
        generator@.target is Some <==> generator.target is Some,
        generator.target is Some ==> generator@.target->0 == generator.target->0@,
        generator@.includes == generator.includes@,
        generator@.out_dir == generator.out_dir,
        generator@.flags.len() == generator.flags@.len(),
        0 <= i < generator.flags@.len() ==> generator@.flags[i] == generator.flags@[i]@,
        generator@.defines.len() == generator.defines@.len(),
        0 <= i < generator.defines@.len() ==> {
            &&& generator@.defines[i].0 == generator.defines@[i].0@
            &&& generator@.defines[i].1 is Some <==> generator.defines@[i].1 is Some
            &&& generator.defines@[i].1 is Some ==> generator@.defines[i].1->0
                == generator.defines@[i].1->0@
        },
        generator@.mapped_names.len() == generator.mapped_names@.len(),
        0 <= i < generator.mapped_names@.len() ==> generator@.mapped_names[i]
            == generator.mapped_names@[i].model(),
        generator@.skips.len() == generator.skips@.len(),
        0 <= i < generator.skips@.len() ==> generator@.skips[i] == generator.skips@[i].model(),
        generator@.verbose_skip == generator.verbose_skip,
        generator@.volatile_items.len() == generator.volatile_items@.len(),
        0 <= i < generator.volatile_items@.len() ==> generator@.volatile_items[i]
            == generator.volatile_items@[i].model(),
        generator@.array_arg is Some <==> generator.array_arg is Some,
        generator.array_arg is Some ==> generator@.array_arg->0 == generator.array_arg->0.model(),
{
}

/// The value of a definition is the text that was given, or none where none was given.
pub proof fn optional_values_are_kept(text: &str, string: String)
    ensures
        optional_str(Some(text)) == Some(text@),
        optional_str(None) is None,
        optional_text(Some(string)) == Some(string@),
        optional_text(None) is None,
{
}

/// The texts of a list of strings are the texts of its strings, in order.
pub proof fn texts_are_kept(lines: Seq<String>, i: int)
    ensures
        texts(lines).len() == lines.len(),
        0 <= i < lines.len() ==> texts(lines)[i] == lines[i]@,
{
}

/// The contents of a collection of items are what its fields hold; an empty one holds nothing.
pub proof fn items_are_what_the_fields_hold(items: FfiItems)
    ensures
        items@.aliases == items.aliases@,
        items@.constants == items.constants@,
        items@.structs == items.structs@,
        items@.foreign_functions == items.foreign_functions@,
        items@.foreign_statics == items.foreign_statics@,
        FfiItemsModel::empty().aliases.len() == 0,
        FfiItemsModel::empty().constants.len() == 0,
        FfiItemsModel::empty().structs.len() == 0,
        FfiItemsModel::empty().foreign_functions.len() == 0,
        FfiItemsModel::empty().foreign_statics.len() == 0,
{
}

} // verus!
