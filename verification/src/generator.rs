//! The builder that holds everything a test suite is generated from.
use crate::error::GenerationError;
use crate::items::{
    Const, FfiItems, FfiItemsModel, Field, ItemKind, MapInput, Parameter, Static, Struct, Type,
};
use crate::naming::{mapped_name, name_answer, name_ready, rename_models, unmapped_name};
use crate::rules::{
    alias_skip, arg_array, const_rename, const_skip, field_rename, field_skip, field_volatile,
    fn_arg_volatile, fn_rename, fn_return_volatile, fn_skip, static_skip, static_volatile,
    struct_skip, struct_type_rename, type_rename, union_type_rename, ArrayArg, ArrayArgModel,
    MappedName, RenameModel, Skip, SkipModel, VolatileItem, VolatileModel,
};
use crate::skipping::{
    all_ready, filter_items, is_skipped, list_outcome, marks_answer, select, skip_answer,
    skip_lines, skip_models, skip_ready, texts,
};
use std::path::PathBuf;
use vstd::prelude::*;

verus! {

/// A builder used to generate a test suite.
pub struct TestGenerator {
    pub headers: Vec<String>,
    pub target: Option<String>,
    pub includes: Vec<PathBuf>,
    pub out_dir: Option<PathBuf>,
    pub flags: Vec<String>,
    pub defines: Vec<(String, Option<String>)>,
    pub mapped_names: Vec<MappedName>,
    pub skips: Vec<Skip>,
    pub verbose_skip: bool,
    pub volatile_items: Vec<VolatileItem>,
    pub array_arg: Option<ArrayArg>,
}

/// The configuration that a [`TestGenerator`] holds.
#[verifier::ext_equal]
pub ghost struct GeneratorModel {
    pub headers: Seq<Seq<char>>,
    pub target: Option<Seq<char>>,
    pub includes: Seq<PathBuf>,
    pub out_dir: Option<PathBuf>,
    pub flags: Seq<Seq<char>>,
    pub defines: Seq<(Seq<char>, Option<Seq<char>>)>,
    pub mapped_names: Seq<RenameModel>,
    pub skips: Seq<SkipModel>,
    pub verbose_skip: bool,
    pub volatile_items: Seq<VolatileModel>,
    pub array_arg: Option<ArrayArgModel>,
}

/// The text of an optional string.
pub open spec fn optional_text(text: Option<String>) -> Option<Seq<char>> {
    match text {
        Some(text) => Some(text@),
        None => None,
    }
}

/// The text of an optional string slice.
pub open spec fn optional_str(text: Option<&str>) -> Option<Seq<char>> {
    match text {
        Some(text) => Some(text@),
        None => None,
    }
}

/// The texts of a list of definitions.
pub open spec fn define_texts(
    defines: Seq<(String, Option<String>)>,
) -> Seq<(Seq<char>, Option<Seq<char>>)> {
    defines.map_values(|define: (String, Option<String>)| (define.0@, optional_text(define.1)))
}

/// The models of a list of volatility rules.
pub open spec fn volatile_models(rules: Seq<VolatileItem>) -> Seq<VolatileModel> {
    rules.map_values(|rule: VolatileItem| rule.model())
}

/// The model of an optional array rule.
pub open spec fn array_arg_model(rule: Option<ArrayArg>) -> Option<ArrayArgModel> {
    match rule {
        Some(rule) => Some(rule.model()),
        None => None,
    }
}

impl View for TestGenerator {
    type V = GeneratorModel;

    open spec fn view(&self) -> GeneratorModel {
        GeneratorModel {
            headers: texts(self.headers@),
            target: optional_text(self.target),
            includes: self.includes@,
            out_dir: self.out_dir,
            flags: texts(self.flags@),
            defines: define_texts(self.defines@),
            mapped_names: rename_models(self.mapped_names@),
            skips: skip_models(self.skips@),
            verbose_skip: self.verbose_skip,
            volatile_items: volatile_models(self.volatile_items@),
            array_arg: array_arg_model(self.array_arg),
        }
    }
}

impl GeneratorModel {
    /// The configuration in which nothing has been set.
    pub open spec fn blank() -> GeneratorModel {
        GeneratorModel {
            headers: Seq::empty(),
            target: None,
            includes: Seq::empty(),
            out_dir: None,
            flags: Seq::empty(),
            defines: Seq::empty(),
            mapped_names: Seq::empty(),
            skips: Seq::empty(),
            verbose_skip: false,
            volatile_items: Seq::empty(),
            array_arg: None,
        }
    }

    pub open spec fn with_header(self, header: Seq<char>) -> GeneratorModel {
        GeneratorModel { headers: self.headers.push(header), ..self }
    }

    pub open spec fn with_target(self, target: Seq<char>) -> GeneratorModel {
        GeneratorModel { target: Some(target), ..self }
    }

    pub open spec fn with_include(self, path: PathBuf) -> GeneratorModel {
        GeneratorModel { includes: self.includes.push(path), ..self }
    }

    pub open spec fn with_out_dir(self, path: PathBuf) -> GeneratorModel {
        GeneratorModel { out_dir: Some(path), ..self }
    }

    pub open spec fn with_flag(self, flag: Seq<char>) -> GeneratorModel {
        GeneratorModel { flags: self.flags.push(flag), ..self }
    }

    pub open spec fn with_define(self, k: Seq<char>, v: Option<Seq<char>>) -> GeneratorModel {
        GeneratorModel { defines: self.defines.push((k, v)), ..self }
    }

    pub open spec fn with_mapped_name(self, rule: RenameModel) -> GeneratorModel {
        GeneratorModel { mapped_names: self.mapped_names.push(rule), ..self }
    }

    pub open spec fn with_skip(self, rule: SkipModel) -> GeneratorModel {
        GeneratorModel { skips: self.skips.push(rule), ..self }
    }

    pub open spec fn with_verbose_skip(self, skip: bool) -> GeneratorModel {
        GeneratorModel { verbose_skip: skip, ..self }
    }

    pub open spec fn with_volatile_item(self, rule: VolatileModel) -> GeneratorModel {
        GeneratorModel { volatile_items: self.volatile_items.push(rule), ..self }
    }

    pub open spec fn with_array_arg(self, rule: ArrayArgModel) -> GeneratorModel {
        GeneratorModel { array_arg: Some(rule), ..self }
    }
}

/// Which items of an [`FfiItems`] are skipped: one mark for each item.
pub ghost struct SkipMarks {
    pub aliases: Seq<bool>,
    pub constants: Seq<bool>,
    pub structs: Seq<bool>,
    pub foreign_functions: Seq<bool>,
    pub foreign_statics: Seq<bool>,
}

/// Every item of one kind can be put to the skip rules.
pub open spec fn kind_ready(
    skips: Seq<SkipModel>,
    items: FfiItemsModel,
    kind: ItemKind,
) -> bool {
    match kind {
        ItemKind::Alias => all_ready(skips, items.aliases),
        ItemKind::Const => all_ready(skips, items.constants),
        ItemKind::Struct => all_ready(skips, items.structs),
        ItemKind::Fn => all_ready(skips, items.foreign_functions),
        ItemKind::Static => all_ready(skips, items.foreign_statics),
    }
}

/// Every item can be put to the skip rules.
pub open spec fn filter_ready(skips: Seq<SkipModel>, items: FfiItemsModel) -> bool {
    &&& all_ready(skips, items.aliases)
    &&& all_ready(skips, items.constants)
    &&& all_ready(skips, items.structs)
    &&& all_ready(skips, items.foreign_functions)
    &&& all_ready(skips, items.foreign_statics)
}

/// `marks` says of each item whether the skip rules skip it.
pub open spec fn marks_items(
    skips: Seq<SkipModel>,
    items: FfiItemsModel,
    marks: SkipMarks,
) -> bool {
    &&& marks_answer(skips, items.aliases, marks.aliases)
    &&& marks_answer(skips, items.constants, marks.constants)
    &&& marks_answer(skips, items.structs, marks.structs)
    &&& marks_answer(skips, items.foreign_functions, marks.foreign_functions)
    &&& marks_answer(skips, items.foreign_statics, marks.foreign_statics)
}

/// The items whose mark is `mark`, in order.
pub open spec fn select_items(items: FfiItemsModel, marks: SkipMarks, mark: bool) -> FfiItemsModel {
    FfiItemsModel {
        aliases: select(items.aliases, marks.aliases, mark),
        constants: select(items.constants, marks.constants, mark),
        structs: select(items.structs, marks.structs, mark),
        foreign_functions: select(items.foreign_functions, marks.foreign_functions, mark),
        foreign_statics: select(items.foreign_statics, marks.foreign_statics, mark),
    }
}

/// The lines that report skipped items: aliases, constants, structs, functions, statics.
pub open spec fn report_lines(skipped: FfiItemsModel) -> Seq<Seq<char>> {
    skip_lines("alias"@, skipped.aliases) + skip_lines("const"@, skipped.constants) + skip_lines(
        "struct"@,
        skipped.structs,
    ) + skip_lines("fn"@, skipped.foreign_functions) + skip_lines(
        "static"@,
        skipped.foreign_statics,
    )
}

/// Filtering all of `before` by the skip rules, as `marks` tells, leaves `after`, and reports
/// `lines`.
pub open spec fn filter_outcome(
    generator: GeneratorModel,
    before: FfiItemsModel,
    marks: SkipMarks,
    after: FfiItemsModel,
    lines: Seq<Seq<char>>,
) -> bool {
    &&& marks_items(generator.skips, before, marks)
    &&& after == select_items(before, marks, false)
    &&& lines == if generator.verbose_skip {
        report_lines(select_items(before, marks, true))
    } else {
        Seq::empty()
    }
}

/// Filtering the items of one kind by the skip rules, as `marks` tells, makes `after` of `before`,
/// and reports `lines`. The other kinds stay as they are.
pub open spec fn kind_outcome(
    generator: GeneratorModel,
    before: FfiItemsModel,
    kind: ItemKind,
    marks: Seq<bool>,
    after: FfiItemsModel,
    lines: Seq<Seq<char>>,
) -> bool {
    let rules = generator.skips;
    let verbose = generator.verbose_skip;
    let word = kind.word();
    match kind {
        ItemKind::Alias => {
            &&& after == (FfiItemsModel { aliases: after.aliases, ..before })
            &&& list_outcome(
                rules,
                before.aliases,
                marks,
                after.aliases,
                lines,
                word,
                verbose,
            )
        },
        ItemKind::Const => {
            &&& after == (FfiItemsModel { constants: after.constants, ..before })
            &&& list_outcome(
                rules,
                before.constants,
                marks,
                after.constants,
                lines,
                word,
                verbose,
            )
        },
        ItemKind::Struct => {
            &&& after == (FfiItemsModel { structs: after.structs, ..before })
            &&& list_outcome(
                rules,
                before.structs,
                marks,
                after.structs,
                lines,
                word,
                verbose,
            )
        },
        ItemKind::Fn => {
            &&& after == (FfiItemsModel { foreign_functions: after.foreign_functions, ..before })
            &&& list_outcome(
                rules,
                before.foreign_functions,
                marks,
                after.foreign_functions,
                lines,
                word,
                verbose,
            )
        },
        ItemKind::Static => {
            &&& after == (FfiItemsModel { foreign_statics: after.foreign_statics, ..before })
            &&& list_outcome(
                rules,
                before.foreign_statics,
                marks,
                after.foreign_statics,
                lines,
                word,
                verbose,
            )
        },
    }
}

impl Default for TestGenerator {
    fn default() -> (r: TestGenerator)
        ensures
            r@ == GeneratorModel::blank(),
    {
        let r = TestGenerator {
            headers: Vec::new(),
            target: None,
            includes: Vec::new(),
            out_dir: None,
            flags: Vec::new(),
            defines: Vec::new(),
            mapped_names: Vec::new(),
            skips: Vec::new(),
            verbose_skip: false,
            volatile_items: Vec::new(),
            array_arg: None,
        };
        assert(r@ =~= GeneratorModel::blank());
        r
    }
}

impl TestGenerator {
    /// Creates a new blank test generator.
    pub fn new() -> (r: TestGenerator)
        ensures
            r@ == GeneratorModel::blank(),
    {
        Self::default()
    }

    /// Add a header to be included as part of the generated C file.
    ///
    /// The generated C test will be compiled by a C compiler, and this can be used to ensure that
    /// all the necessary header files are included to test all FFI definitions.
    pub fn header(&mut self, header: &str) -> (r: &mut TestGenerator)
        ensures
            r@ == old(self)@.with_header(header@),
            *final(self) == *final(r),
    {
        self.headers.push(header.to_string());
        assert(self@ =~= old(self)@.with_header(header@));
        self
    }

    /// Configures the target to compile C code for. A later call replaces an earlier one.
    pub fn target(&mut self, target: &str) -> (r: &mut TestGenerator)
        ensures
            r@ == old(self)@.with_target(target@),
            *final(self) == *final(r),
    {
        self.target = Some(target.to_string());
        self
    }

    /// Add a path to the C compiler header lookup path.
    ///
    /// This is useful if the C library is installed to a nonstandard location, to ensure that
    /// compiling the C file succeeds.
    pub fn include_path(&mut self, p: PathBuf) -> (r: &mut TestGenerator)
        ensures
            r@ == old(self)@.with_include(p),
            *final(self) == *final(r),
    {
        self.includes.push(p);
        assert(self@ =~= old(self)@.with_include(p));
        self
    }

    /// Configures the output directory of the generated Rust and C code. A later call replaces an
    /// earlier one.
    pub fn out_dir(&mut self, p: PathBuf) -> (r: &mut TestGenerator)
        ensures
            r@ == old(self)@.with_out_dir(p),
            *final(self) == *final(r),
    {
        self.out_dir = Some(p);
        self
    }

    /// Skipped items are reported if `skip` is `true`.
    pub fn verbose_skip(&mut self, skip: bool) -> (r: &mut TestGenerator)
        ensures
            r@ == old(self)@.with_verbose_skip(skip),
            *final(self) == *final(r),
    {
        self.verbose_skip = skip;
        self
    }

    /// Indicate that a struct field should be marked `volatile`.
    pub fn volatile_field(
        &mut self,
        f: impl Fn(Struct, Field) -> bool + 'static,
    ) -> (r: &mut TestGenerator)
        ensures
            r@ == old(self)@.with_volatile_item(field_volatile(f)),
            *final(self) == *final(r),
    {
        self.volatile_items.push(VolatileItem::of_field(f));
        assert(self@ =~= old(self)@.with_volatile_item(field_volatile(f)));
        self
    }

    /// Indicate that a static should be marked `volatile`.
    pub fn volatile_static(
        &mut self,
        f: impl Fn(Static) -> bool + 'static,
    ) -> (r: &mut TestGenerator)
        ensures
            r@ == old(self)@.with_volatile_item(static_volatile(f)),
            *final(self) == *final(r),
    {
        self.volatile_items.push(VolatileItem::of_static(f));
        assert(self@ =~= old(self)@.with_volatile_item(static_volatile(f)));
        self
    }

    /// Indicate that a function argument should be marked `volatile`.
    pub fn volatile_fn_arg(
        &mut self,
        f: impl Fn(crate::items::Fn, Box<Parameter>) -> bool + 'static,
    ) -> (r: &mut TestGenerator)
        ensures
            r@ == old(self)@.with_volatile_item(fn_arg_volatile(f)),
            *final(self) == *final(r),
    {
        self.volatile_items.push(VolatileItem::of_fn_arg(f));
        assert(self@ =~= old(self)@.with_volatile_item(fn_arg_volatile(f)));
        self
    }

    /// Indicate that a function's return type should be marked `volatile`.
    pub fn volatile_fn_return_type(
        &mut self,
        f: impl Fn(crate::items::Fn) -> bool + 'static,
    ) -> (r: &mut TestGenerator)
        ensures
            r@ == old(self)@.with_volatile_item(fn_return_volatile(f)),
            *final(self) == *final(r),
    {
        self.volatile_items.push(VolatileItem::of_fn_return_type(f));
        assert(self@ =~= old(self)@.with_volatile_item(fn_return_volatile(f)));
        self
    }

    /// Indicate that a function pointer argument is an array. A later call replaces an earlier one.
    ///
    /// The closure should return true if a pointer argument to a function should be generated with
    /// `T foo[]` syntax rather than `T *foo`.
    pub fn array_arg(
        &mut self,
        f: impl Fn(crate::items::Fn, Parameter) -> bool + 'static,
    ) -> (r: &mut TestGenerator)
        ensures
            r@ == old(self)@.with_array_arg(arg_array(f)),
            *final(self) == *final(r),
    {
        self.array_arg = Some(ArrayArg::of_arg(f));
        self
    }

    /// Configures whether the tests for a struct are emitted.
    pub fn skip_struct(&mut self, f: impl Fn(&Struct) -> bool + 'static) -> (r: &mut TestGenerator)
        ensures
            r@ == old(self)@.with_skip(struct_skip(f)),
            *final(self) == *final(r),
    {
        self.skips.push(Skip::of_struct(f));
        assert(self@ =~= old(self)@.with_skip(struct_skip(f)));
        self
    }

    /// Configures whether all tests for a field are skipped or not; see
    /// [`TestGenerator::skips_field`].
    pub fn skip_field(
        &mut self,
        f: impl Fn(&Struct, &Field) -> bool + 'static,
    ) -> (r: &mut TestGenerator)
        ensures
            r@ == old(self)@.with_skip(field_skip(f)),
            *final(self) == *final(r),
    {
        self.skips.push(Skip::of_field(f));
        assert(self@ =~= old(self)@.with_skip(field_skip(f)));
        self
    }

    /// Configures whether all tests for a typedef are skipped or not.
    pub fn skip_alias(&mut self, f: impl Fn(&Type) -> bool + 'static) -> (r: &mut TestGenerator)
        ensures
            r@ == old(self)@.with_skip(alias_skip(f)),
            *final(self) == *final(r),
    {
        self.skips.push(Skip::of_alias(f));
        assert(self@ =~= old(self)@.with_skip(alias_skip(f)));
        self
    }

    /// Configures whether the tests for a constant's value are generated.
    pub fn skip_const(&mut self, f: impl Fn(&Const) -> bool + 'static) -> (r: &mut TestGenerator)
        ensures
            r@ == old(self)@.with_skip(const_skip(f)),
            *final(self) == *final(r),
    {
        self.skips.push(Skip::of_const(f));
        assert(self@ =~= old(self)@.with_skip(const_skip(f)));
        self
    }

    /// Configures whether the tests for a static definition are generated.
    pub fn skip_static(&mut self, f: impl Fn(&Static) -> bool + 'static) -> (r: &mut TestGenerator)
        ensures
            r@ == old(self)@.with_skip(static_skip(f)),
            *final(self) == *final(r),
    {
        self.skips.push(Skip::of_static(f));
        assert(self@ =~= old(self)@.with_skip(static_skip(f)));
        self
    }

    /// Configures whether tests for a function definition are generated.
    pub fn skip_fn(
        &mut self,
        f: impl Fn(&crate::items::Fn) -> bool + 'static,
    ) -> (r: &mut TestGenerator)
        ensures
            r@ == old(self)@.with_skip(fn_skip(f)),
            *final(self) == *final(r),
    {
        self.skips.push(Skip::of_fn(f));
        assert(self@ =~= old(self)@.with_skip(fn_skip(f)));
        self
    }

    /// Add a flag to the C compiler invocation.
    pub fn flag(&mut self, flag: &str) -> (r: &mut TestGenerator)
        ensures
            r@ == old(self)@.with_flag(flag@),
            *final(self) == *final(r),
    {
        self.flags.push(flag.to_string());
        assert(self@ =~= old(self)@.with_flag(flag@));
        self
    }

    /// Set a `-D` flag for the C compiler being called.
    ///
    /// This can be used to define various variables to configure how header files are included or
    /// what APIs are exposed from header files.
    pub fn define(&mut self, k: &str, v: Option<&str>) -> (r: &mut TestGenerator)
        ensures
            r@ == old(self)@.with_define(k@, optional_str(v)),
            *final(self) == *final(r),
    {
        let value = match v {
            Some(v) => Some(v.to_string()),
            None => None,
        };
        self.defines.push((k.to_string(), value));
        assert(self@ =~= old(self)@.with_define(k@, optional_str(v)));
        self
    }

    /// Configures how Rust `const`s names are translated to C.
    pub fn rename_constant(
        &mut self,
        f: impl Fn(&Const) -> Option<String> + 'static,
    ) -> (r: &mut TestGenerator)
        ensures
            r@ == old(self)@.with_mapped_name(const_rename(f)),
            *final(self) == *final(r),
    {
        self.mapped_names.push(MappedName::of_const(f));
        assert(self@ =~= old(self)@.with_mapped_name(const_rename(f)));
        self
    }

    /// Configures how a Rust struct field is translated to a C struct field.
    pub fn rename_field(
        &mut self,
        f: impl Fn(&Struct, &Field) -> Option<String> + 'static,
    ) -> (r: &mut TestGenerator)
        ensures
            r@ == old(self)@.with_mapped_name(field_rename(f)),
            *final(self) == *final(r),
    {
        self.mapped_names.push(MappedName::of_field(f));
        assert(self@ =~= old(self)@.with_mapped_name(field_rename(f)));
        self
    }

    /// Configures the name of a function in the generated C code.
    pub fn rename_fn(
        &mut self,
        f: impl Fn(&crate::items::Fn) -> Option<String> + 'static,
    ) -> (r: &mut TestGenerator)
        ensures
            r@ == old(self)@.with_mapped_name(fn_rename(f)),
            *final(self) == *final(r),
    {
        self.mapped_names.push(MappedName::of_fn(f));
        assert(self@ =~= old(self)@.with_mapped_name(fn_rename(f)));
        self
    }

    /// Configures how a Rust type is translated to a C type.
    pub fn rename_type(
        &mut self,
        f: impl Fn(&str) -> Option<String> + 'static,
    ) -> (r: &mut TestGenerator)
        ensures
            r@ == old(self)@.with_mapped_name(type_rename(f)),
            *final(self) == *final(r),
    {
        self.mapped_names.push(MappedName::of_type(f));
        assert(self@ =~= old(self)@.with_mapped_name(type_rename(f)));
        self
    }

    /// Configures how a Rust struct type is translated to a C struct type.
    pub fn rename_struct_ty(
        &mut self,
        f: impl Fn(&str) -> Option<String> + 'static,
    ) -> (r: &mut TestGenerator)
        ensures
            r@ == old(self)@.with_mapped_name(struct_type_rename(f)),
            *final(self) == *final(r),
    {
        self.mapped_names.push(MappedName::of_struct_type(f));
        assert(self@ =~= old(self)@.with_mapped_name(struct_type_rename(f)));
        self
    }

    /// Configures how a Rust union type is translated to a C union type.
    pub fn rename_union_ty(
        &mut self,
        f: impl Fn(&str) -> Option<String> + 'static,
    ) -> (r: &mut TestGenerator)
        ensures
            r@ == old(self)@.with_mapped_name(union_type_rename(f)),
            *final(self) == *final(r),
    {
        self.mapped_names.push(MappedName::of_union_type(f));
        assert(self@ =~= old(self)@.with_mapped_name(union_type_rename(f)));
        self
    }

    /// Skips entire items such as structs, constants, and aliases from being tested. Does not skip
    /// specific tests or specific fields.
    ///
    /// One kind of item is filtered at a time, in the order of [`ItemKind::next`], so that the
    /// skipped items of one kind can be reported before the rules are asked about the next.
    /// Returns the lines that report them, one for each; none unless
    /// [`TestGenerator::verbose_skip`] is set.
    pub fn filter_ffi_items(&self, kind: ItemKind, ffi_items: &mut FfiItems) -> (lines: Vec<String>)
        requires
            kind_ready(self@.skips, old(ffi_items)@, kind),
        ensures
            exists|marks: Seq<bool>| #[trigger]
                kind_outcome(
                    self@,
                    old(ffi_items)@,
                    kind,
                    marks,
                    final(ffi_items)@,
                    texts(lines@),
                ),
    {
        let rules = &self.skips;
        let label = kind.label();
        let verbose = self.verbose_skip;
        let ghost items = ffi_items@;
        match kind {
            ItemKind::Alias => {
                let mut found: Vec<Type> = Vec::new();
                std::mem::swap(&mut found, &mut ffi_items.aliases);
                let (kept, lines) = filter_items(rules, found, label, verbose);
                ffi_items.aliases = kept;
                proof {
                    let marks = choose|marks: Seq<bool>| #[trigger]
                        list_outcome(
                            self@.skips,
                            items.aliases,
                            marks,
                            kept@,
                            texts(lines@),
                            label@,
                            verbose,
                        );
                    assert(kind_outcome(self@, items, kind, marks, ffi_items@, texts(lines@)));
                }
                lines
            },
            ItemKind::Const => {
                let mut found: Vec<Const> = Vec::new();
                std::mem::swap(&mut found, &mut ffi_items.constants);
                let (kept, lines) = filter_items(rules, found, label, verbose);
                ffi_items.constants = kept;
                proof {
                    let marks = choose|marks: Seq<bool>| #[trigger]
                        list_outcome(
                            self@.skips,
                            items.constants,
                            marks,
                            kept@,
                            texts(lines@),
                            label@,
                            verbose,
                        );
                    assert(kind_outcome(self@, items, kind, marks, ffi_items@, texts(lines@)));
                }
                lines
            },
            ItemKind::Struct => {
                let mut found: Vec<Struct> = Vec::new();
                std::mem::swap(&mut found, &mut ffi_items.structs);
                let (kept, lines) = filter_items(rules, found, label, verbose);
                ffi_items.structs = kept;
                proof {
                    let marks = choose|marks: Seq<bool>| #[trigger]
                        list_outcome(
                            self@.skips,
                            items.structs,
                            marks,
                            kept@,
                            texts(lines@),
                            label@,
                            verbose,
                        );
                    assert(kind_outcome(self@, items, kind, marks, ffi_items@, texts(lines@)));
                }
                lines
            },
            ItemKind::Fn => {
                let mut found: Vec<crate::items::Fn> = Vec::new();
                std::mem::swap(&mut found, &mut ffi_items.foreign_functions);
                let (kept, lines) = filter_items(rules, found, label, verbose);
                ffi_items.foreign_functions = kept;
                proof {
                    let marks = choose|marks: Seq<bool>| #[trigger]
                        list_outcome(
                            self@.skips,
                            items.foreign_functions,
                            marks,
                            kept@,
                            texts(lines@),
                            label@,
                            verbose,
                        );
                    assert(kind_outcome(self@, items, kind, marks, ffi_items@, texts(lines@)));
                }
                lines
            },
            ItemKind::Static => {
                let mut found: Vec<Static> = Vec::new();
                std::mem::swap(&mut found, &mut ffi_items.foreign_statics);
                let (kept, lines) = filter_items(rules, found, label, verbose);
                ffi_items.foreign_statics = kept;
                proof {
                    let marks = choose|marks: Seq<bool>| #[trigger]
                        list_outcome(
                            self@.skips,
                            items.foreign_statics,
                            marks,
                            kept@,
                            texts(lines@),
                            label@,
                            verbose,
                        );
                    assert(kind_outcome(self@, items, kind, marks, ffi_items@, texts(lines@)));
                }
                lines
            },
        }
    }

    /// Whether all tests for a field are skipped.
    pub fn skips_field(&self, s: &Struct, f: &Field) -> (r: bool)
        requires
            skip_ready(self@.skips, MapInput::Field(s, f)),
        ensures
            skip_answer(self@.skips, MapInput::Field(s, f), r),
    {
        is_skipped(&self.skips, &MapInput::Field(s, f))
    }

    /// Maps Rust identifiers or types to C counterparts, or defaults to the original name.
    pub fn map(&self, item: MapInput<'_>) -> (r: Result<String, GenerationError>)
        requires
            name_ready(self@.mapped_names, item),
        ensures
            r matches Ok(name) && name_answer(self@.mapped_names, item, name),
    {
        if let Some(mapped) = mapped_name(&self.mapped_names, &item) {
            return Ok(mapped);
        }
        Ok(unmapped_name(&item))
    }
}

} // verus!
