//! Caller-supplied decisions about items, and how each is tied to one kind of item.
use crate::items::{Const, Field, MapInput, Parameter, Static, Struct, Type, VolatileItemKind};
use vstd::prelude::*;

verus! {

/// What is known of a caller-supplied function: which inputs it can be called on, and what it may
/// answer. One input may have several possible answers, as a function need not be deterministic.
#[verifier::reject_recursive_types(I)]
#[verifier::reject_recursive_types(O)]
pub ghost struct Callback<I, O> {
    pub accepts: spec_fn(I) -> bool,
    pub returns: spec_fn(I, O) -> bool,
}

impl<I, O> Callback<I, O> {
    /// Whether the function can be called on `input`.
    pub open spec fn takes(self, input: I) -> bool {
        (self.accepts)(input)
    }

    /// Whether the function may answer `output` when called on `input`.
    pub open spec fn may_return(self, input: I, output: O) -> bool {
        (self.returns)(input, output)
    }
}

/// Decides whether an item is skipped.
pub type SkipModel = Callback<MapInput<'static>, bool>;

/// Gives the C name of an item, or `None` where it has nothing to say.
pub type RenameModel = Callback<MapInput<'static>, Option<String>>;

/// Decides whether an item is volatile.
pub type VolatileModel = Callback<VolatileItemKind, bool>;

/// Decides whether a pointer argument is an array.
pub type ArrayArgModel = Callback<(crate::items::Fn, Parameter), bool>;

/// A decision on whether to skip an item.
trait SkipRule {
    spec fn model(&self) -> SkipModel;

    fn skips(&self, item: &MapInput<'_>) -> (r: bool)
        requires
            self.model().takes(*item),
        ensures
            self.model().may_return(*item, r),
    ;
}

/// A mapping from items to C names.
trait RenameRule {
    spec fn model(&self) -> RenameModel;

    fn renames(&self, item: &MapInput<'_>) -> (r: Option<String>)
        requires
            self.model().takes(*item),
        ensures
            self.model().may_return(*item, r),
    ;
}

/// A decision on whether an item is volatile.
trait VolatileRule {
    spec fn model(&self) -> VolatileModel;

    fn marks(&self, item: VolatileItemKind) -> (r: bool)
        requires
            self.model().takes(item),
        ensures
            self.model().may_return(item, r),
    ;
}

/// A decision on whether a pointer argument is an array.
trait ArrayArgRule {
    spec fn model(&self) -> ArrayArgModel;

    fn is_array(&self, func: crate::items::Fn, arg: Parameter) -> (r: bool)
        requires
            self.model().takes((func, arg)),
        ensures
            self.model().may_return((func, arg), r),
    ;
}

/// A function that determines whether to skip an item or not.
pub struct Skip {
    rule: Box<dyn SkipRule>,
}

/// A function that takes a mappable input and returns its mapping as `Some`; the default name is
/// used on `None`.
pub struct MappedName {
    rule: Box<dyn RenameRule>,
}

/// A function that determines whether a variable or field is volatile.
pub struct VolatileItem {
    rule: Box<dyn VolatileRule>,
}

/// A function that determines whether a function argument is an array.
pub struct ArrayArg {
    rule: Box<dyn ArrayArgRule>,
}

struct StructSkip<F> {
    f: F,
}

/// Asks `f` about structs; skips nothing else.
pub open spec fn struct_skip<F: Fn(&Struct) -> bool>(f: F) -> SkipModel {
    Callback {
        accepts: |item: MapInput<'static>|
            match item {
                MapInput::Struct(struct_) => call_requires(f, (struct_,)),
                _ => true,
            },
        returns: |item: MapInput<'static>, r: bool|
            match item {
                MapInput::Struct(struct_) => call_ensures(f, (struct_,), r),
                _ => !r,
            },
    }
}

impl<F: Fn(&Struct) -> bool> SkipRule for StructSkip<F> {
    closed spec fn model(&self) -> SkipModel {
        struct_skip(self.f)
    }

    fn skips(&self, item: &MapInput<'_>) -> (r: bool) {
        if let MapInput::Struct(struct_) = item {
            (self.f)(struct_)
        } else {
            false
        }
    }
}

struct FieldSkip<F> {
    f: F,
}

/// Asks `f` about fields; skips nothing else.
pub open spec fn field_skip<F: Fn(&Struct, &Field) -> bool>(f: F) -> SkipModel {
    Callback {
        accepts: |item: MapInput<'static>|
            match item {
                MapInput::Field(struct_, field) => call_requires(f, (struct_, field)),
                _ => true,
            },
        returns: |item: MapInput<'static>, r: bool|
            match item {
                MapInput::Field(struct_, field) => call_ensures(f, (struct_, field), r),
                _ => !r,
            },
    }
}

impl<F: Fn(&Struct, &Field) -> bool> SkipRule for FieldSkip<F> {
    closed spec fn model(&self) -> SkipModel {
        field_skip(self.f)
    }

    fn skips(&self, item: &MapInput<'_>) -> (r: bool) {
        if let MapInput::Field(struct_, field) = item {
            (self.f)(struct_, field)
        } else {
            false
        }
    }
}

struct AliasSkip<F> {
    f: F,
}

/// Asks `f` about type aliases; skips nothing else.
pub open spec fn alias_skip<F: Fn(&Type) -> bool>(f: F) -> SkipModel {
    Callback {
        accepts: |item: MapInput<'static>|
            match item {
                MapInput::Alias(alias) => call_requires(f, (alias,)),
                _ => true,
            },
        returns: |item: MapInput<'static>, r: bool|
            match item {
                MapInput::Alias(alias) => call_ensures(f, (alias,), r),
                _ => !r,
            },
    }
}

impl<F: Fn(&Type) -> bool> SkipRule for AliasSkip<F> {
    closed spec fn model(&self) -> SkipModel {
        alias_skip(self.f)
    }

    fn skips(&self, item: &MapInput<'_>) -> (r: bool) {
        if let MapInput::Alias(alias) = item {
            (self.f)(alias)
        } else {
            false
        }
    }
}

struct ConstSkip<F> {
    f: F,
}

/// Asks `f` about constants; skips nothing else.
pub open spec fn const_skip<F: Fn(&Const) -> bool>(f: F) -> SkipModel {
    Callback {
        accepts: |item: MapInput<'static>|
            match item {
                MapInput::Const(constant) => call_requires(f, (constant,)),
                _ => true,
            },
        returns: |item: MapInput<'static>, r: bool|
            match item {
                MapInput::Const(constant) => call_ensures(f, (constant,), r),
                _ => !r,
            },
    }
}

impl<F: Fn(&Const) -> bool> SkipRule for ConstSkip<F> {
    closed spec fn model(&self) -> SkipModel {
        const_skip(self.f)
    }

    fn skips(&self, item: &MapInput<'_>) -> (r: bool) {
        if let MapInput::Const(constant) = item {
            (self.f)(constant)
        } else {
            false
        }
    }
}

struct StaticSkip<F> {
    f: F,
}

/// Asks `f` about statics; skips nothing else.
pub open spec fn static_skip<F: Fn(&Static) -> bool>(f: F) -> SkipModel {
    Callback {
        accepts: |item: MapInput<'static>|
            match item {
                MapInput::Static(static_) => call_requires(f, (static_,)),
                _ => true,
            },
        returns: |item: MapInput<'static>, r: bool|
            match item {
                MapInput::Static(static_) => call_ensures(f, (static_,), r),
                _ => !r,
            },
    }
}

impl<F: Fn(&Static) -> bool> SkipRule for StaticSkip<F> {
    closed spec fn model(&self) -> SkipModel {
        static_skip(self.f)
    }

    fn skips(&self, item: &MapInput<'_>) -> (r: bool) {
        if let MapInput::Static(static_) = item {
            (self.f)(static_)
        } else {
            false
        }
    }
}

struct FnSkip<F> {
    f: F,
}

/// Asks `f` about functions; skips nothing else.
pub open spec fn fn_skip<F: Fn(&crate::items::Fn) -> bool>(f: F) -> SkipModel {
    Callback {
        accepts: |item: MapInput<'static>|
            match item {
                MapInput::Fn(func) => call_requires(f, (func,)),
                _ => true,
            },
        returns: |item: MapInput<'static>, r: bool|
            match item {
                MapInput::Fn(func) => call_ensures(f, (func,), r),
                _ => !r,
            },
    }
}

impl<F: Fn(&crate::items::Fn) -> bool> SkipRule for FnSkip<F> {
    closed spec fn model(&self) -> SkipModel {
        fn_skip(self.f)
    }

    fn skips(&self, item: &MapInput<'_>) -> (r: bool) {
        if let MapInput::Fn(func) = item {
            (self.f)(func)
        } else {
            false
        }
    }
}

struct ConstRename<F> {
    f: F,
}

/// Asks `f` about constants; maps nothing else.
pub open spec fn const_rename<F: Fn(&Const) -> Option<String>>(f: F) -> RenameModel {
    Callback {
        accepts: |item: MapInput<'static>|
            match item {
                MapInput::Const(c) => call_requires(f, (c,)),
                _ => true,
            },
        returns: |item: MapInput<'static>, r: Option<String>|
            match item {
                MapInput::Const(c) => call_ensures(f, (c,), r),
                _ => r is None,
            },
    }
}

impl<F: Fn(&Const) -> Option<String>> RenameRule for ConstRename<F> {
    closed spec fn model(&self) -> RenameModel {
        const_rename(self.f)
    }

    fn renames(&self, item: &MapInput<'_>) -> (r: Option<String>) {
        if let MapInput::Const(c) = item {
            (self.f)(c)
        } else {
            None
        }
    }
}

struct FieldRename<F> {
    f: F,
}

/// Asks `f` about fields; maps nothing else.
pub open spec fn field_rename<F: Fn(&Struct, &Field) -> Option<String>>(f: F) -> RenameModel {
    Callback {
        accepts: |item: MapInput<'static>|
            match item {
                MapInput::Field(s, field) => call_requires(f, (s, field)),
                _ => true,
            },
        returns: |item: MapInput<'static>, r: Option<String>|
            match item {
                MapInput::Field(s, field) => call_ensures(f, (s, field), r),
                _ => r is None,
            },
    }
}

impl<F: Fn(&Struct, &Field) -> Option<String>> RenameRule for FieldRename<F> {
    closed spec fn model(&self) -> RenameModel {
        field_rename(self.f)
    }

    fn renames(&self, item: &MapInput<'_>) -> (r: Option<String>) {
        if let MapInput::Field(s, field) = item {
            (self.f)(s, field)
        } else {
            None
        }
    }
}

struct FnRename<F> {
    f: F,
}

/// Asks `f` about functions; maps nothing else.
pub open spec fn fn_rename<F: Fn(&crate::items::Fn) -> Option<String>>(f: F) -> RenameModel {
    Callback {
        accepts: |item: MapInput<'static>|
            match item {
                MapInput::Fn(func) => call_requires(f, (func,)),
                _ => true,
            },
        returns: |item: MapInput<'static>, r: Option<String>|
            match item {
                MapInput::Fn(func) => call_ensures(f, (func,), r),
                _ => r is None,
            },
    }
}

impl<F: Fn(&crate::items::Fn) -> Option<String>> RenameRule for FnRename<F> {
    closed spec fn model(&self) -> RenameModel {
        fn_rename(self.f)
    }

    fn renames(&self, item: &MapInput<'_>) -> (r: Option<String>) {
        if let MapInput::Fn(func) = item {
            (self.f)(func)
        } else {
            None
        }
    }
}

struct TypeRename<F> {
    f: F,
}

/// Asks `f` about type names; maps nothing else.
pub open spec fn type_rename<F: Fn(&str) -> Option<String>>(f: F) -> RenameModel {
    Callback {
        accepts: |item: MapInput<'static>|
            match item {
                MapInput::Type(ty) => call_requires(f, (ty,)),
                _ => true,
            },
        returns: |item: MapInput<'static>, r: Option<String>|
            match item {
                MapInput::Type(ty) => call_ensures(f, (ty,), r),
                _ => r is None,
            },
    }
}

impl<F: Fn(&str) -> Option<String>> RenameRule for TypeRename<F> {
    closed spec fn model(&self) -> RenameModel {
        type_rename(self.f)
    }

    fn renames(&self, item: &MapInput<'_>) -> (r: Option<String>) {
        if let MapInput::Type(ty) = item {
            (self.f)(ty)
        } else {
            None
        }
    }
}

struct StructTypeRename<F> {
    f: F,
}

/// Asks `f` about struct type names; maps nothing else.
pub open spec fn struct_type_rename<F: Fn(&str) -> Option<String>>(f: F) -> RenameModel {
    Callback {
        accepts: |item: MapInput<'static>|
            match item {
                MapInput::StructType(ty) => call_requires(f, (ty,)),
                _ => true,
            },
        returns: |item: MapInput<'static>, r: Option<String>|
            match item {
                MapInput::StructType(ty) => call_ensures(f, (ty,), r),
                _ => r is None,
            },
    }
}

impl<F: Fn(&str) -> Option<String>> RenameRule for StructTypeRename<F> {
    closed spec fn model(&self) -> RenameModel {
        struct_type_rename(self.f)
    }

    fn renames(&self, item: &MapInput<'_>) -> (r: Option<String>) {
        if let MapInput::StructType(ty) = item {
            (self.f)(ty)
        } else {
            None
        }
    }
}

struct UnionTypeRename<F> {
    f: F,
}

/// Asks `f` about union type names; maps nothing else.
pub open spec fn union_type_rename<F: Fn(&str) -> Option<String>>(f: F) -> RenameModel {
    Callback {
        accepts: |item: MapInput<'static>|
            match item {
                MapInput::UnionType(ty) => call_requires(f, (ty,)),
                _ => true,
            },
        returns: |item: MapInput<'static>, r: Option<String>|
            match item {
                MapInput::UnionType(ty) => call_ensures(f, (ty,), r),
                _ => r is None,
            },
    }
}

impl<F: Fn(&str) -> Option<String>> RenameRule for UnionTypeRename<F> {
    closed spec fn model(&self) -> RenameModel {
        union_type_rename(self.f)
    }

    fn renames(&self, item: &MapInput<'_>) -> (r: Option<String>) {
        if let MapInput::UnionType(ty) = item {
            (self.f)(ty)
        } else {
            None
        }
    }
}

struct FieldVolatile<F> {
    f: F,
}

/// Asks `f` about struct fields; marks nothing else.
pub open spec fn field_volatile<F: Fn(Struct, Field) -> bool>(f: F) -> VolatileModel {
    Callback {
        accepts: |item: VolatileItemKind|
            match item {
                VolatileItemKind::StructField(s, field) => call_requires(f, (s, field)),
                _ => true,
            },
        returns: |item: VolatileItemKind, r: bool|
            match item {
                VolatileItemKind::StructField(s, field) => call_ensures(f, (s, field), r),
                _ => !r,
            },
    }
}

impl<F: Fn(Struct, Field) -> bool> VolatileRule for FieldVolatile<F> {
    closed spec fn model(&self) -> VolatileModel {
        field_volatile(self.f)
    }

    fn marks(&self, item: VolatileItemKind) -> (r: bool) {
        if let VolatileItemKind::StructField(s, field) = item {
            (self.f)(s, field)
        } else {
            false
        }
    }
}

struct StaticVolatile<F> {
    f: F,
}

/// Asks `f` about statics; marks nothing else.
pub open spec fn static_volatile<F: Fn(Static) -> bool>(f: F) -> VolatileModel {
    Callback {
        accepts: |item: VolatileItemKind|
            match item {
                VolatileItemKind::Static(s) => call_requires(f, (s,)),
                _ => true,
            },
        returns: |item: VolatileItemKind, r: bool|
            match item {
                VolatileItemKind::Static(s) => call_ensures(f, (s,), r),
                _ => !r,
            },
    }
}

impl<F: Fn(Static) -> bool> VolatileRule for StaticVolatile<F> {
    closed spec fn model(&self) -> VolatileModel {
        static_volatile(self.f)
    }

    fn marks(&self, item: VolatileItemKind) -> (r: bool) {
        if let VolatileItemKind::Static(s) = item {
            (self.f)(s)
        } else {
            false
        }
    }
}

struct FnArgVolatile<F> {
    f: F,
}

/// Asks `f` about function arguments; marks nothing else.
pub open spec fn fn_arg_volatile<F: Fn(crate::items::Fn, Box<Parameter>) -> bool>(f: F) -> VolatileModel {
    Callback {
        accepts: |item: VolatileItemKind|
            match item {
                VolatileItemKind::FnArgument(func, param) => call_requires(f, (func, param)),
                _ => true,
            },
        returns: |item: VolatileItemKind, r: bool|
            match item {
                VolatileItemKind::FnArgument(func, param) => call_ensures(f, (func, param), r),
                _ => !r,
            },
    }
}

impl<F: Fn(crate::items::Fn, Box<Parameter>) -> bool> VolatileRule for FnArgVolatile<F> {
    closed spec fn model(&self) -> VolatileModel {
        fn_arg_volatile(self.f)
    }

    fn marks(&self, item: VolatileItemKind) -> (r: bool) {
        if let VolatileItemKind::FnArgument(func, param) = item {
            (self.f)(func, param)
        } else {
            false
        }
    }
}

struct FnReturnVolatile<F> {
    f: F,
}

/// Asks `f` about return types; marks nothing else.
pub open spec fn fn_return_volatile<F: Fn(crate::items::Fn) -> bool>(f: F) -> VolatileModel {
    Callback {
        accepts: |item: VolatileItemKind|
            match item {
                VolatileItemKind::FnReturnType(func) => call_requires(f, (func,)),
                _ => true,
            },
        returns: |item: VolatileItemKind, r: bool|
            match item {
                VolatileItemKind::FnReturnType(func) => call_ensures(f, (func,), r),
                _ => !r,
            },
    }
}

impl<F: Fn(crate::items::Fn) -> bool> VolatileRule for FnReturnVolatile<F> {
    closed spec fn model(&self) -> VolatileModel {
        fn_return_volatile(self.f)
    }

    fn marks(&self, item: VolatileItemKind) -> (r: bool) {
        if let VolatileItemKind::FnReturnType(func) = item {
            (self.f)(func)
        } else {
            false
        }
    }
}

struct ArgArray<F> {
    f: F,
}

/// Asks `f` about every argument.
pub open spec fn arg_array<F: Fn(crate::items::Fn, Parameter) -> bool>(f: F) -> ArrayArgModel {
    Callback {
        accepts: |input: (crate::items::Fn, Parameter)| call_requires(f, input),
        returns: |input: (crate::items::Fn, Parameter), r: bool| call_ensures(f, input, r),
    }
}

impl<F: Fn(crate::items::Fn, Parameter) -> bool> ArrayArgRule for ArgArray<F> {
    closed spec fn model(&self) -> ArrayArgModel {
        arg_array(self.f)
    }

    fn is_array(&self, func: crate::items::Fn, arg: Parameter) -> (r: bool) {
        (self.f)(func, arg)
    }
}

impl Skip {
    /// What the function may answer.
    pub closed spec fn model(&self) -> SkipModel {
        self.rule.model()
    }

    pub(crate) fn of_struct<F: Fn(&Struct) -> bool + 'static>(f: F) -> (r: Skip)
        ensures
            r.model() == struct_skip(f),
    {
        let rule = Box::new(StructSkip { f });
        Skip { rule }
    }

    pub(crate) fn of_field<F: Fn(&Struct, &Field) -> bool + 'static>(f: F) -> (r: Skip)
        ensures
            r.model() == field_skip(f),
    {
        let rule = Box::new(FieldSkip { f });
        Skip { rule }
    }

    pub(crate) fn of_alias<F: Fn(&Type) -> bool + 'static>(f: F) -> (r: Skip)
        ensures
            r.model() == alias_skip(f),
    {
        let rule = Box::new(AliasSkip { f });
        Skip { rule }
    }

    pub(crate) fn of_const<F: Fn(&Const) -> bool + 'static>(f: F) -> (r: Skip)
        ensures
            r.model() == const_skip(f),
    {
        let rule = Box::new(ConstSkip { f });
        Skip { rule }
    }

    pub(crate) fn of_static<F: Fn(&Static) -> bool + 'static>(f: F) -> (r: Skip)
        ensures
            r.model() == static_skip(f),
    {
        let rule = Box::new(StaticSkip { f });
        Skip { rule }
    }

    pub(crate) fn of_fn<F: Fn(&crate::items::Fn) -> bool + 'static>(f: F) -> (r: Skip)
        ensures
            r.model() == fn_skip(f),
    {
        let rule = Box::new(FnSkip { f });
        Skip { rule }
    }

    /// Whether the function skips `item`.
    pub fn applies(&self, item: &MapInput<'_>) -> (r: bool)
        requires
            self.model().takes(*item),
        ensures
            self.model().may_return(*item, r),
    {
        self.rule.skips(item)
    }
}

impl MappedName {
    /// What the function may answer.
    pub closed spec fn model(&self) -> RenameModel {
        self.rule.model()
    }

    pub(crate) fn of_const<F: Fn(&Const) -> Option<String> + 'static>(f: F) -> (r: MappedName)
        ensures
            r.model() == const_rename(f),
    {
        let rule = Box::new(ConstRename { f });
        MappedName { rule }
    }

    pub(crate) fn of_field<F: Fn(&Struct, &Field) -> Option<String> + 'static>(f: F) -> (r: MappedName)
        ensures
            r.model() == field_rename(f),
    {
        let rule = Box::new(FieldRename { f });
        MappedName { rule }
    }

    pub(crate) fn of_fn<F: Fn(&crate::items::Fn) -> Option<String> + 'static>(f: F) -> (r: MappedName)
        ensures
            r.model() == fn_rename(f),
    {
        let rule = Box::new(FnRename { f });
        MappedName { rule }
    }

    pub(crate) fn of_type<F: Fn(&str) -> Option<String> + 'static>(f: F) -> (r: MappedName)
        ensures
            r.model() == type_rename(f),
    {
        let rule = Box::new(TypeRename { f });
        MappedName { rule }
    }

    pub(crate) fn of_struct_type<F: Fn(&str) -> Option<String> + 'static>(f: F) -> (r: MappedName)
        ensures
            r.model() == struct_type_rename(f),
    {
        let rule = Box::new(StructTypeRename { f });
        MappedName { rule }
    }

    pub(crate) fn of_union_type<F: Fn(&str) -> Option<String> + 'static>(f: F) -> (r: MappedName)
        ensures
            r.model() == union_type_rename(f),
    {
        let rule = Box::new(UnionTypeRename { f });
        MappedName { rule }
    }

    /// The name that the function gives to `item`.
    pub fn apply(&self, item: &MapInput<'_>) -> (r: Option<String>)
        requires
            self.model().takes(*item),
        ensures
            self.model().may_return(*item, r),
    {
        self.rule.renames(item)
    }
}

impl VolatileItem {
    /// What the function may answer.
    pub closed spec fn model(&self) -> VolatileModel {
        self.rule.model()
    }

    pub(crate) fn of_field<F: Fn(Struct, Field) -> bool + 'static>(f: F) -> (r: VolatileItem)
        ensures
            r.model() == field_volatile(f),
    {
        let rule = Box::new(FieldVolatile { f });
        VolatileItem { rule }
    }

    pub(crate) fn of_static<F: Fn(Static) -> bool + 'static>(f: F) -> (r: VolatileItem)
        ensures
            r.model() == static_volatile(f),
    {
        let rule = Box::new(StaticVolatile { f });
        VolatileItem { rule }
    }

    pub(crate) fn of_fn_arg<F: Fn(crate::items::Fn, Box<Parameter>) -> bool + 'static>(f: F) -> (r: VolatileItem)
        ensures
            r.model() == fn_arg_volatile(f),
    {
        let rule = Box::new(FnArgVolatile { f });
        VolatileItem { rule }
    }

    pub(crate) fn of_fn_return_type<F: Fn(crate::items::Fn) -> bool + 'static>(f: F) -> (r: VolatileItem)
        ensures
            r.model() == fn_return_volatile(f),
    {
        let rule = Box::new(FnReturnVolatile { f });
        VolatileItem { rule }
    }

    /// Whether the function takes `item` to be volatile.
    pub fn applies(&self, item: VolatileItemKind) -> (r: bool)
        requires
            self.model().takes(item),
        ensures
            self.model().may_return(item, r),
    {
        self.rule.marks(item)
    }
}

impl ArrayArg {
    /// What the function may answer.
    pub closed spec fn model(&self) -> ArrayArgModel {
        self.rule.model()
    }

    pub(crate) fn of_arg<F: Fn(crate::items::Fn, Parameter) -> bool + 'static>(f: F) -> (r: ArrayArg)
        ensures
            r.model() == arg_array(f),
    {
        let rule = Box::new(ArgArray { f });
        ArrayArg { rule }
    }

    /// Whether the function takes `arg` of `func` to be an array.
    pub fn applies(&self, func: crate::items::Fn, arg: Parameter) -> (r: bool)
        requires
            self.model().takes((func, arg)),
        ensures
            self.model().may_return((func, arg), r),
    {
        self.rule.is_array(func, arg)
    }
}

} // verus!
