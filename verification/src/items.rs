//! The foreign-interface items that a test suite is generated for.
use vstd::prelude::*;

verus! {

/// A constant of the crate under test.
#[derive(Clone, Debug, PartialEq, Eq)]
pub struct Const {
    pub ident: String,
}

/// A field of a struct.
#[derive(Clone, Debug, PartialEq, Eq)]
pub struct Field {
    pub ident: String,
}

/// A foreign function.
#[derive(Clone, Debug, PartialEq, Eq)]
pub struct Fn {
    pub ident: String,
}

/// A parameter of a foreign function.
#[derive(Clone, Debug, PartialEq, Eq)]
pub struct Parameter {
    pub ident: String,
}

/// A foreign static.
#[derive(Clone, Debug, PartialEq, Eq)]
pub struct Static {
    pub ident: String,
}

/// A struct of the crate under test.
#[derive(Clone, Debug, PartialEq, Eq)]
pub struct Struct {
    pub ident: String,
}

/// A type alias of the crate under test.
#[derive(Clone, Debug, PartialEq, Eq)]
pub struct Type {
    pub ident: String,
}

impl Const {
    /// The name of the constant.
    pub fn ident(&self) -> (r: &str)
        ensures
            r@ == self.ident@,
    {
        self.ident.as_str()
    }
}

impl Field {
    /// The name of the field.
    pub fn ident(&self) -> (r: &str)
        ensures
            r@ == self.ident@,
    {
        self.ident.as_str()
    }
}

impl Fn {
    /// The name of the function.
    pub fn ident(&self) -> (r: &str)
        ensures
            r@ == self.ident@,
    {
        self.ident.as_str()
    }
}

impl Parameter {
    /// The name of the parameter.
    pub fn ident(&self) -> (r: &str)
        ensures
            r@ == self.ident@,
    {
        self.ident.as_str()
    }
}

impl Static {
    /// The name of the static.
    pub fn ident(&self) -> (r: &str)
        ensures
            r@ == self.ident@,
    {
        self.ident.as_str()
    }
}

impl Struct {
    /// The name of the struct.
    pub fn ident(&self) -> (r: &str)
        ensures
            r@ == self.ident@,
    {
        self.ident.as_str()
    }
}

impl Type {
    /// The name of the alias.
    pub fn ident(&self) -> (r: &str)
        ensures
            r@ == self.ident@,
    {
        self.ident.as_str()
    }
}

/// What a name can be mapped for, or a test skipped for.
#[derive(Clone, Copy, Debug)]
pub enum MapInput<'a> {
    /// A struct, as an item.
    Struct(&'a Struct),
    /// A foreign function.
    Fn(&'a Fn),
    /// A field, with the struct that it belongs to.
    Field(&'a Struct, &'a Field),
    /// A type alias.
    Alias(&'a Type),
    /// A constant.
    Const(&'a Const),
    /// A foreign static.
    Static(&'a Static),
    /// The name of a type.
    Type(&'a str),
    /// The name of a type that C knows as a struct.
    StructType(&'a str),
    /// The name of a type that C knows as a union.
    UnionType(&'a str),
}

/// What can be marked `volatile`.
#[derive(Clone, Debug, PartialEq, Eq)]
pub enum VolatileItemKind {
    /// A field, with the struct that it belongs to.
    StructField(Struct, Field),
    /// A foreign static.
    Static(Static),
    /// A parameter, with the function that it belongs to.
    FnArgument(Fn, Box<Parameter>),
    /// The type that a function returns.
    FnReturnType(Fn),
}

/// A kind of item that is listed in [`FfiItems`].
#[derive(Clone, Copy, Debug, PartialEq, Eq, Structural)]
pub enum ItemKind {
    /// A type alias.
    Alias,
    /// A constant.
    Const,
    /// A struct.
    Struct,
    /// A foreign function.
    Fn,
    /// A foreign static.
    Static,
}

impl ItemKind {
    /// The word for the kind in reports.
    pub open spec fn word(self) -> Seq<char> {
        match self {
            ItemKind::Alias => "alias"@,
            ItemKind::Const => "const"@,
            ItemKind::Struct => "struct"@,
            ItemKind::Fn => "fn"@,
            ItemKind::Static => "static"@,
        }
    }

    /// The word for the kind in reports.
    pub fn label(self) -> (r: &'static str)
        ensures
            r@ == self.word(),
    {
        match self {
            ItemKind::Alias => "alias",
            ItemKind::Const => "const",
            ItemKind::Struct => "struct",
            ItemKind::Fn => "fn",
            ItemKind::Static => "static",
        }
    }

    /// The kind that is filtered after this one.
    pub open spec fn successor(self) -> Option<ItemKind> {
        match self {
            ItemKind::Alias => Some(ItemKind::Const),
            ItemKind::Const => Some(ItemKind::Struct),
            ItemKind::Struct => Some(ItemKind::Fn),
            ItemKind::Fn => Some(ItemKind::Static),
            ItemKind::Static => None,
        }
    }

    /// The kind that is filtered after this one.
    pub fn next(self) -> (r: Option<ItemKind>)
        ensures
            r == self.successor(),
    {
        match self {
            ItemKind::Alias => Some(ItemKind::Const),
            ItemKind::Const => Some(ItemKind::Struct),
            ItemKind::Struct => Some(ItemKind::Fn),
            ItemKind::Fn => Some(ItemKind::Static),
            ItemKind::Static => None,
        }
    }
}

/// An item that is listed in [`FfiItems`] and can be skipped as a whole.
pub trait FfiItem: Sized {
    /// The item as skip rules see it.
    spec fn as_input(&self) -> MapInput<'_>;

    /// The name of the item.
    spec fn name(&self) -> Seq<char>;

    /// Hands the item to a skip rule.
    fn input(&self) -> (r: MapInput<'_>)
        ensures
            r == self.as_input(),
    ;

    /// The name that is reported when the item is skipped.
    fn item_name(&self) -> (r: &str)
        ensures
            r@ == self.name(),
    ;
}

impl FfiItem for Type {
    open spec fn as_input(&self) -> MapInput<'_> {
        MapInput::Alias(self)
    }

    open spec fn name(&self) -> Seq<char> {
        self.ident@
    }

    fn input(&self) -> (r: MapInput<'_>) {
        MapInput::Alias(self)
    }

    fn item_name(&self) -> (r: &str) {
        self.ident()
    }
}

impl FfiItem for Const {
    open spec fn as_input(&self) -> MapInput<'_> {
        MapInput::Const(self)
    }

    open spec fn name(&self) -> Seq<char> {
        self.ident@
    }

    fn input(&self) -> (r: MapInput<'_>) {
        MapInput::Const(self)
    }

    fn item_name(&self) -> (r: &str) {
        self.ident()
    }
}

impl FfiItem for Struct {
    open spec fn as_input(&self) -> MapInput<'_> {
        MapInput::Struct(self)
    }

    open spec fn name(&self) -> Seq<char> {
        self.ident@
    }

    fn input(&self) -> (r: MapInput<'_>) {
        MapInput::Struct(self)
    }

    fn item_name(&self) -> (r: &str) {
        self.ident()
    }
}

impl FfiItem for Fn {
    open spec fn as_input(&self) -> MapInput<'_> {
        MapInput::Fn(self)
    }

    open spec fn name(&self) -> Seq<char> {
        self.ident@
    }

    fn input(&self) -> (r: MapInput<'_>) {
        MapInput::Fn(self)
    }

    fn item_name(&self) -> (r: &str) {
        self.ident()
    }
}

impl FfiItem for Static {
    open spec fn as_input(&self) -> MapInput<'_> {
        MapInput::Static(self)
    }

    open spec fn name(&self) -> Seq<char> {
        self.ident@
    }

    fn input(&self) -> (r: MapInput<'_>) {
        MapInput::Static(self)
    }

    fn item_name(&self) -> (r: &str) {
        self.ident()
    }
}

/// The items found in a crate, in the order in which they were found.
#[derive(Clone, Debug, PartialEq, Eq)]
pub struct FfiItems {
    pub aliases: Vec<Type>,
    pub constants: Vec<Const>,
    pub structs: Vec<Struct>,
    pub foreign_functions: Vec<Fn>,
    pub foreign_statics: Vec<Static>,
}

/// The contents of [`FfiItems`].
#[verifier::ext_equal]
pub ghost struct FfiItemsModel {
    pub aliases: Seq<Type>,
    pub constants: Seq<Const>,
    pub structs: Seq<Struct>,
    pub foreign_functions: Seq<Fn>,
    pub foreign_statics: Seq<Static>,
}

impl FfiItemsModel {
    /// No items at all.
    pub open spec fn empty() -> FfiItemsModel {
        FfiItemsModel {
            aliases: Seq::empty(),
            constants: Seq::empty(),
            structs: Seq::empty(),
            foreign_functions: Seq::empty(),
            foreign_statics: Seq::empty(),
        }
    }
}

impl View for FfiItems {
    type V = FfiItemsModel;

    open spec fn view(&self) -> FfiItemsModel {
        FfiItemsModel {
            aliases: self.aliases@,
            constants: self.constants@,
            structs: self.structs@,
            foreign_functions: self.foreign_functions@,
            foreign_statics: self.foreign_statics@,
        }
    }
}

impl FfiItems {
    /// Creates an empty collection of items.
    pub fn new() -> (r: FfiItems)
        ensures
            r@ == FfiItemsModel::empty(),
    {
        FfiItems {
            aliases: Vec::new(),
            constants: Vec::new(),
            structs: Vec::new(),
            foreign_functions: Vec::new(),
            foreign_statics: Vec::new(),
        }
    }
}

} // verus!
