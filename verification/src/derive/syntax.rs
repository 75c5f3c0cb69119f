//! A declaration as plain values: what the rules read of the syntax tree of
//! the declared item, and where they find fault with it.

use vstd::prelude::*;

verus! {

/// One element of the list of an attribute, as in `#[runtime(shared, io)]`.
#[derive(Clone, Debug, PartialEq, Eq)]
pub enum NestedMeta {
    /// A lone identifier, such as `shared`.
    Word(String),
    /// Anything else: a longer path, a list, a `name = value` or a literal.
    Other,
}

/// The form of an attribute.
#[derive(Clone, Debug, PartialEq, Eq)]
pub enum Meta {
    /// A path alone, as in `#[runtime]`.
    Path,
    /// A path with a list, as in `#[runtime(shared)]`.
    List(Vec<NestedMeta>),
    /// A path with a value, as in `#[runtime = "shared"]`.
    NameValue,
}

/// An attribute of the declared item or of one of its fields.
#[derive(Clone, Debug, PartialEq, Eq)]
pub struct Attribute {
    /// The path of the attribute, where it is a lone identifier.
    pub path: Option<String>,
    /// The form of the attribute, where it has one of the three forms.
    pub meta: Option<Meta>,
}

/// A field of the declared struct.
#[derive(Clone, Debug, PartialEq, Eq)]
pub struct Field {
    /// The name of the field, where it has one.
    pub ident: Option<String>,
    pub attrs: Vec<Attribute>,
}

/// What kind of item is declared.
#[derive(Clone, Debug, PartialEq, Eq)]
pub enum Data {
    Struct(Vec<Field>),
    Enum,
    Union,
}

/// The declared item.
#[derive(Clone, Debug, PartialEq, Eq)]
pub struct DeriveInput {
    pub ident: String,
    pub attrs: Vec<Attribute>,
    pub data: Data,
}

/// An option of the `runtime` attribute.
#[derive(Clone, Copy, Debug, PartialEq, Eq, Structural)]
pub enum RuntimeOption {
    Shared,
    Skip,
    IoDriver,
    TimeDriver,
}

/// What is wrong with a declaration.
#[derive(Clone, Copy, Debug, PartialEq, Eq)]
pub enum ErrorKind {
    /// A `runtime` attribute has none of the three forms of an attribute.
    Syntax,
    /// A `runtime` attribute has no list.
    ExpectedList,
    /// The list of a `runtime` attribute holds something that is no option.
    Unexpected,
    /// An option is given twice.
    Duplicated(RuntimeOption),
    /// A field has no name.
    UnnamedField,
    /// The declared item is no struct.
    NotAStruct,
}

/// A fault in a declaration, and the place of it: the field, the attribute
/// of the field or of the item, and the element of the list of the
/// attribute, each by its position and as far as the fault lies in one.
#[derive(Clone, Copy, Debug, PartialEq, Eq)]
pub struct Error {
    pub kind: ErrorKind,
    pub field: Option<usize>,
    pub attribute: Option<usize>,
    pub element: Option<usize>,
}

impl ErrorKind {
    /// The words of the fault. A `runtime` attribute that has no form has
    /// none here: the parser that gave up on it has its own.
    pub fn message(&self) -> (message: Option<&'static str>)
        ensures
            message is None <==> *self == ErrorKind::Syntax,
            match *self {
                ErrorKind::Syntax => true,
                ErrorKind::ExpectedList => message.unwrap()@ == "expected #[runtime(...)]"@,
                ErrorKind::Unexpected => message.unwrap()@ == "unexpected attribute"@,
                ErrorKind::Duplicated(RuntimeOption::Shared) => message.unwrap()@
                    == "duplicated #[runtime(shared)]"@,
                ErrorKind::Duplicated(RuntimeOption::Skip) => message.unwrap()@
                    == "duplicated #[runtime(skip)]"@,
                ErrorKind::Duplicated(RuntimeOption::IoDriver) => message.unwrap()@
                    == "duplicated #[runtime(io)]"@,
                ErrorKind::Duplicated(RuntimeOption::TimeDriver) => message.unwrap()@
                    == "duplicated #[runtime(time)]"@,
                ErrorKind::UnnamedField => message.unwrap()@
                    == "unnamed fields are not supported"@,
                ErrorKind::NotAStruct => message.unwrap()@ == "only structure are supported"@,
            },
    {
        match self {
            ErrorKind::Syntax => None,
            ErrorKind::ExpectedList => Some("expected #[runtime(...)]"),
            ErrorKind::Unexpected => Some("unexpected attribute"),
            ErrorKind::Duplicated(RuntimeOption::Shared) => Some("duplicated #[runtime(shared)]"),
            ErrorKind::Duplicated(RuntimeOption::Skip) => Some("duplicated #[runtime(skip)]"),
            ErrorKind::Duplicated(RuntimeOption::IoDriver) => Some("duplicated #[runtime(io)]"),
            ErrorKind::Duplicated(RuntimeOption::TimeDriver) => Some(
                "duplicated #[runtime(time)]",
            ),
            ErrorKind::UnnamedField => Some("unnamed fields are not supported"),
            ErrorKind::NotAStruct => Some("only structure are supported"),
        }
    }
}

} // verus!
