//! The structural description of a user-defined type, as plain values.
//!
//! One value of [`DeriveInput`] describes one annotated type declaration:
//! its identifier, its generic parameter list, and its shape (a struct with
//! ordered fields, an enum, or a union). Field types, generic parameter
//! declarations and the `where` clause are carried as verbatim source text:
//! this library never normalizes or rewrites them.

use vstd::prelude::*;

verus! {

/// One field of a struct: an optional name (tuple fields have none) and the
/// verbatim text of its declared type.
pub struct Field {
    pub name: Option<String>,
    pub ty: String,
}

/// One generic parameter of the original type, be it a lifetime, a type or a
/// const parameter.
pub struct GenericParam {
    /// The verbatim declaration, bounds included, as it stands between the
    /// angle brackets of the type's own declaration (`'a`, `T: Clone`,
    /// `const N: usize`).
    pub decl: String,
    /// The form in which the parameter is applied at a use site of the type
    /// (`'a`, `T`, `N`).
    pub applied: String,
}

/// The generic parameter list of the original type, with its optional
/// `where` clause (carried verbatim, `where` keyword included).
pub struct Generics {
    pub params: Vec<GenericParam>,
    pub where_clause: Option<String>,
}

/// The shape of the described type: a struct with its ordered fields, or one
/// of the shapes this library rejects.
pub enum Data {
    Struct { fields: Vec<Field> },
    Enum,
    Union,
}

impl Data {
    /// The fields of a struct shape; the empty sequence on other shapes.
    pub open spec fn fields_of(self) -> Seq<Field> {
        match self {
            Data::Struct { fields } => fields@,
            _ => Seq::empty(),
        }
    }
}

/// A structural description of one user-defined type declaration.
pub struct DeriveInput {
    pub ident: String,
    pub generics: Generics,
    pub data: Data,
}

/// How generated code refers to the crate that defines the trait: by the
/// self-reference keyword when generation happens inside that crate itself,
/// or by the alias under which the consumer imports it.
pub enum CrateRef {
    Itself,
    Named(String),
}

/// The kind of a validation error.
#[derive(Clone, Copy, Debug, PartialEq, Eq, Structural)]
pub enum ErrorKind {
    /// The annotated type is not a struct.
    NotAStruct,
    /// The struct has no fields.
    NoFields,
    /// The struct has two or more fields.
    TooManyFields,
}

/// The syntax node a diagnostic points at: the type's identifier, or the
/// field at the given position (0-based).
#[derive(Clone, Copy, Debug, PartialEq, Eq, Structural)]
pub enum Anchor {
    TypeIdent,
    FieldAt(usize),
}

/// A structured error: a kind, a human-readable message, and the syntax node
/// the message refers to.
#[derive(Debug)]
pub struct Diagnostic {
    pub kind: ErrorKind,
    pub message: String,
    pub anchor: Anchor,
}

/// What a diagnostic produced by extraction holds, for each rejected shape:
/// a non-struct is reported at the type's identifier; a struct with no
/// fields at the type's identifier; a struct with two or more fields at the
/// second field.
pub open spec fn extraction_diag(data: Data, d: Diagnostic) -> bool {
    if !(data is Struct) {
        d.kind == ErrorKind::NotAStruct && d.anchor == Anchor::TypeIdent && d.message@
            == "Newtype can only be derived for structs"@
    } else if data.fields_of().len() == 0 {
        d.kind == ErrorKind::NoFields && d.anchor == Anchor::TypeIdent && d.message@
            == "Newtype must have exactly one field"@
    } else {
        d.kind == ErrorKind::TooManyFields && d.anchor == Anchor::FieldAt(1) && d.message@
            == "Newtype must have exactly one field"@
    }
}

} // verus!
