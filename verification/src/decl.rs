//! The input side of the generator: record declarations as plain data.

use vstd::prelude::*;

verus! {

/// One field of a record declaration: its name, if it has one (tuple-style
/// fields carry none), and the source text of its type.
pub struct FieldDecl {
    pub name: Option<String>,
    pub ty: String,
}

/// A record declaration: a type name and its fields in declaration order.
pub struct RecordDecl {
    pub name: String,
    pub fields: Vec<FieldDecl>,
}

/// The shapes of declaration the generator can be handed. Only a plain
/// named-field record is accepted; the other shapes are refused whole.
pub enum InputDecl {
    Struct(RecordDecl),
    Enum,
    Union,
}

/// Why the generator refuses an input.
#[derive(Clone, Copy, Debug, PartialEq, Eq, Structural)]
pub enum GenError {
    /// The declaration is not a record type at all.
    NotAStruct,
    /// The record has a field without a name.
    UnnamedField,
}

/// Every field of the sequence carries a name.
pub open spec fn all_named(fields: Seq<FieldDecl>) -> bool {
    forall|i: int| 0 <= i < fields.len() ==> (#[trigger] fields[i].name) is Some
}

} // verus!
