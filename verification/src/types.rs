//! The type model: a type, its structural kind, and the fields of a tuple.

use vstd::prelude::*;

verus! {

/// The built-in scalar types.
#[derive(Debug, Clone, Copy)]
pub enum PrimitiveSet {
    Int,
    Float,
    Bool,
    Text,
    Date,
    Time,
    Timestamp,
}

/// A literal value, held as the text that stands for it in source.
#[derive(Debug)]
pub struct Literal {
    /// The literal as it is written.
    pub text: String,
}

/// A type: a structural kind, and the name it was declared under, if any.
#[derive(Debug)]
pub struct Ty {
    /// What the type is made of.
    pub kind: TyKind,
    /// The name that stands for the type wherever it is written.
    pub name: Option<String>,
}

/// The structural kinds of a type.
#[derive(Debug)]
pub enum TyKind {
    /// A built-in scalar type.
    Primitive(PrimitiveSet),
    /// One of several types, each under a label that is not written.
    Union(Vec<(Option<String>, Ty)>),
    /// The type of one literal value.
    Singleton(Literal),
    /// A record of fields.
    Tuple(Vec<TupleField>),
    /// The type of all types, written `set`.
    TypeSet,
    /// A sequence of values of one type.
    Array(Box<Ty>),
    /// A function type.
    Function(TyFunc),
}

/// The signature of a function; a type that is `None` is left to inference.
#[derive(Debug)]
pub struct TyFunc {
    /// The types of the arguments, in order.
    pub args: Vec<Option<Ty>>,
    /// The type of the result.
    pub return_ty: Box<Option<Ty>>,
}

/// A field of a tuple.
#[derive(Debug)]
pub enum TupleField {
    /// Any number of further fields, of the given type if there is one.
    Wildcard(Option<Ty>),
    /// One field, with its name and its type as far as they are known.
    Single(Option<String>, Option<Ty>),
}

impl PrimitiveSet {
    /// The keyword of the primitive type.
    pub fn as_str(&self) -> (tag: &'static str)
        ensures
            tag@ == self.tag(),
    {
        match self {
            PrimitiveSet::Int => "int",
            PrimitiveSet::Float => "float",
            PrimitiveSet::Bool => "bool",
            PrimitiveSet::Text => "text",
            PrimitiveSet::Date => "date",
            PrimitiveSet::Time => "time",
            PrimitiveSet::Timestamp => "timestamp",
        }
    }

    /// The keyword of the primitive type.
    pub open spec fn tag(self) -> Seq<char> {
        match self {
            PrimitiveSet::Int => "int"@,
            PrimitiveSet::Float => "float"@,
            PrimitiveSet::Bool => "bool"@,
            PrimitiveSet::Text => "text"@,
            PrimitiveSet::Date => "date"@,
            PrimitiveSet::Time => "time"@,
            PrimitiveSet::Timestamp => "timestamp"@,
        }
    }
}

impl TupleField {
    /// The type of the field, where it has one.
    pub open spec fn ty(self) -> Option<Ty> {
        match self {
            TupleField::Wildcard(ty) => ty,
            TupleField::Single(_, ty) => ty,
        }
    }
}

} // verus!
