use vstd::prelude::*;

verus! {

/// A type as it appears in an interface module.
pub enum Type {
    /// A named type: an atom, a shared struct or an opaque type.
    Ident(String),
    /// A host-owned heap value exposed to the native side.
    RustBox(Box<Type>),
    /// A growable buffer owned by the host side.
    RustVec(Box<Type>),
    /// A native owning pointer.
    UniquePtr(Box<Type>),
    /// A native growable array, only ever reached by reference or owning pointer.
    Vector(Box<Type>),
    /// A reference; `true` for a mutable one.
    Ref(bool, Box<Type>),
    /// A borrowed host string slice.
    Str,
}

/// The mathematical model of a `Type`.
pub enum TypeV {
    Ident(Seq<char>),
    RustBox(Box<TypeV>),
    RustVec(Box<TypeV>),
    UniquePtr(Box<TypeV>),
    Vector(Box<TypeV>),
    Ref(bool, Box<TypeV>),
    Str,
}

pub open spec fn type_view(t: &Type) -> TypeV
    decreases t,
{
    match t {
        Type::Ident(id) => TypeV::Ident(id@),
        Type::RustBox(inner) => TypeV::RustBox(Box::new(type_view(inner))),
        Type::RustVec(inner) => TypeV::RustVec(Box::new(type_view(inner))),
        Type::UniquePtr(inner) => TypeV::UniquePtr(Box::new(type_view(inner))),
        Type::Vector(inner) => TypeV::Vector(Box::new(type_view(inner))),
        Type::Ref(m, inner) => TypeV::Ref(*m, Box::new(type_view(inner))),
        Type::Str => TypeV::Str,
    }
}

/// A named, typed slot: a struct field or a function argument.
pub struct Var {
    pub ident: String,
    pub ty: Type,
}

/// A shared struct; its field order is the layout on both sides.
pub struct Struct {
    pub ident: String,
    pub fields: Vec<Var>,
    /// Documentation, one entry per line.
    pub doc: Vec<String>,
}

/// A function declared in one of the two foreign blocks.
pub struct ExternFn {
    pub ident: String,
    pub args: Vec<Var>,
    pub ret: Option<Type>,
    /// Documentation, one entry per line.
    pub doc: Vec<String>,
}

/// One item of an interface module, in declaration order.
pub enum Api {
    /// A native header to pull in verbatim.
    Header(String),
    Struct(Struct),
    /// An opaque type implemented on the native side.
    CxxType(String),
    /// An opaque type implemented on the host side.
    RustType(String),
    /// A function implemented on the native side.
    CxxFunction(ExternFn),
    /// A function implemented on the host side.
    RustFunction(ExternFn),
}

/// Structural equality of two types.
pub fn type_eq(a: &Type, b: &Type) -> (r: bool)
    ensures
        r == (type_view(a) == type_view(b)),
    decreases a,
{
    match (a, b) {
        (Type::Ident(x), Type::Ident(y)) => crate::text::str_eq(x.as_str(), y.as_str()),
        (Type::RustBox(x), Type::RustBox(y)) => type_eq(x, y),
        (Type::RustVec(x), Type::RustVec(y)) => type_eq(x, y),
        (Type::UniquePtr(x), Type::UniquePtr(y)) => type_eq(x, y),
        (Type::Vector(x), Type::Vector(y)) => type_eq(x, y),
        (Type::Ref(m, x), Type::Ref(n, y)) => *m == *n && type_eq(x, y),
        (Type::Str, Type::Str) => true,
        _ => false,
    }
}

} // verus!

verus! {

/// Deep copy of a type.
pub fn clone_type(t: &Type) -> (r: Type)
    ensures
        type_view(&r) == type_view(t),
    decreases t,
{
    match t {
        Type::Ident(id) => Type::Ident(id.clone()),
        Type::RustBox(x) => Type::RustBox(Box::new(clone_type(x))),
        Type::RustVec(x) => Type::RustVec(Box::new(clone_type(x))),
        Type::UniquePtr(x) => Type::UniquePtr(Box::new(clone_type(x))),
        Type::Vector(x) => Type::Vector(Box::new(clone_type(x))),
        Type::Ref(m, x) => Type::Ref(*m, Box::new(clone_type(x))),
        Type::Str => Type::Str,
    }
}

} // verus!
