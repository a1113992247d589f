use crate::text::str_eq;
use vstd::prelude::*;

verus! {

/// The closed set of primitive and well-known type names.
#[derive(Copy, Clone, PartialEq, Eq, Debug, Structural)]
pub enum Atom {
    Bool,
    U8,
    U16,
    U32,
    U64,
    Usize,
    I8,
    I16,
    I32,
    I64,
    Isize,
    F32,
    F64,
    CxxString,
    RustString,
}

/// The atom an identifier spells, if any.
pub open spec fn atom_of(ident: Seq<char>) -> Option<Atom> {
    if ident == "bool"@ {
        Some(Atom::Bool)
    } else if ident == "u8"@ {
        Some(Atom::U8)
    } else if ident == "u16"@ {
        Some(Atom::U16)
    } else if ident == "u32"@ {
        Some(Atom::U32)
    } else if ident == "u64"@ {
        Some(Atom::U64)
    } else if ident == "usize"@ {
        Some(Atom::Usize)
    } else if ident == "i8"@ {
        Some(Atom::I8)
    } else if ident == "i16"@ {
        Some(Atom::I16)
    } else if ident == "i32"@ {
        Some(Atom::I32)
    } else if ident == "i64"@ {
        Some(Atom::I64)
    } else if ident == "isize"@ {
        Some(Atom::Isize)
    } else if ident == "f32"@ {
        Some(Atom::F32)
    } else if ident == "f64"@ {
        Some(Atom::F64)
    } else if ident == "CxxString"@ {
        Some(Atom::CxxString)
    } else if ident == "String"@ {
        Some(Atom::RustString)
    } else {
        None
    }
}

/// The native-side spelling of an atom.
pub open spec fn cxx_name(a: Atom) -> Seq<char> {
    match a {
        Atom::Bool => "bool"@,
        Atom::U8 => "uint8_t"@,
        Atom::U16 => "uint16_t"@,
        Atom::U32 => "uint32_t"@,
        Atom::U64 => "uint64_t"@,
        Atom::Usize => "size_t"@,
        Atom::I8 => "int8_t"@,
        Atom::I16 => "int16_t"@,
        Atom::I32 => "int32_t"@,
        Atom::I64 => "int64_t"@,
        Atom::Isize => "ssize_t"@,
        Atom::F32 => "float"@,
        Atom::F64 => "double"@,
        Atom::CxxString => "::std::string"@,
        Atom::RustString => "::rust::String"@,
    }
}

impl Atom {
    /// Looks up the atom that `ident` spells exactly.
    pub fn from(ident: &str) -> (r: Option<Atom>)
        ensures
            r == atom_of(ident@),
    {
        if str_eq(ident, "bool") {
            Some(Atom::Bool)
        } else if str_eq(ident, "u8") {
            Some(Atom::U8)
        } else if str_eq(ident, "u16") {
            Some(Atom::U16)
        } else if str_eq(ident, "u32") {
            Some(Atom::U32)
        } else if str_eq(ident, "u64") {
            Some(Atom::U64)
        } else if str_eq(ident, "usize") {
            Some(Atom::Usize)
        } else if str_eq(ident, "i8") {
            Some(Atom::I8)
        } else if str_eq(ident, "i16") {
            Some(Atom::I16)
        } else if str_eq(ident, "i32") {
            Some(Atom::I32)
        } else if str_eq(ident, "i64") {
            Some(Atom::I64)
        } else if str_eq(ident, "isize") {
            Some(Atom::Isize)
        } else if str_eq(ident, "f32") {
            Some(Atom::F32)
        } else if str_eq(ident, "f64") {
            Some(Atom::F64)
        } else if str_eq(ident, "CxxString") {
            Some(Atom::CxxString)
        } else if str_eq(ident, "String") {
            Some(Atom::RustString)
        } else {
            None
        }
    }

    /// The native-side spelling of this atom.
    pub fn to_cxx(&self) -> (r: &'static str)
        ensures
            r@ == cxx_name(*self),
    {
        match self {
            Atom::Bool => "bool",
            Atom::U8 => "uint8_t",
            Atom::U16 => "uint16_t",
            Atom::U32 => "uint32_t",
            Atom::U64 => "uint64_t",
            Atom::Usize => "size_t",
            Atom::I8 => "int8_t",
            Atom::I16 => "int16_t",
            Atom::I32 => "int32_t",
            Atom::I64 => "int64_t",
            Atom::Isize => "ssize_t",
            Atom::F32 => "float",
            Atom::F64 => "double",
            Atom::CxxString => "::std::string",
            Atom::RustString => "::rust::String",
        }
    }
}

} // verus!
