use crate::atom::{atom_of, Atom};
use crate::text::{escape, escape_str};
use crate::glue::{
    generic_decls_text, generic_instantiations_text, write_generic_decls,
    write_generic_instantiations,
};
use crate::mangle::ns_view;
use crate::out::{line, OutFile};
use crate::syntax::{type_view, Api, Type, TypeV};
use crate::types::{StructDefs, Types};
use crate::write::{
    cxx_function_shim_text, rust_function_decl_text, rust_function_shim_text, same_frame,
    struct_text, write_cxx_function_shim, write_rust_function_decl, write_rust_function_shim,
    write_struct,
};
use vstd::prelude::*;

verus! {

pub open spec fn header_item(a: Api) -> Seq<char> {
    match a {
        Api::Header(h) => line("#include \""@ + escape(h@) + "\""@),
        _ => Seq::empty(),
    }
}

pub open spec fn extra_header_item(h: String) -> Seq<char> {
    line("#include \""@ + h@ + "\""@)
}

pub open spec fn namespace_open(seg: String) -> Seq<char> {
    line("namespace "@ + seg@ + " {"@)
}

pub open spec fn forward_decl(a: Api) -> Seq<char> {
    match a {
        Api::Struct(s) => line("struct "@ + s.ident@ + ";"@),
        Api::CxxType(id) => line("using "@ + id@ + " = "@ + id@ + ";"@),
        Api::RustType(id) => line("struct "@ + id@ + ";"@),
        _ => Seq::empty(),
    }
}

#[verifier::opaque]
pub open spec fn struct_def(a: Api) -> Seq<char> {
    match a {
        Api::Struct(s) => "\n"@ + struct_text(s),
        _ => Seq::empty(),
    }
}

#[verifier::opaque]
pub open spec fn extern_fn(
    ns: Seq<Seq<char>>,
    structs: StructDefs,
    ann: Option<String>,
    a: Api,
) -> Seq<char> {
    match a {
        Api::CxxFunction(f) => "\n"@ + cxx_function_shim_text(ns, structs, ann, f),
        Api::RustFunction(f) => "\n"@ + rust_function_decl_text(ns, structs, f),
        _ => Seq::empty(),
    }
}

#[verifier::opaque]
pub open spec fn rust_shim(ns: Seq<Seq<char>>, structs: StructDefs, header: bool, a: Api) -> Seq<
    char,
> {
    match a {
        Api::RustFunction(f) => "\n"@ + rust_function_shim_text(ns, structs, header, f),
        _ => Seq::empty(),
    }
}

/// The closing lines of the namespace segments, innermost first.
pub open spec fn namespace_closes(xs: Seq<String>) -> Seq<char>
    decreases xs.len(),
{
    if xs.len() == 0 {
        Seq::empty()
    } else {
        line("} // namespace "@ + xs.last()@) + namespace_closes(xs.drop_last())
    }
}

fn write_namespace_closes(out: &mut OutFile, ns: &Vec<String>)
    ensures
        final(out).content@ == old(out).content@ + namespace_closes(ns@),
        same_frame(*final(out), *old(out)),
{
    let mut i: usize = ns.len();
    assert(ns@.subrange(0, i as int) =~= ns@);
    while i > 0
        invariant
            i <= ns@.len(),
            out.content@ + namespace_closes(ns@.subrange(0, i as int)) == old(out).content@
                + namespace_closes(ns@),
            same_frame(*out, *old(out)),
        decreases i,
    {
        let ghost before = out.content@;
        out.write("} // namespace ");
        out.writeln(ns[i - 1].as_str());
        proof {
            let t = ns@.subrange(0, i as int);
            assert(t.drop_last() =~= ns@.subrange(0, i as int - 1));
            assert(out.content@ + namespace_closes(t.drop_last()) =~= before + namespace_closes(t));
        }
        i = i - 1;
    }
    assert(namespace_closes(ns@.subrange(0, 0)) =~= Seq::<char>::empty());
    assert(out.content@ =~= out.content@ + namespace_closes(ns@.subrange(0, 0)));
}

/// The native headers an interface module names, in order.
pub open spec fn header_lines(xs: Seq<Api>) -> Seq<char>
    decreases xs.len(),
{
    if xs.len() == 0 {
        Seq::empty()
    } else {
        header_lines(xs.drop_last()) + header_item(xs.last())
    }
}

fn write_header_lines(out: &mut OutFile, apis: &Vec<Api>)
    ensures
        final(out).content@ == old(out).content@ + header_lines(apis@),
        same_frame(*final(out), *old(out)),
{
    let ghost xs = apis@;
    let mut i: usize = 0;
    while i < apis.len()
        invariant
            i <= xs.len(),
            xs == apis@,
            out.content@ == old(out).content@ + header_lines(xs.subrange(0, i as int)),
            same_frame(*out, *old(out)),
        decreases xs.len() - i,
    {
        let ghost before = out.content@;
        let x = &apis[i];
        match x {
            Api::Header(h) => {
                out.write("#include \"");
                let escaped = escape_str(h.as_str());
                out.write(escaped.as_str());
                out.writeln("\"");
            },
            _ => {},
        }
        assert(out.content@ =~= before + header_item(xs[i as int]));
        proof {
            let t = xs.subrange(0, i as int + 1);
            assert(t.drop_last() =~= xs.subrange(0, i as int));
        }
        i = i + 1;
    }
    assert(xs.subrange(0, xs.len() as int) =~= xs);
}

/// Headers requested by the caller, in order.
pub open spec fn extra_header_lines(xs: Seq<String>) -> Seq<char>
    decreases xs.len(),
{
    if xs.len() == 0 {
        Seq::empty()
    } else {
        extra_header_lines(xs.drop_last()) + extra_header_item(xs.last())
    }
}

fn write_extra_header_lines(out: &mut OutFile, names: &Vec<String>)
    ensures
        final(out).content@ == old(out).content@ + extra_header_lines(names@),
        same_frame(*final(out), *old(out)),
{
    let ghost xs = names@;
    let mut i: usize = 0;
    while i < names.len()
        invariant
            i <= xs.len(),
            xs == names@,
            out.content@ == old(out).content@ + extra_header_lines(xs.subrange(0, i as int)),
            same_frame(*out, *old(out)),
        decreases xs.len() - i,
    {
        let ghost before = out.content@;
        let x = &names[i];
        out.write("#include \"");
        out.write(x.as_str());
        out.writeln("\"");
        assert(out.content@ =~= before + extra_header_item(xs[i as int]));
        proof {
            let t = xs.subrange(0, i as int + 1);
            assert(t.drop_last() =~= xs.subrange(0, i as int));
        }
        i = i + 1;
    }
    assert(xs.subrange(0, xs.len() as int) =~= xs);
}

/// The opening lines of the namespace segments, outermost first.
pub open spec fn namespace_opens(xs: Seq<String>) -> Seq<char>
    decreases xs.len(),
{
    if xs.len() == 0 {
        Seq::empty()
    } else {
        namespace_opens(xs.drop_last()) + namespace_open(xs.last())
    }
}

fn write_namespace_opens(out: &mut OutFile, ns: &Vec<String>)
    ensures
        final(out).content@ == old(out).content@ + namespace_opens(ns@),
        same_frame(*final(out), *old(out)),
{
    let ghost xs = ns@;
    let mut i: usize = 0;
    while i < ns.len()
        invariant
            i <= xs.len(),
            xs == ns@,
            out.content@ == old(out).content@ + namespace_opens(xs.subrange(0, i as int)),
            same_frame(*out, *old(out)),
        decreases xs.len() - i,
    {
        let ghost before = out.content@;
        let x = &ns[i];
        out.write("namespace ");
        out.write(x.as_str());
        out.writeln(" {");
        assert(out.content@ =~= before + namespace_open(xs[i as int]));
        proof {
            let t = xs.subrange(0, i as int + 1);
            assert(t.drop_last() =~= xs.subrange(0, i as int));
        }
        i = i + 1;
    }
    assert(xs.subrange(0, xs.len() as int) =~= xs);
}

/// Forward declarations of the structs and opaque types, in order.
pub open spec fn forward_decls(xs: Seq<Api>) -> Seq<char>
    decreases xs.len(),
{
    if xs.len() == 0 {
        Seq::empty()
    } else {
        forward_decls(xs.drop_last()) + forward_decl(xs.last())
    }
}

fn write_forward_decls(out: &mut OutFile, apis: &Vec<Api>)
    ensures
        final(out).content@ == old(out).content@ + forward_decls(apis@),
        same_frame(*final(out), *old(out)),
{
    let ghost xs = apis@;
    let mut i: usize = 0;
    while i < apis.len()
        invariant
            i <= xs.len(),
            xs == apis@,
            out.content@ == old(out).content@ + forward_decls(xs.subrange(0, i as int)),
            same_frame(*out, *old(out)),
        decreases xs.len() - i,
    {
        let ghost before = out.content@;
        let x = &apis[i];
        match x {
            Api::Struct(st) => {
                out.write("struct ");
                out.write(st.ident.as_str());
                out.writeln(";");
            },
            Api::CxxType(id) => {
                out.write("using ");
                out.write(id.as_str());
                out.write(" = ");
                out.write(id.as_str());
                out.writeln(";");
            },
            Api::RustType(id) => {
                out.write("struct ");
                out.write(id.as_str());
                out.writeln(";");
            },
            _ => {},
        }
        assert(out.content@ =~= before + forward_decl(xs[i as int]));
        proof {
            let t = xs.subrange(0, i as int + 1);
            assert(t.drop_last() =~= xs.subrange(0, i as int));
        }
        i = i + 1;
    }
    assert(xs.subrange(0, xs.len() as int) =~= xs);
}

/// The definitions of the shared structs, in order.
pub open spec fn struct_defs(xs: Seq<Api>) -> Seq<char>
    decreases xs.len(),
{
    if xs.len() == 0 {
        Seq::empty()
    } else {
        struct_defs(xs.drop_last()) + struct_def(xs.last())
    }
}

fn write_struct_defs(out: &mut OutFile, apis: &Vec<Api>)
    ensures
        final(out).content@ == old(out).content@ + struct_defs(apis@),
        same_frame(*final(out), *old(out)),
{
    let ghost xs = apis@;
    let mut i: usize = 0;
    while i < apis.len()
        invariant
            i <= xs.len(),
            xs == apis@,
            out.content@ == old(out).content@ + struct_defs(xs.subrange(0, i as int)),
            same_frame(*out, *old(out)),
        decreases xs.len() - i,
    {
        proof {
            reveal(struct_def);
        }
        let ghost before = out.content@;
        let x = &apis[i];
        match x {
            Api::Struct(st) => {
                out.next_section();
                write_struct(out, st);
            },
            _ => {},
        }
        assert(out.content@ =~= before + struct_def(xs[i as int]));
        proof {
            let t = xs.subrange(0, i as int + 1);
            assert(t.drop_last() =~= xs.subrange(0, i as int));
        }
        i = i + 1;
    }
    assert(xs.subrange(0, xs.len() as int) =~= xs);
}

/// The C-linkage block's members: native shims of native-implemented functions and entry-point declarations of host-implemented ones.
pub open spec fn extern_fns(
    ns: Seq<Seq<char>>,
    structs: StructDefs,
    ann: Option<String>,
    xs: Seq<Api>,
) -> Seq<char>
    decreases xs.len(),
{
    if xs.len() == 0 {
        Seq::empty()
    } else {
        extern_fns(ns, structs, ann, xs.drop_last()) + extern_fn(ns, structs, ann, xs.last())
    }
}

fn write_extern_fns(out: &mut OutFile, apis: &Vec<Api>, types: &Types, ann: &Option<String>)
    ensures
        final(out).content@ == old(out).content@ + extern_fns(ns_view(old(out).namespace@), types.struct_view(), *ann, apis@),
        same_frame(*final(out), *old(out)),
{
    let ghost xs = apis@;
    let mut i: usize = 0;
    while i < apis.len()
        invariant
            i <= xs.len(),
            xs == apis@,
            out.content@ == old(out).content@ + extern_fns(ns_view(old(out).namespace@), types.struct_view(), *ann, xs.subrange(0, i as int)),
            same_frame(*out, *old(out)),
        decreases xs.len() - i,
    {
        proof {
            reveal(extern_fn);
        }
        let ghost before = out.content@;
        let x = &apis[i];
        match x {
            Api::CxxFunction(f) => {
                out.next_section();
                write_cxx_function_shim(out, f, types, ann);
            },
            Api::RustFunction(f) => {
                out.next_section();
                write_rust_function_decl(out, f, types);
            },
            _ => {},
        }
        assert(out.content@ =~= before + extern_fn(ns_view(old(out).namespace@), types.struct_view(), *ann, xs[i as int]));
        proof {
            let t = xs.subrange(0, i as int + 1);
            assert(t.drop_last() =~= xs.subrange(0, i as int));
        }
        i = i + 1;
    }
    assert(xs.subrange(0, xs.len() as int) =~= xs);
}

/// The native wrappers of the host-implemented functions, in order.
pub open spec fn rust_shims(ns: Seq<Seq<char>>, structs: StructDefs, header: bool, xs: Seq<Api>) -> Seq<char>
    decreases xs.len(),
{
    if xs.len() == 0 {
        Seq::empty()
    } else {
        rust_shims(ns, structs, header, xs.drop_last()) + rust_shim(ns, structs, header, xs.last())
    }
}

fn write_rust_shims(out: &mut OutFile, apis: &Vec<Api>, types: &Types)
    ensures
        final(out).content@ == old(out).content@ + rust_shims(ns_view(old(out).namespace@), types.struct_view(), old(out).header, apis@),
        same_frame(*final(out), *old(out)),
{
    let ghost xs = apis@;
    let mut i: usize = 0;
    while i < apis.len()
        invariant
            i <= xs.len(),
            xs == apis@,
            out.content@ == old(out).content@ + rust_shims(ns_view(old(out).namespace@), types.struct_view(), old(out).header, xs.subrange(0, i as int)),
            same_frame(*out, *old(out)),
        decreases xs.len() - i,
    {
        proof {
            reveal(rust_shim);
        }
        let ghost before = out.content@;
        let x = &apis[i];
        match x {
            Api::RustFunction(f) => {
                out.next_section();
                write_rust_function_shim(out, f, types);
            },
            _ => {},
        }
        assert(out.content@ =~= before + rust_shim(ns_view(old(out).namespace@), types.struct_view(), old(out).header, xs[i as int]));
        proof {
            let t = xs.subrange(0, i as int + 1);
            assert(t.drop_last() =~= xs.subrange(0, i as int));
        }
        i = i + 1;
    }
    assert(xs.subrange(0, xs.len() as int) =~= xs);
}


/// The C-linkage declaration of a function of either side, for a header.
#[verifier::opaque]
pub open spec fn extern_decl(ns: Seq<Seq<char>>, structs: StructDefs, a: Api) -> Seq<char> {
    match a {
        Api::CxxFunction(f) | Api::RustFunction(f) => "\n"@ + rust_function_decl_text(ns, structs, f),
        _ => Seq::empty(),
    }
}

/// The C-linkage declarations of every function of either side, in order.
pub open spec fn extern_decls(ns: Seq<Seq<char>>, structs: StructDefs, xs: Seq<Api>) -> Seq<char>
    decreases xs.len(),
{
    if xs.len() == 0 {
        Seq::empty()
    } else {
        extern_decls(ns, structs, xs.drop_last()) + extern_decl(ns, structs, xs.last())
    }
}

fn write_extern_decls(out: &mut OutFile, apis: &Vec<Api>, types: &Types)
    ensures
        final(out).content@ == old(out).content@ + extern_decls(ns_view(old(out).namespace@), types.struct_view(), apis@),
        same_frame(*final(out), *old(out)),
{
    let ghost xs = apis@;
    let mut i: usize = 0;
    while i < apis.len()
        invariant
            i <= xs.len(),
            xs == apis@,
            out.content@ == old(out).content@ + extern_decls(ns_view(old(out).namespace@), types.struct_view(), xs.subrange(0, i as int)),
            same_frame(*out, *old(out)),
        decreases xs.len() - i,
    {
        let ghost before = out.content@;
        let x = &apis[i];
        proof {
            reveal(extern_decl);
        }
        match x {
            Api::CxxFunction(f) | Api::RustFunction(f) => {
                out.next_section();
                write_rust_function_decl(out, f, types);
            },
            _ => {},
        }
        assert(out.content@ =~= before + extern_decl(ns_view(old(out).namespace@), types.struct_view(), xs[i as int]));
        proof {
            let t = xs.subrange(0, i as int + 1);
            assert(t.drop_last() =~= xs.subrange(0, i as int));
        }
        i = i + 1;
    }
    assert(xs.subrange(0, xs.len() as int) =~= xs);
}

/// What a generation pass is asked for besides the module itself.
pub struct Opt {
    /// Further native headers to name, verbatim.
    pub headers: Vec<String>,
    /// An annotation (visibility, linkage) written before every native shim
    /// definition.
    pub cxx_impl_annotations: Option<String>,
    /// The runtime support text for owning pointers to host values, by line.
    pub rust_box_support: Vec<String>,
    /// The runtime support text for host-owned buffers, by line.
    pub rust_vec_support: Vec<String>,
}

pub open spec fn is_int(a: Atom) -> bool {
    match a {
        Atom::U8 | Atom::U16 | Atom::U32 | Atom::U64 | Atom::Usize | Atom::I8 | Atom::I16
        | Atom::I32 | Atom::I64 | Atom::Isize => true,
        _ => false,
    }
}

pub open spec fn is_int_type(t: TypeV) -> bool {
    match t {
        TypeV::Ident(id) => match atom_of(id) {
            Some(a) => is_int(a),
            None => false,
        },
        _ => false,
    }
}

pub open spec fn is_native_string(t: TypeV) -> bool {
    match t {
        TypeV::Ident(id) => atom_of(id) == Some(Atom::CxxString),
        _ => false,
    }
}

pub open spec fn is_unique_ptr(t: TypeV) -> bool {
    t is UniquePtr
}

pub open spec fn is_vector(t: TypeV) -> bool {
    t is Vector
}

pub open spec fn is_rust_box(t: TypeV) -> bool {
    t is RustBox
}

pub open spec fn is_rust_vec(t: TypeV) -> bool {
    t is RustVec
}

pub open spec fn any(ts: Seq<TypeV>, p: spec_fn(TypeV) -> bool) -> bool {
    exists|i: int| 0 <= i < ts.len() && p(ts[i])
}

pub open spec fn when(b: bool, s: Seq<char>) -> Seq<char> {
    if b {
        s
    } else {
        Seq::empty()
    }
}

/// The standard headers a module needs: each pulled in once, and only when
/// a registered type needs it.
#[verifier::opaque]
pub open spec fn std_headers_text(ts: Seq<TypeV>) -> Seq<char> {
    when(any(ts, |t: TypeV| is_int_type(t)), line("#include <cstdint>"@)) + when(
        any(ts, |t: TypeV| is_unique_ptr(t)),
        line("#include <memory>"@),
    ) + when(any(ts, |t: TypeV| is_native_string(t)), line("#include <string>"@)) + when(
        any(ts, |t: TypeV| is_vector(t)),
        line("#include <vector>"@),
    )
}

impl Opt {
    /// No further headers and no support text.
    pub open spec fn is_empty(&self) -> bool {
        &&& self.headers@ == Seq::<String>::empty()
        &&& self.cxx_impl_annotations is None
        &&& self.rust_box_support@ == Seq::<String>::empty()
        &&& self.rust_vec_support@ == Seq::<String>::empty()
    }

    pub fn empty() -> (r: Opt)
        ensures
            r.is_empty(),
    {
        Opt {
            headers: Vec::new(),
            cxx_impl_annotations: None,
            rust_box_support: Vec::new(),
            rust_vec_support: Vec::new(),
        }
    }
}

fn classify(t: &Type) -> (r: (bool, bool, bool, bool, bool, bool))
    ensures
        r.0 == is_int_type(type_view(t)),
        r.1 == is_unique_ptr(type_view(t)),
        r.2 == is_native_string(type_view(t)),
        r.3 == is_vector(type_view(t)),
        r.4 == is_rust_box(type_view(t)),
        r.5 == is_rust_vec(type_view(t)),
{
    match t {
        Type::Ident(id) => match Atom::from(id.as_str()) {
            Some(a) => {
                let integer = match a {
                    Atom::U8 | Atom::U16 | Atom::U32 | Atom::U64 | Atom::Usize | Atom::I8
                    | Atom::I16 | Atom::I32 | Atom::I64 | Atom::Isize => true,
                    _ => false,
                };
                (integer, false, a == Atom::CxxString, false, false, false)
            },
            None => (false, false, false, false, false, false),
        },
        Type::UniquePtr(_) => (false, true, false, false, false, false),
        Type::Vector(_) => (false, false, false, true, false, false),
        Type::RustBox(_) => (false, false, false, false, true, false),
        Type::RustVec(_) => (false, false, false, false, false, true),
        _ => (false, false, false, false, false, false),
    }
}

/// Which kinds of type the registry holds.
pub struct Present {
    pub integer: bool,
    pub unique_ptr: bool,
    pub native_string: bool,
    pub vector: bool,
    pub rust_box: bool,
    pub rust_vec: bool,
}

fn scan(types: &Types) -> (r: Present)
    ensures
        r.integer == any(types.all_view(), |t: TypeV| is_int_type(t)),
        r.unique_ptr == any(types.all_view(), |t: TypeV| is_unique_ptr(t)),
        r.native_string == any(types.all_view(), |t: TypeV| is_native_string(t)),
        r.vector == any(types.all_view(), |t: TypeV| is_vector(t)),
        r.rust_box == any(types.all_view(), |t: TypeV| is_rust_box(t)),
        r.rust_vec == any(types.all_view(), |t: TypeV| is_rust_vec(t)),
{
    let ghost ts = types.all_view();
    let mut p = Present {
        integer: false,
        unique_ptr: false,
        native_string: false,
        vector: false,
        rust_box: false,
        rust_vec: false,
    };
    let mut i: usize = 0;
    while i < types.all.len()
        invariant
            i <= ts.len(),
            ts == types.all_view(),
            p.integer == exists|j: int| 0 <= j < i && is_int_type(ts[j]),
            p.unique_ptr == exists|j: int| 0 <= j < i && is_unique_ptr(ts[j]),
            p.native_string == exists|j: int| 0 <= j < i && is_native_string(ts[j]),
            p.vector == exists|j: int| 0 <= j < i && is_vector(ts[j]),
            p.rust_box == exists|j: int| 0 <= j < i && is_rust_box(ts[j]),
            p.rust_vec == exists|j: int| 0 <= j < i && is_rust_vec(ts[j]),
        decreases ts.len() - i,
    {
        let c = classify(&types.all[i]);
        assert(ts[i as int] == type_view(&types.all@[i as int]));
        p.integer = p.integer || c.0;
        p.unique_ptr = p.unique_ptr || c.1;
        p.native_string = p.native_string || c.2;
        p.vector = p.vector || c.3;
        p.rust_box = p.rust_box || c.4;
        p.rust_vec = p.rust_vec || c.5;
        i = i + 1;
    }
    p
}

/// Writes the standard headers the registered types need.
fn write_includes(out: &mut OutFile, p: &Present, types: &Types)
    requires
        p.integer == any(types.all_view(), |t: TypeV| is_int_type(t)),
        p.unique_ptr == any(types.all_view(), |t: TypeV| is_unique_ptr(t)),
        p.native_string == any(types.all_view(), |t: TypeV| is_native_string(t)),
        p.vector == any(types.all_view(), |t: TypeV| is_vector(t)),
    ensures
        final(out).content@ == old(out).content@ + std_headers_text(types.all_view()),
        same_frame(*final(out), *old(out)),
{
    let ghost c0 = out.content@;
    if p.integer {
        out.writeln("#include <cstdint>");
    }
    let ghost c1 = out.content@;
    if p.unique_ptr {
        out.writeln("#include <memory>");
    }
    let ghost c2 = out.content@;
    if p.native_string {
        out.writeln("#include <string>");
    }
    let ghost c3 = out.content@;
    if p.vector {
        out.writeln("#include <vector>");
    }
    assert(c1 =~= c0 + when(p.integer, line("#include <cstdint>"@)));
    assert(c2 =~= c1 + when(p.unique_ptr, line("#include <memory>"@)));
    assert(c3 =~= c2 + when(p.native_string, line("#include <string>"@)));
    assert(out.content@ =~= c3 + when(p.vector, line("#include <vector>"@)));
    reveal(std_headers_text);
    assert(out.content@ =~= c0 + std_headers_text(types.all_view()));
}

/// Whether `c` is white space, by the Unicode `White_Space` property.
pub open spec fn white(c: char) -> bool {
    let u = c as u32;
    (0x9 <= u <= 0xD) || u == 0x20 || u == 0x85 || u == 0xA0 || u == 0x1680 || (0x2000 <= u
        <= 0x200A) || u == 0x2028 || u == 0x2029 || u == 0x202F || u == 0x205F || u == 0x3000
}

fn is_white(c: char) -> (r: bool)
    ensures
        r == white(c),
{
    let u = c as u32;
    (0x9 <= u && u <= 0xD) || u == 0x20 || u == 0x85 || u == 0xA0 || u == 0x1680 || (0x2000 <= u
        && u <= 0x200A) || u == 0x2028 || u == 0x2029 || u == 0x202F || u == 0x205F || u == 0x3000
}

/// Whether a line of support text is a comment: white space, then `//`.
pub open spec fn comment_line(s: Seq<char>) -> bool
    decreases s.len(),
{
    if s.len() > 0 && white(s[0]) {
        comment_line(s.skip(1))
    } else {
        s.len() >= 2 && s[0] == '/' && s[1] == '/'
    }
}

fn is_comment(s: &str) -> (r: bool)
    ensures
        r == comment_line(s@),
{
    let n = s.unicode_len();
    let mut i: usize = 0;
    assert(s@.skip(0) =~= s@);
    while i < n && is_white(s.get_char(i))
        invariant
            n == s@.len(),
            i <= n,
            comment_line(s@) == comment_line(s@.skip(i as int)),
        decreases n - i,
    {
        assert(s@.skip(i as int + 1) =~= s@.skip(i as int).skip(1));
        i = i + 1;
    }
    n - i >= 2 && s.get_char(i) == '/' && s.get_char(i + 1) == '/'
}

pub open spec fn support_line(x: String) -> Seq<char> {
    if comment_line(x@) {
        Seq::empty()
    } else {
        line(x@)
    }
}

/// The lines of a support text that are not comments.
pub open spec fn support_lines(xs: Seq<String>) -> Seq<char>
    decreases xs.len(),
{
    if xs.len() == 0 {
        Seq::empty()
    } else {
        support_lines(xs.drop_last()) + support_line(xs.last())
    }
}

fn write_support_lines(out: &mut OutFile, lines: &Vec<String>)
    ensures
        final(out).content@ == old(out).content@ + support_lines(lines@),
        same_frame(*final(out), *old(out)),
{
    let ghost xs = lines@;
    let mut i: usize = 0;
    while i < lines.len()
        invariant
            i <= xs.len(),
            xs == lines@,
            out.content@ == old(out).content@ + support_lines(xs.subrange(0, i as int)),
            same_frame(*out, *old(out)),
        decreases xs.len() - i,
    {
        let ghost before = out.content@;
        let x = &lines[i];
        if !is_comment(x.as_str()) {
            out.writeln(x.as_str());
        }
        assert(out.content@ =~= before + support_line(xs[i as int]));
        proof {
            let t = xs.subrange(0, i as int + 1);
            assert(t.drop_last() =~= xs.subrange(0, i as int));
        }
        i = i + 1;
    }
    assert(xs.subrange(0, xs.len() as int) =~= xs);
}

/// The runtime-support block: the support text of each host-side generic
/// that the registry uses, without comment lines.
#[verifier::opaque]
pub open spec fn support_text(ts: Seq<TypeV>, opt: Opt) -> Seq<char> {
    line("namespace cxxbridge01 {"@) + when(
        any(ts, |t: TypeV| is_rust_box(t)),
        line("// #include \"cxxbridge.h\""@) + support_lines(opt.rust_box_support@),
    ) + when(
        any(ts, |t: TypeV| is_rust_vec(t)),
        line("// #include \"cxxbridge.h\""@) + support_lines(opt.rust_vec_support@),
    ) + line("} // namespace cxxbridge01"@)
}

fn write_include_cxxbridge(out: &mut OutFile, p: &Present, opt: &Opt, types: &Types)
    requires
        p.rust_box == any(types.all_view(), |t: TypeV| is_rust_box(t)),
        p.rust_vec == any(types.all_view(), |t: TypeV| is_rust_vec(t)),
    ensures
        final(out).content@ == old(out).content@ + support_text(types.all_view(), *opt),
        same_frame(*final(out), *old(out)),
{
    out.writeln("namespace cxxbridge01 {");
    let ghost c1 = out.content@;
    if p.rust_box {
        out.writeln("// #include \"cxxbridge.h\"");
        write_support_lines(out, &opt.rust_box_support);
    }
    assert(out.content@ =~= c1 + when(
        p.rust_box,
        line("// #include \"cxxbridge.h\""@) + support_lines(opt.rust_box_support@),
    ));
    let ghost c2 = out.content@;
    if p.rust_vec {
        out.writeln("// #include \"cxxbridge.h\"");
        write_support_lines(out, &opt.rust_vec_support);
    }
    assert(out.content@ =~= c2 + when(
        p.rust_vec,
        line("// #include \"cxxbridge.h\""@) + support_lines(opt.rust_vec_support@),
    ));
    out.writeln("} // namespace cxxbridge01");
    reveal(support_text);
}

/// The alias under which generated code names the support namespace.
#[verifier::opaque]
pub open spec fn alias_text(ts: Seq<TypeV>) -> Seq<char> {
    when(any(ts, |t: TypeV| is_rust_box(t)), line("namespace cxxbridge = cxxbridge01;"@))
}

fn write_namespace_alias(out: &mut OutFile, p: &Present, types: &Types)
    requires
        p.rust_box == any(types.all_view(), |t: TypeV| is_rust_box(t)),
    ensures
        final(out).content@ == old(out).content@ + alias_text(types.all_view()),
        same_frame(*final(out), *old(out)),
{
    if p.rust_box {
        out.writeln("namespace cxxbridge = cxxbridge01;");
    }
    reveal(alias_text);
}

/// Everything before the namespace is opened.
pub open spec fn prologue_text(apis: Seq<Api>, ts: Seq<TypeV>, opt: Opt, header: bool) -> Seq<
    char,
> {
    directives_text(apis, opt, header) + std_headers_text(ts) + support_text(ts, opt) + when(
        !header,
        "\n"@ + alias_text(ts),
    )
}

/// The first lines of a file: the guard of a header, then the headers the
/// module and the caller name.
#[verifier::opaque]
pub open spec fn directives_text(apis: Seq<Api>, opt: Opt, header: bool) -> Seq<char> {
    when(header, line("#pragma once"@)) + header_lines(apis) + extra_header_lines(opt.headers@)
}

fn write_directives(out: &mut OutFile, apis: &Vec<Api>, opt: &Opt)
    ensures
        final(out).content@ == old(out).content@ + directives_text(apis@, *opt, old(out).header),
        same_frame(*final(out), *old(out)),
{
    let ghost c0 = out.content@;
    if out.header {
        out.writeln("#pragma once");
    }
    assert(out.content@ =~= c0 + when(old(out).header, line("#pragma once"@)));
    write_header_lines(out, apis);
    write_extra_header_lines(out, &opt.headers);
    assert(out.content@ =~= c0 + directives_text(apis@, *opt, old(out).header)) by {
        reveal(directives_text);
    }
}

/// The declarations and shims inside the namespace.
pub open spec fn body_text(
    ns: Seq<Seq<char>>,
    apis: Seq<Api>,
    ts: Seq<TypeV>,
    structs: StructDefs,
    ann: Option<String>,
    header: bool,
) -> Seq<char> {
    when(header, "\n"@ + alias_text(ts)) + "\n"@ + forward_decls(apis) + struct_defs(apis)
        + linkage_text(ns, structs, ann, apis, header) + rust_shims(ns, structs, header, apis)
}

/// The C-linkage block: in a header, the declaration of the entry point of
/// every function; otherwise the native shims and the declarations of the
/// host entry points.
#[verifier::opaque]
pub open spec fn linkage_text(
    ns: Seq<Seq<char>>,
    structs: StructDefs,
    ann: Option<String>,
    apis: Seq<Api>,
    header: bool,
) -> Seq<char> {
    line("extern \"C\" {"@) + (if header {
        extern_decls(ns, structs, apis)
    } else {
        extern_fns(ns, structs, ann, apis)
    }) + line("} // extern \"C\""@)
}

fn write_linkage(out: &mut OutFile, apis: &Vec<Api>, types: &Types, ann: &Option<String>)
    ensures
        final(out).content@ == old(out).content@ + linkage_text(
            ns_view(old(out).namespace@),
            types.struct_view(),
            *ann,
            apis@,
            old(out).header,
        ),
        same_frame(*final(out), *old(out)),
{
    out.writeln("extern \"C\" {");
    if out.header {
        write_extern_decls(out, apis, types);
    } else {
        write_extern_fns(out, apis, types, ann);
    }
    out.writeln("} // extern \"C\"");
    reveal(linkage_text);
    assert(out.content@ =~= old(out).content@ + linkage_text(
        ns_view(old(out).namespace@),
        types.struct_view(),
        *ann,
        apis@,
        old(out).header,
    ));
}

/// A whole generated file: the header when `header` holds, the
/// implementation otherwise.
pub open spec fn gen_text(
    nss: Seq<String>,
    apis: Seq<Api>,
    ts: Seq<TypeV>,
    structs: StructDefs,
    opt: Opt,
    header: bool,
) -> Seq<char> {
    prologue_text(apis, ts, opt, header) + "\n"@ + namespace_opens(nss) + body_text(
        ns_view(nss),
        apis,
        ts,
        structs,
        opt.cxx_impl_annotations,
        header,
    ) + "\n"@ + namespace_closes(nss) + "\n"@ + (if header {
        generic_decls_text(ns_view(nss), ts)
    } else {
        generic_instantiations_text(ns_view(nss), ts)
    })
}

fn write_prologue(out: &mut OutFile, apis: &Vec<Api>, types: &Types, p: &Present, opt: &Opt)
    requires
        p.integer == any(types.all_view(), |t: TypeV| is_int_type(t)),
        p.unique_ptr == any(types.all_view(), |t: TypeV| is_unique_ptr(t)),
        p.native_string == any(types.all_view(), |t: TypeV| is_native_string(t)),
        p.vector == any(types.all_view(), |t: TypeV| is_vector(t)),
        p.rust_box == any(types.all_view(), |t: TypeV| is_rust_box(t)),
        p.rust_vec == any(types.all_view(), |t: TypeV| is_rust_vec(t)),
    ensures
        final(out).content@ == old(out).content@ + prologue_text(
            apis@,
            types.all_view(),
            *opt,
            old(out).header,
        ),
        same_frame(*final(out), *old(out)),
{
    let ghost ts = types.all_view();
    write_directives(out, apis, opt);
    let ghost c1 = out.content@;
    write_includes(out, p, types);
    assert(out.content@ =~= c1 + std_headers_text(ts));
    let ghost c2 = out.content@;
    write_include_cxxbridge(out, p, opt, types);
    assert(out.content@ =~= c2 + support_text(ts, *opt));
    let ghost c3 = out.content@;
    if !out.header {
        out.next_section();
        write_namespace_alias(out, p, types);
    }
    assert(out.content@ =~= c3 + when(!old(out).header, "\n"@ + alias_text(ts)));
    assert(out.content@ =~= old(out).content@ + prologue_text(apis@, ts, *opt, old(out).header));
}

fn write_body(out: &mut OutFile, apis: &Vec<Api>, types: &Types, p: &Present, opt: &Opt)
    requires
        p.rust_box == any(types.all_view(), |t: TypeV| is_rust_box(t)),
    ensures
        final(out).content@ == old(out).content@ + body_text(
            ns_view(old(out).namespace@),
            apis@,
            types.all_view(),
            types.struct_view(),
            opt.cxx_impl_annotations,
            old(out).header,
        ),
        same_frame(*final(out), *old(out)),
{
    let ghost ts = types.all_view();
    let ghost c0 = out.content@;
    if out.header {
        out.next_section();
        write_namespace_alias(out, p, types);
    }
    assert(out.content@ =~= c0 + when(old(out).header, "\n"@ + alias_text(ts)));
    out.next_section();
    write_forward_decls(out, apis);
    write_struct_defs(out, apis);
    write_linkage(out, apis, types, &opt.cxx_impl_annotations);
    write_rust_shims(out, apis, types);
    assert(out.content@ =~= old(out).content@ + body_text(
        ns_view(old(out).namespace@),
        apis@,
        ts,
        types.struct_view(),
        opt.cxx_impl_annotations,
        old(out).header,
    ));
}

/// Writes one generated file for the module `apis` in namespace `namespace`:
/// the native header when `header` holds, the native implementation
/// otherwise. The text is fixed by the inputs alone.
pub fn gen(namespace: Vec<String>, apis: &Vec<Api>, types: &Types, opt: &Opt, header: bool) -> (r:
    OutFile)
    ensures
        r.content@ == gen_text(
            namespace@,
            apis@,
            types.all_view(),
            types.struct_view(),
            *opt,
            header,
        ),
        r.namespace@ == namespace@,
        r.header == header,
{
    let ghost nss = namespace@;
    let ghost ts = types.all_view();
    let p = scan(types);
    let ns_copy = namespace.clone();
    let mut out = OutFile::new(namespace, header);
    assert(ns_copy@ == nss);
    write_prologue(&mut out, apis, types, &p, opt);
    out.next_section();
    write_namespace_opens(&mut out, &ns_copy);
    write_body(&mut out, apis, types, &p, opt);
    out.next_section();
    write_namespace_closes(&mut out, &ns_copy);
    out.next_section();
    let ghost c0 = out.content@;
    if header {
        write_generic_decls(&mut out, types);
    } else {
        write_generic_instantiations(&mut out, types);
    }
    assert(out.content@ =~= gen_text(nss, apis@, ts, types.struct_view(), *opt, header));
    out
}

} // verus!
