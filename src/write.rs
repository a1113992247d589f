use crate::atom::{atom_of, cxx_name, Atom};
use crate::mangle::{mangle, ns_view, symbol};
use crate::out::{line, OutFile};
use crate::syntax::{type_view, ExternFn, Struct, Type, TypeV, Var};
use crate::types::{needs_indirect, StructDefs, Types};
use vstd::prelude::*;

verus! {

/// The native spelling of a type.
pub open spec fn type_text(t: TypeV) -> Seq<char>
    decreases t,
{
    match t {
        TypeV::Ident(id) => match atom_of(id) {
            Some(a) => cxx_name(a),
            None => id,
        },
        TypeV::RustBox(x) => "cxxbridge::RustBox<"@ + type_text(*x) + ">"@,
        TypeV::RustVec(x) => "::rust::Vec<"@ + type_text(*x) + ">"@,
        TypeV::UniquePtr(x) => "std::unique_ptr<"@ + type_text(*x) + ">"@,
        TypeV::Vector(x) => "std::vector<"@ + type_text(*x) + ">"@,
        TypeV::Ref(m, x) => (if m {
            Seq::empty()
        } else {
            "const "@
        }) + type_text(*x) + " &"@,
        TypeV::Str => "cxxbridge::RustStr"@,
    }
}

/// The native spelling of a type, ready to be followed by a name.
pub open spec fn type_space(t: TypeV) -> Seq<char> {
    match t {
        TypeV::Ref(_, _) => type_text(t),
        _ => type_text(t) + " "@,
    }
}

/// Items separated by `", "`.
pub open spec fn join(items: Seq<Seq<char>>) -> Seq<char>
    decreases items.len(),
{
    if items.len() == 0 {
        Seq::empty()
    } else if items.len() == 1 {
        items[0]
    } else {
        join(items.drop_last()) + ", "@ + items.last()
    }
}

pub open spec fn return_text(ret: Option<TypeV>) -> Seq<char> {
    match ret {
        None => "void "@,
        Some(t) => type_space(t),
    }
}

pub open spec fn opt_view(ret: Option<Type>) -> Option<TypeV> {
    match ret {
        Some(t) => Some(type_view(&t)),
        None => None,
    }
}

/// Whether a function's result comes back through a caller-supplied buffer.
pub open spec fn indirect_return(structs: StructDefs, ret: Option<TypeV>) -> bool {
    match ret {
        Some(t) => needs_indirect(structs, t),
        None => false,
    }
}

/// The return type of a C-linkage entry point.
pub open spec fn extern_return_text(structs: StructDefs, ret: Option<TypeV>) -> Seq<char> {
    match ret {
        Some(TypeV::RustBox(x)) => type_space(*x) + "*"@,
        Some(TypeV::UniquePtr(x)) => type_space(*x) + "*"@,
        Some(TypeV::Ref(m, x)) => (if m {
            Seq::empty()
        } else {
            "const "@
        }) + type_text(*x) + " *"@,
        Some(TypeV::Str) => "cxxbridge::RustStr::Repr "@,
        _ => if indirect_return(structs, ret) {
            "void "@
        } else {
            return_text(ret)
        },
    }
}

/// One parameter of a C-linkage entry point.
pub open spec fn extern_arg_text(structs: StructDefs, arg: Var) -> Seq<char> {
    let t = type_view(&arg.ty);
    let base = match t {
        TypeV::RustBox(x) => type_space(*x) + "*"@,
        TypeV::UniquePtr(x) => type_space(*x) + "*"@,
        TypeV::Vector(x) => type_space(*x) + "*"@,
        TypeV::Str => "cxxbridge::RustStr::Repr "@,
        _ => type_space(t),
    };
    base + (if needs_indirect(structs, t) {
        "*"@
    } else {
        Seq::empty()
    }) + arg.ident@
}

/// The parameters of a C-linkage entry point: the declared arguments, then a
/// pointer to the return buffer when the result is returned indirectly.
pub open spec fn abi_params(structs: StructDefs, f: ExternFn) -> Seq<Seq<char>> {
    let declared = f.args@.map_values(|a: Var| extern_arg_text(structs, a));
    if indirect_return(structs, opt_view(f.ret)) {
        declared.push(return_text(opt_view(f.ret)) + "*return$"@)
    } else {
        declared
    }
}

/// The head of a C-linkage entry point, up to its closing parenthesis.
pub open spec fn extern_head(ns: Seq<Seq<char>>, structs: StructDefs, f: ExternFn) -> Seq<char> {
    extern_return_text(structs, opt_view(f.ret)) + symbol(ns, f.ident@) + "("@ + join(
        abi_params(structs, f),
    ) + ")"@
}

/// The declaration of the entry point of a function: of a host-implemented
/// one in an implementation file, of any function in a header.
pub open spec fn rust_function_decl_text(
    ns: Seq<Seq<char>>,
    structs: StructDefs,
    f: ExternFn,
) -> Seq<char> {
    line(extern_head(ns, structs, f) + " noexcept;"@)
}

/// The text of a shared struct: its documentation, then its fields in
/// declaration order, each with the native spelling of its type.
pub open spec fn struct_text(s: Struct) -> Seq<char> {
    lines_text(s.doc@.map_values(|d: String| "//"@ + d@)) + line("struct "@ + s.ident@ + " final {"@)
        + lines_text(s.fields@.map_values(|v: Var| "  "@ + type_space(type_view(&v.ty)) + v.ident@ + ";"@))
        + line("};"@)
}

/// Each item on a line of its own.
pub open spec fn lines_text(items: Seq<Seq<char>>) -> Seq<char>
    decreases items.len(),
{
    if items.len() == 0 {
        Seq::empty()
    } else {
        lines_text(items.drop_last()) + line(items.last())
    }
}

pub open spec fn same_frame(a: OutFile, b: OutFile) -> bool {
    a.namespace@ == b.namespace@ && a.header == b.header
}

/// Writes the native spelling of `ty`.
pub fn write_type(out: &mut OutFile, ty: &Type)
    ensures
        final(out).content@ == old(out).content@ + type_text(type_view(ty)),
        same_frame(*final(out), *old(out)),
    decreases ty,
{
    match ty {
        Type::Ident(id) => match Atom::from(id.as_str()) {
            Some(a) => out.write(a.to_cxx()),
            None => out.write(id.as_str()),
        },
        Type::RustBox(x) => {
            out.write("cxxbridge::RustBox<");
            write_type(out, x);
            out.write(">");
        },
        Type::RustVec(x) => {
            out.write("::rust::Vec<");
            write_type(out, x);
            out.write(">");
        },
        Type::UniquePtr(x) => {
            out.write("std::unique_ptr<");
            write_type(out, x);
            out.write(">");
        },
        Type::Vector(x) => {
            out.write("std::vector<");
            write_type(out, x);
            out.write(">");
        },
        Type::Ref(m, x) => {
            if !*m {
                out.write("const ");
            }
            write_type(out, x);
            out.write(" &");
        },
        Type::Str => out.write("cxxbridge::RustStr"),
    }
    assert(out.content@ =~= old(out).content@ + type_text(type_view(ty)));
}

/// Writes the native spelling of `ty`, ready to be followed by a name.
pub fn write_type_space(out: &mut OutFile, ty: &Type)
    ensures
        final(out).content@ == old(out).content@ + type_space(type_view(ty)),
        same_frame(*final(out), *old(out)),
{
    write_type(out, ty);
    match ty {
        Type::Ref(_, _) => {},
        _ => out.write(" "),
    }
    assert(out.content@ =~= old(out).content@ + type_space(type_view(ty)));
}

/// Writes the declared return type of a function, `void` for none.
pub fn write_return_type(out: &mut OutFile, ret: &Option<Type>)
    ensures
        final(out).content@ == old(out).content@ + return_text(opt_view(*ret)),
        same_frame(*final(out), *old(out)),
{
    match ret {
        None => out.write("void "),
        Some(t) => write_type_space(out, t),
    }
}

/// Writes the return type of a C-linkage entry point: a raw pointer for an
/// owning result, `void` for an indirectly returned one.
pub fn write_extern_return_type(out: &mut OutFile, ret: &Option<Type>, types: &Types)
    ensures
        final(out).content@ == old(out).content@ + extern_return_text(
            types.struct_view(),
            opt_view(*ret),
        ),
        same_frame(*final(out), *old(out)),
{
    match ret {
        Some(Type::RustBox(x)) | Some(Type::UniquePtr(x)) => {
            write_type_space(out, x);
            out.write("*");
        },
        Some(Type::Ref(m, x)) => {
            if !*m {
                out.write("const ");
            }
            write_type(out, x);
            out.write(" *");
        },
        Some(Type::Str) => out.write("cxxbridge::RustStr::Repr "),
        Some(t) => {
            if types.needs_indirect_abi(t) {
                out.write("void ");
            } else {
                write_return_type(out, ret);
            }
        },
        None => write_return_type(out, ret),
    }
    assert(out.content@ =~= old(out).content@ + extern_return_text(
        types.struct_view(),
        opt_view(*ret),
    ));
}

/// Writes one parameter of a C-linkage entry point: a raw pointer for an
/// owning argument, a pointer to the value for an indirectly passed one.
pub fn write_extern_arg(out: &mut OutFile, arg: &Var, types: &Types)
    ensures
        final(out).content@ == old(out).content@ + extern_arg_text(types.struct_view(), *arg),
        same_frame(*final(out), *old(out)),
{
    match &arg.ty {
        Type::RustBox(x) | Type::UniquePtr(x) | Type::Vector(x) => {
            write_type_space(out, x);
            out.write("*");
        },
        Type::Str => out.write("cxxbridge::RustStr::Repr "),
        _ => write_type_space(out, &arg.ty),
    }
    if types.needs_indirect_abi(&arg.ty) {
        out.write("*");
    }
    out.write(arg.ident.as_str());
    assert(out.content@ =~= old(out).content@ + extern_arg_text(types.struct_view(), *arg));
}

/// Writes the parameter list of the entry point of `f`.
fn write_abi_params(out: &mut OutFile, f: &ExternFn, types: &Types)
    ensures
        final(out).content@ == old(out).content@ + join(abi_params(types.struct_view(), *f)),
        same_frame(*final(out), *old(out)),
{
    let ghost structs = types.struct_view();
    let ghost declared = f.args@.map_values(|a: Var| extern_arg_text(structs, a));
    let mut i: usize = 0;
    while i < f.args.len()
        invariant
            i <= f.args@.len(),
            declared == f.args@.map_values(|a: Var| extern_arg_text(structs, a)),
            structs == types.struct_view(),
            out.content@ == old(out).content@ + join(declared.subrange(0, i as int)),
            same_frame(*out, *old(out)),
        decreases f.args@.len() - i,
    {
        let ghost mid = out.content@;
        if i > 0 {
            out.write(", ");
        }
        write_extern_arg(out, &f.args[i], types);
        proof {
            let t = declared.subrange(0, i as int + 1);
            assert(t.drop_last() =~= declared.subrange(0, i as int));
            assert(t.last() == extern_arg_text(structs, f.args@[i as int]));
            if i == 0 {
                assert(out.content@ =~= old(out).content@ + join(t));
            } else {
                assert(out.content@ =~= old(out).content@ + join(t));
            }
        }
        i = i + 1;
    }
    assert(declared.subrange(0, f.args@.len() as int) =~= declared);
    let indirect = match &f.ret {
        Some(t) => types.needs_indirect_abi(t),
        None => false,
    };
    if indirect {
        if f.args.len() > 0 {
            out.write(", ");
        }
        write_return_type(out, &f.ret);
        out.write("*return$");
        proof {
            let p = abi_params(structs, *f);
            assert(p.drop_last() =~= declared);
            assert(out.content@ =~= old(out).content@ + join(p));
        }
    }
}

/// Writes the declaration of the entry point of a function.
/// The entry point takes the declared arguments and, exactly when the result
/// is returned indirectly, one trailing pointer to the return buffer.
pub fn write_rust_function_decl(out: &mut OutFile, f: &ExternFn, types: &Types)
    ensures
        final(out).content@ == old(out).content@ + rust_function_decl_text(
            ns_view(old(out).namespace@),
            types.struct_view(),
            *f,
        ),
        same_frame(*final(out), *old(out)),
{
    write_extern_head(out, f, types);
    out.writeln(" noexcept;");
    assert(out.content@ =~= old(out).content@ + rust_function_decl_text(
        ns_view(old(out).namespace@),
        types.struct_view(),
        *f,
    ));
}

/// Writes the head of the entry point of `f`, up to its closing parenthesis.
fn write_extern_head(out: &mut OutFile, f: &ExternFn, types: &Types)
    ensures
        final(out).content@ == old(out).content@ + extern_head(
            ns_view(old(out).namespace@),
            types.struct_view(),
            *f,
        ),
        same_frame(*final(out), *old(out)),
{
    write_extern_return_type(out, &f.ret, types);
    let sym = mangle(&out.namespace, f.ident.as_str());
    out.write(sym.as_str());
    out.write("(");
    write_abi_params(out, f, types);
    out.write(")");
    assert(out.content@ =~= old(out).content@ + extern_head(
        ns_view(old(out).namespace@),
        types.struct_view(),
        *f,
    ));
}

/// An indirectly returned result adds exactly one parameter to the entry
/// point, after the declared ones: a pointer to the return buffer; and the
/// entry point itself then returns `void`. A result returned directly adds
/// no parameter.
pub proof fn lemma_indirect_return_param(structs: StructDefs, f: ExternFn)
    ensures
        indirect_return(structs, opt_view(f.ret)) ==> {
            &&& abi_params(structs, f).len() == f.args@.len() + 1
            &&& abi_params(structs, f).last() == return_text(opt_view(f.ret)) + "*return$"@
            &&& extern_return_text(structs, opt_view(f.ret)) == "void "@
        },
        !indirect_return(structs, opt_view(f.ret)) ==> abi_params(structs, f).len()
            == f.args@.len(),
        forall|i: int|
            0 <= i < f.args@.len() ==> #[trigger] abi_params(structs, f)[i] == extern_arg_text(
                structs,
                f.args@[i],
            ),
{
}

/// Writes `items` one per line.
fn write_lines(out: &mut OutFile, prefix: &str, items: &Vec<String>)
    ensures
        final(out).content@ == old(out).content@ + lines_text(
            items@.map_values(|d: String| prefix@ + d@),
        ),
        same_frame(*final(out), *old(out)),
{
    let ghost all = items@.map_values(|d: String| prefix@ + d@);
    let mut i: usize = 0;
    while i < items.len()
        invariant
            i <= items@.len(),
            all == items@.map_values(|d: String| prefix@ + d@),
            out.content@ == old(out).content@ + lines_text(all.subrange(0, i as int)),
            same_frame(*out, *old(out)),
        decreases items@.len() - i,
    {
        out.write(prefix);
        out.writeln(items[i].as_str());
        proof {
            let t = all.subrange(0, i as int + 1);
            assert(t.drop_last() =~= all.subrange(0, i as int));
            assert(out.content@ =~= old(out).content@ + lines_text(t));
        }
        i = i + 1;
    }
    assert(all.subrange(0, items@.len() as int) =~= all);
}

/// Writes a shared struct; the native fields keep the declared order and
/// carry the native spelling of each declared type.
pub fn write_struct(out: &mut OutFile, s: &Struct)
    ensures
        final(out).content@ == old(out).content@ + struct_text(*s),
        same_frame(*final(out), *old(out)),
{
    write_lines(out, "//", &s.doc);
    out.write("struct ");
    out.write(s.ident.as_str());
    out.writeln(" final {");
    let ghost fields = s.fields@.map_values(
        |v: Var| "  "@ + type_space(type_view(&v.ty)) + v.ident@ + ";"@,
    );
    let ghost before = out.content@;
    let mut i: usize = 0;
    while i < s.fields.len()
        invariant
            i <= s.fields@.len(),
            fields == s.fields@.map_values(
                |v: Var| "  "@ + type_space(type_view(&v.ty)) + v.ident@ + ";"@,
            ),
            out.content@ == before + lines_text(fields.subrange(0, i as int)),
            same_frame(*out, *old(out)),
        decreases s.fields@.len() - i,
    {
        out.write("  ");
        write_type_space(out, &s.fields[i].ty);
        out.write(s.fields[i].ident.as_str());
        out.writeln(";");
        proof {
            let t = fields.subrange(0, i as int + 1);
            assert(t.drop_last() =~= fields.subrange(0, i as int));
            assert(out.content@ =~= before + lines_text(t));
        }
        i = i + 1;
    }
    assert(fields.subrange(0, s.fields@.len() as int) =~= fields);
    out.writeln("};");
    assert(out.content@ =~= old(out).content@ + struct_text(*s));
}

/// How the native shim hands an argument to the user function.
pub open spec fn cxx_call_arg(structs: StructDefs, a: Var) -> Seq<char> {
    let t = type_view(&a.ty);
    match t {
        TypeV::RustBox(_) => type_text(t) + "::from_raw("@ + a.ident@ + ")"@,
        TypeV::UniquePtr(_) => type_text(t) + "("@ + a.ident@ + ")"@,
        _ => if needs_indirect(structs, t) {
            "std::move(*"@ + a.ident@ + ")"@
        } else {
            a.ident@
        },
    }
}

/// What precedes the call of the user function in a native shim.
pub open spec fn cxx_call_prefix(structs: StructDefs, ret: Option<TypeV>) -> Seq<char> {
    if indirect_return(structs, ret) {
        "new (return$) "@ + type_text(ret.unwrap()) + "("@
    } else {
        match ret {
            Some(TypeV::Ref(_, _)) => "return &"@,
            Some(_) => "return "@,
            None => Seq::empty(),
        }
    }
}

/// How a native shim gives up ownership of its result.
pub open spec fn cxx_return_suffix(ret: Option<TypeV>) -> Seq<char> {
    match ret {
        Some(TypeV::RustBox(_)) => ".into_raw()"@,
        Some(TypeV::UniquePtr(_)) => ".release()"@,
        Some(TypeV::Vector(_)) => " /* Use RVO to convert to r-value and move construct */"@,
        _ => Seq::empty(),
    }
}

/// The annotation written before each native shim definition, if any.
pub open spec fn annotation_text(ann: Option<String>) -> Seq<char> {
    match ann {
        Some(a) => a@ + " "@,
        None => Seq::empty(),
    }
}

/// The C-linkage shim through which the host calls a native-implemented
/// function.
pub open spec fn cxx_function_shim_text(
    ns: Seq<Seq<char>>,
    structs: StructDefs,
    ann: Option<String>,
    f: ExternFn,
) -> Seq<char> {
    annotation_text(ann) + line(extern_head(ns, structs, f) + " noexcept {"@) + fn_pointer_line(f) + cxx_call_line(structs, f)
        + line("}"@)
}

/// The line of a native shim that binds the user function to a pointer of
/// the declared signature.
pub open spec fn fn_pointer_line(f: ExternFn) -> Seq<char> {
    line(
        "  "@ + return_text(opt_view(f.ret)) + "(*"@ + f.ident@ + "$)("@ + join(
            f.args@.map_values(|a: Var| type_text(type_view(&a.ty))),
        ) + ") = "@ + f.ident@ + ";"@,
    )
}

/// The line of a native shim that calls the user function.
pub open spec fn cxx_call_line(structs: StructDefs, f: ExternFn) -> Seq<char> {
    let ret = opt_view(f.ret);
    line(
        "  "@ + cxx_call_prefix(structs, ret) + f.ident@ + "$("@ + join(
            f.args@.map_values(|a: Var| cxx_call_arg(structs, a)),
        ) + ")"@ + cxx_return_suffix(ret) + (if indirect_return(structs, ret) {
            ")"@
        } else {
            Seq::empty()
        }) + ";"@,
    )
}

/// Writes the native types of the arguments of `f`, separated by commas.
fn write_arg_types(out: &mut OutFile, f: &ExternFn)
    ensures
        final(out).content@ == old(out).content@ + join(
            f.args@.map_values(|a: Var| type_text(type_view(&a.ty))),
        ),
        same_frame(*final(out), *old(out)),
{
    let ghost all = f.args@.map_values(|a: Var| type_text(type_view(&a.ty)));
    let mut i: usize = 0;
    while i < f.args.len()
        invariant
            i <= f.args@.len(),
            all == f.args@.map_values(|a: Var| type_text(type_view(&a.ty))),
            out.content@ == old(out).content@ + join(all.subrange(0, i as int)),
            same_frame(*out, *old(out)),
        decreases f.args@.len() - i,
    {
        if i > 0 {
            out.write(", ");
        }
        write_type(out, &f.args[i].ty);
        proof {
            let t = all.subrange(0, i as int + 1);
            assert(t.drop_last() =~= all.subrange(0, i as int));
            assert(out.content@ =~= old(out).content@ + join(t));
        }
        i = i + 1;
    }
    assert(all.subrange(0, f.args@.len() as int) =~= all);
}

/// Writes how a native shim passes each argument on to the user function.
fn write_cxx_call_args(out: &mut OutFile, f: &ExternFn, types: &Types)
    ensures
        final(out).content@ == old(out).content@ + join(
            f.args@.map_values(|a: Var| cxx_call_arg(types.struct_view(), a)),
        ),
        same_frame(*final(out), *old(out)),
{
    let ghost structs = types.struct_view();
    let ghost all = f.args@.map_values(|a: Var| cxx_call_arg(structs, a));
    let mut i: usize = 0;
    while i < f.args.len()
        invariant
            i <= f.args@.len(),
            structs == types.struct_view(),
            all == f.args@.map_values(|a: Var| cxx_call_arg(structs, a)),
            out.content@ == old(out).content@ + join(all.subrange(0, i as int)),
            same_frame(*out, *old(out)),
        decreases f.args@.len() - i,
    {
        if i > 0 {
            out.write(", ");
        }
        let ghost before_arg = out.content@;
        let arg = &f.args[i];
        match &arg.ty {
            Type::RustBox(_) => {
                write_type(out, &arg.ty);
                out.write("::from_raw(");
                out.write(arg.ident.as_str());
                out.write(")");
            },
            Type::UniquePtr(_) => {
                write_type(out, &arg.ty);
                out.write("(");
                out.write(arg.ident.as_str());
                out.write(")");
            },
            _ => {
                if types.needs_indirect_abi(&arg.ty) {
                    out.write("std::move(*");
                    out.write(arg.ident.as_str());
                    out.write(")");
                } else {
                    out.write(arg.ident.as_str());
                }
            },
        }
        proof {
            assert(out.content@ =~= before_arg + cxx_call_arg(structs, *arg));
            let t = all.subrange(0, i as int + 1);
            assert(t.drop_last() =~= all.subrange(0, i as int));
            assert(out.content@ =~= old(out).content@ + join(t));
        }
        i = i + 1;
    }
    assert(all.subrange(0, f.args@.len() as int) =~= all);
}

fn write_fn_pointer_line(out: &mut OutFile, f: &ExternFn)
    ensures
        final(out).content@ == old(out).content@ + fn_pointer_line(*f),
        same_frame(*final(out), *old(out)),
{
    out.write("  ");
    write_return_type(out, &f.ret);
    out.write("(*");
    out.write(f.ident.as_str());
    out.write("$)(");
    write_arg_types(out, f);
    out.write(") = ");
    out.write(f.ident.as_str());
    out.writeln(";");
    assert(out.content@ =~= old(out).content@ + fn_pointer_line(*f));
}

fn write_cxx_call_prefix(out: &mut OutFile, ret: &Option<Type>, types: &Types)
    ensures
        final(out).content@ == old(out).content@ + cxx_call_prefix(
            types.struct_view(),
            opt_view(*ret),
        ),
        same_frame(*final(out), *old(out)),
{
    let indirect = match ret {
        Some(t) => types.needs_indirect_abi(t),
        None => false,
    };
    if indirect {
        out.write("new (return$) ");
        match ret {
            Some(t) => write_type(out, t),
            None => {},
        }
        out.write("(");
    } else {
        match ret {
            Some(Type::Ref(_, _)) => out.write("return &"),
            Some(_) => out.write("return "),
            None => {},
        }
    }
    assert(out.content@ =~= old(out).content@ + cxx_call_prefix(
        types.struct_view(),
        opt_view(*ret),
    ));
}

fn write_cxx_call_line(out: &mut OutFile, f: &ExternFn, types: &Types)
    ensures
        final(out).content@ == old(out).content@ + cxx_call_line(types.struct_view(), *f),
        same_frame(*final(out), *old(out)),
{
    let ghost ret = opt_view(f.ret);
    let indirect = match &f.ret {
        Some(t) => types.needs_indirect_abi(t),
        None => false,
    };
    out.write("  ");
    write_cxx_call_prefix(out, &f.ret, types);
    out.write(f.ident.as_str());
    out.write("$(");
    write_cxx_call_args(out, f, types);
    out.write(")");
    let ghost s0 = out.content@;
    match &f.ret {
        Some(Type::RustBox(_)) => out.write(".into_raw()"),
        Some(Type::UniquePtr(_)) => out.write(".release()"),
        Some(Type::Vector(_)) => out.write(" /* Use RVO to convert to r-value and move construct */"),
        _ => {},
    }
    assert(out.content@ =~= s0 + cxx_return_suffix(ret));
    if indirect {
        out.write(")");
    }
    out.writeln(";");
    assert(out.content@ =~= old(out).content@ + cxx_call_line(types.struct_view(), *f));
}

/// Writes the shim through which the host calls a native-implemented
/// function. When the result is returned indirectly it is constructed in
/// place in the buffer that the trailing parameter points to.
pub fn write_cxx_function_shim(
    out: &mut OutFile,
    f: &ExternFn,
    types: &Types,
    ann: &Option<String>,
)
    ensures
        final(out).content@ == old(out).content@ + cxx_function_shim_text(
            ns_view(old(out).namespace@),
            types.struct_view(),
            *ann,
            *f,
        ),
        same_frame(*final(out), *old(out)),
{
    match ann {
        Some(a) => {
            out.write(a.as_str());
            out.write(" ");
        },
        None => {},
    }
    write_extern_head(out, f, types);
    out.writeln(" noexcept {");
    write_fn_pointer_line(out, f);
    write_cxx_call_line(out, f, types);
    out.writeln("}");
    assert(out.content@ =~= old(out).content@ + cxx_function_shim_text(
        ns_view(old(out).namespace@),
        types.struct_view(),
        *ann,
        *f,
    ));
}

/// How a native wrapper passes an argument to the host entry point.
pub open spec fn rust_call_arg(structs: StructDefs, a: Var) -> Seq<char> {
    let t = type_view(&a.ty);
    (if needs_indirect(structs, t) {
        "&"@
    } else {
        Seq::empty()
    }) + a.ident@ + match t {
        TypeV::RustBox(_) => ".into_raw()"@,
        TypeV::UniquePtr(_) => ".release()"@,
        _ => Seq::empty(),
    }
}

/// The arguments a native wrapper hands to the host entry point, the return
/// buffer last when the result comes back indirectly.
pub open spec fn rust_call_args(structs: StructDefs, f: ExternFn) -> Seq<Seq<char>> {
    let declared = f.args@.map_values(|a: Var| rust_call_arg(structs, a));
    if indirect_return(structs, opt_view(f.ret)) {
        declared.push("reinterpret_cast<"@ + return_text(opt_view(f.ret)) + "*>(return$)"@)
    } else {
        declared
    }
}

/// The declaration of the native wrapper of a host-implemented function.
pub open spec fn rust_signature(f: ExternFn) -> Seq<char> {
    lines_text(f.doc@.map_values(|d: String| "//"@ + d@)) + return_text(opt_view(f.ret)) + f.ident@
        + "("@ + join(f.args@.map_values(|a: Var| type_space(type_view(&a.ty)) + a.ident@))
        + ") noexcept"@
}

/// What precedes the call of the host entry point in a native wrapper.
pub open spec fn rust_shim_lead(structs: StructDefs, ret: Option<TypeV>) -> Seq<char> {
    if indirect_return(structs, ret) {
        line("char return$[sizeof("@ + type_text(ret.unwrap()) + ")];"@) + "  "@
    } else {
        match ret {
            Some(TypeV::Ref(_, _)) => "return *"@,
            Some(_) => "return "@,
            None => Seq::empty(),
        }
    }
}

/// The lines of a native wrapper that take an indirect result out of the
/// return buffer: the value is move-constructed from the object in the
/// buffer, that object is then destroyed, and the value is returned.
pub open spec fn rust_shim_tail(structs: StructDefs, ret: Option<TypeV>) -> Seq<char> {
    if indirect_return(structs, ret) {
        line(
            "  "@ + type_text(ret.unwrap()) + " value$(std::move(*reinterpret_cast<"@ + return_text(
                ret,
            ) + "*>(return$)));"@,
        ) + line("  using value_t$ = "@ + type_text(ret.unwrap()) + ";"@) + line(
            "  reinterpret_cast<value_t$ *>(return$)->~value_t$();"@,
        ) + line("  return value$;"@)
    } else {
        Seq::empty()
    }
}

/// The body of the native wrapper of a host-implemented function.
pub open spec fn rust_shim_body(ns: Seq<Seq<char>>, structs: StructDefs, f: ExternFn) -> Seq<
    char,
> {
    "  "@ + rust_shim_lead(structs, opt_view(f.ret)) + line(
        symbol(ns, f.ident@) + "("@ + join(rust_call_args(structs, f)) + ");"@,
    ) + rust_shim_tail(structs, opt_view(f.ret))
}

/// The native wrapper of a host-implemented function: declared in a header,
/// defined otherwise.
pub open spec fn rust_function_shim_text(
    ns: Seq<Seq<char>>,
    structs: StructDefs,
    header: bool,
    f: ExternFn,
) -> Seq<char> {
    rust_signature(f) + if header {
        line(";"@)
    } else {
        line(" {"@) + rust_shim_body(ns, structs, f) + line("}"@)
    }
}

fn write_rust_signature(out: &mut OutFile, f: &ExternFn)
    ensures
        final(out).content@ == old(out).content@ + rust_signature(*f),
        same_frame(*final(out), *old(out)),
{
    write_lines(out, "//", &f.doc);
    write_return_type(out, &f.ret);
    out.write(f.ident.as_str());
    out.write("(");
    let ghost before = out.content@;
    let ghost all = f.args@.map_values(|a: Var| type_space(type_view(&a.ty)) + a.ident@);
    let mut i: usize = 0;
    while i < f.args.len()
        invariant
            i <= f.args@.len(),
            all == f.args@.map_values(|a: Var| type_space(type_view(&a.ty)) + a.ident@),
            out.content@ == before + join(all.subrange(0, i as int)),
            same_frame(*out, *old(out)),
        decreases f.args@.len() - i,
    {
        if i > 0 {
            out.write(", ");
        }
        write_type_space(out, &f.args[i].ty);
        out.write(f.args[i].ident.as_str());
        proof {
            let t = all.subrange(0, i as int + 1);
            assert(t.drop_last() =~= all.subrange(0, i as int));
            assert(out.content@ =~= before + join(t));
        }
        i = i + 1;
    }
    assert(all.subrange(0, f.args@.len() as int) =~= all);
    out.write(") noexcept");
    assert(out.content@ =~= old(out).content@ + rust_signature(*f));
}

fn write_rust_call_args(out: &mut OutFile, f: &ExternFn, types: &Types)
    ensures
        final(out).content@ == old(out).content@ + join(rust_call_args(types.struct_view(), *f)),
        same_frame(*final(out), *old(out)),
{
    let ghost structs = types.struct_view();
    let ghost all = f.args@.map_values(|a: Var| rust_call_arg(structs, a));
    let mut i: usize = 0;
    while i < f.args.len()
        invariant
            i <= f.args@.len(),
            structs == types.struct_view(),
            all == f.args@.map_values(|a: Var| rust_call_arg(structs, a)),
            out.content@ == old(out).content@ + join(all.subrange(0, i as int)),
            same_frame(*out, *old(out)),
        decreases f.args@.len() - i,
    {
        if i > 0 {
            out.write(", ");
        }
        let ghost before_arg = out.content@;
        let arg = &f.args[i];
        if types.needs_indirect_abi(&arg.ty) {
            out.write("&");
        }
        out.write(arg.ident.as_str());
        match &arg.ty {
            Type::RustBox(_) => out.write(".into_raw()"),
            Type::UniquePtr(_) => out.write(".release()"),
            _ => {},
        }
        proof {
            assert(out.content@ =~= before_arg + rust_call_arg(structs, *arg));
            let t = all.subrange(0, i as int + 1);
            assert(t.drop_last() =~= all.subrange(0, i as int));
            assert(out.content@ =~= old(out).content@ + join(t));
        }
        i = i + 1;
    }
    assert(all.subrange(0, f.args@.len() as int) =~= all);
    let indirect = match &f.ret {
        Some(t) => types.needs_indirect_abi(t),
        None => false,
    };
    if indirect {
        if f.args.len() > 0 {
            out.write(", ");
        }
        out.write("reinterpret_cast<");
        write_return_type(out, &f.ret);
        out.write("*>(return$)");
        proof {
            let p = rust_call_args(structs, *f);
            assert(p.drop_last() =~= all);
            assert(out.content@ =~= old(out).content@ + join(p));
        }
    }
}

fn write_rust_shim_lead(out: &mut OutFile, ret: &Option<Type>, types: &Types)
    ensures
        final(out).content@ == old(out).content@ + rust_shim_lead(
            types.struct_view(),
            opt_view(*ret),
        ),
        same_frame(*final(out), *old(out)),
{
    let indirect = match ret {
        Some(t) => types.needs_indirect_abi(t),
        None => false,
    };
    if indirect {
        out.write("char return$[sizeof(");
        match ret {
            Some(t) => write_type(out, t),
            None => {},
        }
        out.writeln(")];");
        out.write("  ");
    } else {
        match ret {
            Some(Type::Ref(_, _)) => out.write("return *"),
            Some(_) => out.write("return "),
            None => {},
        }
    }
    assert(out.content@ =~= old(out).content@ + rust_shim_lead(
        types.struct_view(),
        opt_view(*ret),
    ));
}

fn write_rust_shim_tail(out: &mut OutFile, ret: &Option<Type>, types: &Types)
    ensures
        final(out).content@ == old(out).content@ + rust_shim_tail(
            types.struct_view(),
            opt_view(*ret),
        ),
        same_frame(*final(out), *old(out)),
{
    let indirect = match ret {
        Some(t) => types.needs_indirect_abi(t),
        None => false,
    };
    if indirect {
        match ret {
            Some(t) => {
                let ghost c0 = out.content@;
                out.write("  ");
                write_type(out, t);
                out.write(" value$(std::move(*reinterpret_cast<");
                write_return_type(out, ret);
                out.writeln("*>(return$)));");
                let ghost c1 = out.content@;
                assert(c1 =~= c0 + line(
                    "  "@ + type_text(type_view(t)) + " value$(std::move(*reinterpret_cast<"@
                        + return_text(opt_view(*ret)) + "*>(return$)));"@,
                ));
                out.write("  using value_t$ = ");
                write_type(out, t);
                out.writeln(";");
                assert(out.content@ =~= c1 + line(
                    "  using value_t$ = "@ + type_text(type_view(t)) + ";"@,
                ));
                out.writeln("  reinterpret_cast<value_t$ *>(return$)->~value_t$();");
                out.writeln("  return value$;");
            },
            None => {},
        }
    }
    assert(out.content@ =~= old(out).content@ + rust_shim_tail(
        types.struct_view(),
        opt_view(*ret),
    ));
}

fn write_rust_shim_body(out: &mut OutFile, f: &ExternFn, types: &Types)
    ensures
        final(out).content@ == old(out).content@ + rust_shim_body(
            ns_view(old(out).namespace@),
            types.struct_view(),
            *f,
        ),
        same_frame(*final(out), *old(out)),
{
    out.write("  ");
    write_rust_shim_lead(out, &f.ret, types);
    let sym = mangle(&out.namespace, f.ident.as_str());
    out.write(sym.as_str());
    out.write("(");
    write_rust_call_args(out, f, types);
    out.writeln(");");
    write_rust_shim_tail(out, &f.ret, types);
    assert(out.content@ =~= old(out).content@ + rust_shim_body(
        ns_view(old(out).namespace@),
        types.struct_view(),
        *f,
    ));
}

/// Writes the native wrapper of a host-implemented function: its declaration
/// in a header, its definition otherwise. An indirectly returned result is
/// read back out of a local buffer handed to the entry point last.
pub fn write_rust_function_shim(out: &mut OutFile, f: &ExternFn, types: &Types)
    ensures
        final(out).content@ == old(out).content@ + rust_function_shim_text(
            ns_view(old(out).namespace@),
            types.struct_view(),
            old(out).header,
            *f,
        ),
        same_frame(*final(out), *old(out)),
{
    write_rust_signature(out, f);
    if out.header {
        out.writeln(";");
    } else {
        out.writeln(" {");
        write_rust_shim_body(out, f, types);
        out.writeln("}");
    }
    assert(out.content@ =~= old(out).content@ + rust_function_shim_text(
        ns_view(old(out).namespace@),
        types.struct_view(),
        old(out).header,
        *f,
    ));
}

} // verus!
