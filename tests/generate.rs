use cxxbridge::atom::Atom;
use cxxbridge::bridge::{do_generate_bridge, do_generate_header, generate, generate_header_and_cc};
use cxxbridge::check::{typecheck, ErrorKind};
use cxxbridge::emit::{gen, Opt};
use cxxbridge::mangle::mangle;
use cxxbridge::syntax::{Api, ExternFn, Struct, Type, Var};
use cxxbridge::types::{AbiCategory, Types};

fn ident(s: &str) -> Type {
    Type::Ident(s.to_string())
}

fn var(name: &str, ty: Type) -> Var {
    Var { ident: name.to_string(), ty }
}

fn func(name: &str, args: Vec<Var>, ret: Option<Type>) -> ExternFn {
    ExternFn { ident: name.to_string(), args, ret, doc: Vec::new() }
}

fn ns(segs: &[&str]) -> Vec<String> {
    segs.iter().map(|s| s.to_string()).collect()
}

fn count(hay: &str, needle: &str) -> usize {
    hay.matches(needle).count()
}

fn no_opt() -> Opt {
    Opt {
        headers: Vec::new(),
        cxx_impl_annotations: None,
        rust_box_support: Vec::new(),
        rust_vec_support: Vec::new(),
    }
}

/// The module of the example: a shared struct, one function on each side.
fn example_module() -> Vec<Api> {
    vec![
        Api::Struct(Struct {
            ident: "Meta".to_string(),
            fields: vec![
                var("size", ident("usize")),
                var("tags", Type::RustVec(Box::new(ident("String")))),
            ],
            doc: Vec::new(),
        }),
        Api::CxxType("Opaque".to_string()),
        Api::RustFunction(func(
            "make",
            vec![var("name", Type::Str)],
            Some(Type::UniquePtr(Box::new(ident("Opaque")))),
        )),
        Api::CxxFunction(func(
            "put",
            vec![
                var("self", Type::Ref(false, Box::new(ident("Opaque")))),
                var("data", Type::Ref(true, Box::new(Type::RustVec(Box::new(ident("u8")))))),
            ],
            Some(ident("u64")),
        )),
        Api::CxxFunction(func(
            "take",
            vec![var("data", Type::Ref(false, Box::new(Type::RustVec(Box::new(ident("u8"))))))],
            Some(Type::UniquePtr(Box::new(ident("Opaque")))),
        )),
    ]
}

#[test]
fn atom_lookup_and_spelling() {
    assert!(Atom::from("usize") == Some(Atom::Usize));
    assert!(Atom::from("String") == Some(Atom::RustString));
    assert!(Atom::from("CxxString") == Some(Atom::CxxString));
    assert!(Atom::from("Usize").is_none());
    assert!(Atom::from("").is_none());
    assert_eq!(Atom::Usize.to_cxx(), "size_t");
    assert_eq!(Atom::I64.to_cxx(), "int64_t");
    assert_eq!(Atom::Isize.to_cxx(), "ssize_t");
    assert_eq!(Atom::RustString.to_cxx(), "::rust::String");
    assert_eq!(Atom::CxxString.to_cxx(), "::std::string");
}

#[test]
fn mangled_symbol_layout() {
    assert_eq!(mangle(&ns(&["org", "blobstore"]), "put"), "org$blobstore$cxxbridge01$put");
    assert_eq!(mangle(&ns(&[]), "put"), "cxxbridge01$put");
}

#[test]
fn mangled_symbols_differ_for_distinct_inputs() {
    let a = mangle(&ns(&["a", "b"]), "c");
    let b = mangle(&ns(&["a"]), "b_c");
    let c = mangle(&ns(&["ab"]), "c");
    assert_ne!(a, b);
    assert_ne!(a, c);
    assert_ne!(b, c);
    assert_eq!(a, mangle(&ns(&["a", "b"]), "c"));
}

#[test]
fn struct_fields_keep_order_and_native_spelling() {
    let apis = example_module();
    let types = Types::collect(&apis);
    let out = gen(ns(&["org"]), &apis, &types, &no_opt(), true).content();
    assert!(out.contains(
        "struct Meta final {\n  size_t size;\n  ::rust::Vec<::rust::String> tags;\n};\n"
    ));
}

#[test]
fn indirect_return_takes_trailing_buffer() {
    let apis = vec![
        Api::Struct(Struct {
            ident: "Meta".to_string(),
            fields: vec![var("size", ident("usize")), var("name", ident("String"))],
            doc: Vec::new(),
        }),
        Api::CxxType("Client".to_string()),
        Api::CxxFunction(func(
            "metadata",
            vec![
                var("self", Type::Ref(false, Box::new(ident("Client")))),
                var("blobid", ident("u64")),
            ],
            Some(ident("Meta")),
        )),
        Api::RustFunction(func("meta", vec![], Some(ident("Meta")))),
    ];
    let (header, source) = generate(ns(&["org"]), &apis, &no_opt()).ok().unwrap();
    assert!(source.contains(
        "void org$cxxbridge01$metadata(const Client &self, uint64_t blobid, Meta *return$) noexcept {\n"
    ));
    assert!(source.contains("  new (return$) Meta(metadata$(self, blobid));\n"));
    assert!(source.contains("void org$cxxbridge01$meta(Meta *return$) noexcept;\n"));
    assert!(source.contains("  char return$[sizeof(Meta)];\n"));
    assert!(source.contains("  org$cxxbridge01$meta(reinterpret_cast<Meta *>(return$));\n"));
    assert!(source.contains(
        "  Meta value$(std::move(*reinterpret_cast<Meta *>(return$)));\n  using value_t$ = Meta;\n  reinterpret_cast<value_t$ *>(return$)->~value_t$();\n  return value$;\n"
    ));
    assert!(header.contains("Meta meta() noexcept;\n"));
}

#[test]
fn direct_return_has_no_buffer() {
    let apis = vec![Api::CxxFunction(func("count", vec![var("n", ident("i32"))], Some(ident("u64"))))];
    let (_, source) = generate(ns(&[]), &apis, &no_opt()).ok().unwrap();
    assert!(source.contains("uint64_t cxxbridge01$count(int32_t n) noexcept {\n"));
    assert!(source.contains("  return count$(n);\n"));
    assert!(!source.contains("return$"));
}

#[test]
fn one_guarded_block_per_instantiation() {
    let apis = example_module();
    let (header, source) = generate(ns(&["org"]), &apis, &no_opt()).ok().unwrap();
    assert_eq!(count(&source, "#ifndef CXXBRIDGE01_RUST_VEC_u8\n"), 1);
    assert_eq!(count(&source, "#ifndef CXXBRIDGE01_UNIQUE_PTR_org$Opaque\n"), 1);
    assert_eq!(count(&source, "#ifndef CXXBRIDGE01_RUST_VEC_"), 2);
    assert_eq!(count(&header, "#ifndef CXXBRIDGE01_RUST_VEC_u8\n"), 1);
    assert_eq!(count(&header, "#ifndef CXXBRIDGE01_UNIQUE_PTR_org$Opaque\n"), 1);
    assert_eq!(count(&header, "#ifndef"), 3);
    assert_eq!(count(&header, "template <>"), 0);
}

#[test]
fn example_scenario_output() {
    let apis = example_module();
    let (header, source) = generate_header_and_cc(ns(&["org", "blobstore"]), &apis).ok().unwrap();
    assert!(header.starts_with("#pragma once\n"));
    assert!(header.contains("#include <cstdint>\n"));
    assert!(header.contains("#include <memory>\n"));
    assert!(header.contains("namespace org {\nnamespace blobstore {\n"));
    assert!(header.contains("struct Meta;\nusing Opaque = Opaque;\n"));
    assert!(header.contains("std::unique_ptr<Opaque> make(cxxbridge::RustStr name) noexcept;\n"));
    assert!(header.contains("} // namespace blobstore\n} // namespace org\n"));
    assert!(header.contains(
        "struct Meta final {\n  size_t size;\n  ::rust::Vec<::rust::String> tags;\n};\n"
    ));
    assert_eq!(count(&header, "Opaque *org$blobstore$cxxbridge01$make(cxxbridge::RustStr::Repr name) noexcept;\n"), 1);
    assert_eq!(count(&header, "uint64_t org$blobstore$cxxbridge01$put(const Opaque &self, ::rust::Vec<uint8_t> &data) noexcept;\n"), 1);
    assert_eq!(count(&header, "#ifndef CXXBRIDGE01_RUST_VEC_u8\n"), 1);
    assert_eq!(count(&header, "#ifndef CXXBRIDGE01_RUST_VEC_String\n"), 1);
    assert_eq!(count(&header, "#ifndef CXXBRIDGE01_UNIQUE_PTR_org$blobstore$Opaque\n"), 1);
    assert!(source.contains(
        "Opaque *org$blobstore$cxxbridge01$make(cxxbridge::RustStr::Repr name) noexcept;\n"
    ));
    assert!(source.contains(
        "uint64_t org$blobstore$cxxbridge01$put(const Opaque &self, ::rust::Vec<uint8_t> &data) noexcept {\n"
    ));
    assert!(source.contains("  return org$blobstore$cxxbridge01$make(name);\n"));
    assert_eq!(count(&source, "org$blobstore$cxxbridge01$put("), 1);
    assert_eq!(count(&source, "#define CXXBRIDGE01_RUST_VEC_u8\n"), 1);
    assert_eq!(count(&source, "#define CXXBRIDGE01_UNIQUE_PTR_org$blobstore$Opaque\n"), 1);
    assert!(source.contains(
        "void cxxbridge01$rust_vec$u8$drop(cxxbridge::RustVec<uint8_t> *ptr) noexcept;\n"
    ));
    assert!(source.contains("void RustVec<uint8_t>::drop() noexcept {\n"));
}

#[test]
fn generation_is_deterministic() {
    let a = generate(ns(&["org"]), &example_module(), &no_opt()).ok().unwrap();
    let b = generate(ns(&["org"]), &example_module(), &no_opt()).ok().unwrap();
    assert_eq!(a, b);
}

#[test]
fn every_violation_is_reported() {
    let apis = vec![
        Api::CxxFunction(func("f", vec![], None)),
        Api::RustFunction(func("f", vec![], None)),
        Api::CxxFunction(func("g", vec![var("x", ident("Missing"))], None)),
        Api::CxxFunction(func(
            "h",
            vec![var("v", Type::Vector(Box::new(ident("u8"))))],
            None,
        )),
    ];
    let errs = typecheck(&apis);
    assert_eq!(errs.len(), 3);
    assert!(errs[0].kind == ErrorKind::DuplicateFunction && errs[0].name == "f");
    assert!(errs[1].kind == ErrorKind::UndeclaredType && errs[1].name == "Missing");
    assert!(errs[2].kind == ErrorKind::VectorByValue && errs[2].name == "h");
    let r = generate(ns(&[]), &apis, &no_opt());
    assert_eq!(r.err().unwrap().len(), 3);
}

#[test]
fn duplicate_type_and_nested_container() {
    let apis = vec![
        Api::CxxType("T".to_string()),
        Api::RustType("T".to_string()),
        Api::CxxFunction(func(
            "f",
            vec![],
            Some(Type::RustVec(Box::new(Type::RustVec(Box::new(ident("u8")))))),
        )),
    ];
    let errs = typecheck(&apis);
    assert_eq!(errs.len(), 2);
    assert!(errs[0].kind == ErrorKind::DuplicateType && errs[0].name == "T");
    assert!(errs[1].kind == ErrorKind::NestedContainer && errs[1].name == "f");
}

#[test]
fn vector_behind_pointer_is_legal() {
    let apis = vec![Api::CxxFunction(func(
        "f",
        vec![],
        Some(Type::UniquePtr(Box::new(Type::Vector(Box::new(ident("u8")))))),
    ))];
    assert_eq!(typecheck(&apis).len(), 0);
    let (_, source) = generate(ns(&[]), &apis, &no_opt()).ok().unwrap();
    assert_eq!(count(&source, "#define CXXBRIDGE01_UNIQUE_PTR_std$vector$u8\n"), 1);
    assert_eq!(count(&source, "#define CXXBRIDGE01_vector_u8\n"), 1);
    assert!(source.contains("size_t cxxbridge01$std$vector$u8$length(const std::vector<uint8_t> &s) noexcept {\n"));
}

#[test]
fn struct_only_module_is_legal() {
    let apis = vec![Api::Struct(Struct {
        ident: "P".to_string(),
        fields: vec![var("x", ident("i32"))],
        doc: vec![" A point.".to_string()],
    })];
    let (header, source) = generate(ns(&[]), &apis, &no_opt()).ok().unwrap();
    assert!(header.contains("// A point.\nstruct P final {\n  int32_t x;\n};\n"));
    assert!(source.contains("extern \"C\" {\n} // extern \"C\"\n"));
}

#[test]
fn support_text_drops_comment_lines() {
    let apis = vec![Api::CxxFunction(func(
        "f",
        vec![var("b", Type::RustBox(Box::new(ident("Thing"))))],
        None,
    )), Api::RustType("Thing".to_string())];
    let opt = Opt {
        headers: vec!["extra.h".to_string()],
        cxx_impl_annotations: None,
        rust_box_support: vec!["  // note".to_string(), "template <typename T> class RustBox;".to_string()],
        rust_vec_support: vec!["class Unused;".to_string()],
    };
    let (header, source) = generate(ns(&["n"]), &apis, &opt).ok().unwrap();
    assert!(header.contains("#include \"extra.h\"\n"));
    assert!(header.contains("namespace cxxbridge01 {\n// #include \"cxxbridge.h\"\ntemplate <typename T> class RustBox;\n} // namespace cxxbridge01\n"));
    assert!(!header.contains("note"));
    assert!(!header.contains("Unused"));
    assert!(source.contains("namespace cxxbridge = cxxbridge01;\n"));
    assert!(source.contains("#ifndef CXXBRIDGE01_RUST_BOX_n$Thing\n"));
    assert!(source.contains("void RustBox<n::Thing>::drop() noexcept {\n"));
    assert!(source.contains("void n$cxxbridge01$f(Thing *b) noexcept {\n"));
    assert!(source.contains("  f$(cxxbridge::RustBox<Thing>::from_raw(b));\n"));
}

#[test]
fn single_artifact_entry_points() {
    let apis = example_module();
    let (header, source) = generate(ns(&["org"]), &apis, &no_opt()).ok().unwrap();
    assert_eq!(do_generate_header(ns(&["org"]), &apis, &no_opt()).ok().unwrap(), header);
    assert_eq!(do_generate_bridge(ns(&["org"]), &apis, &no_opt()).ok().unwrap(), source);
    let bad = vec![Api::CxxFunction(func("g", vec![var("x", ident("Missing"))], None))];
    assert_eq!(do_generate_header(ns(&[]), &bad, &no_opt()).err().unwrap().len(), 1);
    assert_eq!(do_generate_bridge(ns(&[]), &bad, &no_opt()).err().unwrap().len(), 1);
}

#[test]
fn distinct_named_instantiations_get_distinct_guards() {
    let apis = vec![
        Api::CxxType("A".to_string()),
        Api::CxxType("B".to_string()),
        Api::CxxFunction(func("a", vec![], Some(Type::UniquePtr(Box::new(ident("A")))))),
        Api::CxxFunction(func("b", vec![], Some(Type::UniquePtr(Box::new(ident("B")))))),
        Api::CxxFunction(func("c", vec![], Some(Type::UniquePtr(Box::new(ident("A")))))),
    ];
    let (_, source) = generate(ns(&["x"]), &apis, &no_opt()).ok().unwrap();
    assert_eq!(count(&source, "#ifndef CXXBRIDGE01_UNIQUE_PTR_x$A\n"), 1);
    assert_eq!(count(&source, "#ifndef CXXBRIDGE01_UNIQUE_PTR_x$B\n"), 1);
    assert_eq!(count(&source, "#ifndef CXXBRIDGE01_UNIQUE_PTR_"), 2);
}

#[test]
fn type_named_like_an_atom_is_rejected() {
    let apis = vec![
        Api::Struct(Struct { ident: "bool".to_string(), fields: vec![], doc: vec![] }),
        Api::CxxType("u8".to_string()),
    ];
    let errs = typecheck(&apis);
    assert_eq!(errs.len(), 2);
    assert!(errs[0].kind == ErrorKind::ReservedName && errs[0].name == "bool");
    assert!(errs[1].kind == ErrorKind::ReservedName && errs[1].name == "u8");
}

#[test]
fn annotation_precedes_each_native_shim() {
    let apis = vec![
        Api::CxxFunction(func("a", vec![], None)),
        Api::CxxFunction(func("b", vec![], Some(ident("bool")))),
        Api::RustFunction(func("c", vec![], None)),
    ];
    let mut opt = no_opt();
    opt.cxx_impl_annotations = Some("__attribute__((visibility(\"default\")))".to_string());
    let (header, source) = generate(ns(&[]), &apis, &opt).ok().unwrap();
    assert!(source.contains(
        "__attribute__((visibility(\"default\"))) void cxxbridge01$a() noexcept {\n"
    ));
    assert!(source.contains(
        "__attribute__((visibility(\"default\"))) bool cxxbridge01$b() noexcept {\n"
    ));
    assert!(source.contains("\nvoid cxxbridge01$c() noexcept;\n"));
    assert_eq!(count(&source, "__attribute__"), 2);
    assert_eq!(count(&header, "__attribute__"), 0);
}

#[test]
fn registry_classifies_and_deduplicates() {
    let apis = example_module();
    let types = Types::collect(&apis);
    assert_eq!(types.all.len(), 12);
    assert!(types.classify(&ident("Meta")) == AbiCategory::TrivialByValue);
    assert!(types.classify(&ident("Opaque")) == AbiCategory::OpaqueReferenceOnly);
    assert!(types.classify(&ident("String")) == AbiCategory::String);
    assert!(types.classify(&Type::RustVec(Box::new(ident("u8")))) == AbiCategory::OwnedBuffer);
    assert!(types.needs_indirect_abi(&ident("Meta")));
    assert!(types.needs_indirect_abi(&ident("String")));
    assert!(types.needs_indirect_abi(&Type::RustVec(Box::new(ident("u8")))));
    assert!(!types.needs_indirect_abi(&ident("u64")));
    assert!(!types.needs_indirect_abi(&ident("Opaque")));
}

#[test]
fn struct_is_indirect_only_through_its_fields() {
    let apis = vec![
        Api::Struct(Struct {
            ident: "Plain".to_string(),
            fields: vec![var("x", ident("i32")), var("b", Type::RustBox(Box::new(ident("T"))))],
            doc: vec![],
        }),
        Api::Struct(Struct {
            ident: "Named".to_string(),
            fields: vec![var("s", ident("String"))],
            doc: vec![],
        }),
        Api::Struct(Struct {
            ident: "Outer".to_string(),
            fields: vec![var("p", ident("Plain")), var("n", ident("Named"))],
            doc: vec![],
        }),
        Api::Struct(Struct {
            ident: "Wrap".to_string(),
            fields: vec![var("p", ident("Plain"))],
            doc: vec![],
        }),
        Api::RustType("T".to_string()),
    ];
    let types = Types::collect(&apis);
    assert!(!types.needs_indirect_abi(&ident("Plain")));
    assert!(types.needs_indirect_abi(&ident("Named")));
    assert!(types.needs_indirect_abi(&ident("Outer")));
    assert!(!types.needs_indirect_abi(&ident("Wrap")));
}

#[test]
fn direct_struct_return_needs_no_buffer() {
    let apis = vec![
        Api::Struct(Struct {
            ident: "P".to_string(),
            fields: vec![var("x", ident("i32"))],
            doc: vec![],
        }),
        Api::CxxFunction(func("origin", vec![], Some(ident("P")))),
    ];
    let (header, source) = generate(ns(&[]), &apis, &no_opt()).ok().unwrap();
    assert!(source.contains("P cxxbridge01$origin() noexcept {\n"));
    assert!(source.contains("  return origin$();\n"));
    assert!(header.contains("P cxxbridge01$origin() noexcept;\n"));
}

#[test]
fn module_header_paths_are_escaped() {
    let apis = vec![Api::Header("dir\\a\"b\té.h".to_string())];
    let (header, _) = generate(ns(&[]), &apis, &no_opt()).ok().unwrap();
    assert!(header.contains("#include \"dir\\\\a\\\"b\\t\\u{e9}.h\"\n"));
    let expected = format!("#include \"{}\"\n", "dir\\a\"b\té.h".escape_default());
    assert!(header.contains(&expected));
}
