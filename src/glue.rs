use crate::atom::{atom_of, cxx_name, Atom};
use crate::mangle::{ns_prefix, ns_view, plain};
use crate::out::{line, OutFile};
use crate::syntax::{type_view, Type, TypeV};
use crate::types::Types;
use crate::write::same_frame;
use vstd::prelude::*;

verus! {

/// Lines 1 to 4 of `rust_box_extern_text`.
pub open spec fn rust_box_extern_text_0(inner: Seq<char>, inst: Seq<char>) -> Seq<char> {
    line("#ifndef CXXBRIDGE01_RUST_BOX_"@ + inst)
        + line("#define CXXBRIDGE01_RUST_BOX_"@ + inst)
        + line("void cxxbridge01$rust_box$"@ + inst + "$uninit(cxxbridge::RustBox<"@ + inner + "> *ptr) noexcept;"@)
        + line("void cxxbridge01$rust_box$"@ + inst + "$set_raw(cxxbridge::RustBox<"@ + inner + "> *ptr, "@ + inner + " *raw) noexcept;"@)
}

/// Lines 1 to 4 of `write_rust_box_extern`.
fn write_rust_box_extern_0(out: &mut OutFile, inner: &str, inst: &str)
    ensures
        final(out).content@ == old(out).content@ + rust_box_extern_text_0(inner@, inst@),
        same_frame(*final(out), *old(out)),
{
    let ghost c0 = out.content@;
    out.write("#ifndef CXXBRIDGE01_RUST_BOX_");
    out.writeln(inst);
    let ghost c1 = out.content@;
    assert(c1 =~= c0 + line("#ifndef CXXBRIDGE01_RUST_BOX_"@ + inst@));
    out.write("#define CXXBRIDGE01_RUST_BOX_");
    out.writeln(inst);
    let ghost c2 = out.content@;
    assert(c2 =~= c1 + line("#define CXXBRIDGE01_RUST_BOX_"@ + inst@));
    out.write("void cxxbridge01$rust_box$");
    out.write(inst);
    out.write("$uninit(cxxbridge::RustBox<");
    out.write(inner);
    out.writeln("> *ptr) noexcept;");
    let ghost c3 = out.content@;
    assert(c3 =~= c2 + line("void cxxbridge01$rust_box$"@ + inst@ + "$uninit(cxxbridge::RustBox<"@ + inner@ + "> *ptr) noexcept;"@));
    out.write("void cxxbridge01$rust_box$");
    out.write(inst);
    out.write("$set_raw(cxxbridge::RustBox<");
    out.write(inner);
    out.write("> *ptr, ");
    out.write(inner);
    out.writeln(" *raw) noexcept;");
    let ghost c4 = out.content@;
    assert(c4 =~= c3 + line("void cxxbridge01$rust_box$"@ + inst@ + "$set_raw(cxxbridge::RustBox<"@ + inner@ + "> *ptr, "@ + inner@ + " *raw) noexcept;"@));
    assert(out.content@ =~= old(out).content@ + rust_box_extern_text_0(inner@, inst@));
}

/// Lines 5 to 8 of `rust_box_extern_text`.
pub open spec fn rust_box_extern_text_1(inner: Seq<char>, inst: Seq<char>) -> Seq<char> {
    line("void cxxbridge01$rust_box$"@ + inst + "$drop(cxxbridge::RustBox<"@ + inner + "> *ptr) noexcept;"@)
        + line("const "@ + inner + " *cxxbridge01$rust_box$"@ + inst + "$deref(const cxxbridge::RustBox<"@ + inner + "> *ptr) noexcept;"@)
        + line(inner + " *cxxbridge01$rust_box$"@ + inst + "$deref_mut(cxxbridge::RustBox<"@ + inner + "> *ptr) noexcept;"@)
        + line("#endif // CXXBRIDGE01_RUST_BOX_"@ + inst)
}

/// Lines 5 to 8 of `write_rust_box_extern`.
fn write_rust_box_extern_1(out: &mut OutFile, inner: &str, inst: &str)
    ensures
        final(out).content@ == old(out).content@ + rust_box_extern_text_1(inner@, inst@),
        same_frame(*final(out), *old(out)),
{
    let ghost c0 = out.content@;
    out.write("void cxxbridge01$rust_box$");
    out.write(inst);
    out.write("$drop(cxxbridge::RustBox<");
    out.write(inner);
    out.writeln("> *ptr) noexcept;");
    let ghost c1 = out.content@;
    assert(c1 =~= c0 + line("void cxxbridge01$rust_box$"@ + inst@ + "$drop(cxxbridge::RustBox<"@ + inner@ + "> *ptr) noexcept;"@));
    out.write("const ");
    out.write(inner);
    out.write(" *cxxbridge01$rust_box$");
    out.write(inst);
    out.write("$deref(const cxxbridge::RustBox<");
    out.write(inner);
    out.writeln("> *ptr) noexcept;");
    let ghost c2 = out.content@;
    assert(c2 =~= c1 + line("const "@ + inner@ + " *cxxbridge01$rust_box$"@ + inst@ + "$deref(const cxxbridge::RustBox<"@ + inner@ + "> *ptr) noexcept;"@));
    out.write(inner);
    out.write(" *cxxbridge01$rust_box$");
    out.write(inst);
    out.write("$deref_mut(cxxbridge::RustBox<");
    out.write(inner);
    out.writeln("> *ptr) noexcept;");
    let ghost c3 = out.content@;
    assert(c3 =~= c2 + line(inner@ + " *cxxbridge01$rust_box$"@ + inst@ + "$deref_mut(cxxbridge::RustBox<"@ + inner@ + "> *ptr) noexcept;"@));
    out.write("#endif // CXXBRIDGE01_RUST_BOX_");
    out.writeln(inst);
    let ghost c4 = out.content@;
    assert(c4 =~= c3 + line("#endif // CXXBRIDGE01_RUST_BOX_"@ + inst@));
    assert(out.content@ =~= old(out).content@ + rust_box_extern_text_1(inner@, inst@));
}

/// The guarded entry-point declarations of one owning-pointer-to-host-value instantiation.
pub open spec fn rust_box_extern_text(inner: Seq<char>, inst: Seq<char>) -> Seq<char> {
    rust_box_extern_text_0(inner, inst)
        + rust_box_extern_text_1(inner, inst)
}

/// Writes the guarded entry-point declarations of one owning-pointer-to-host-value instantiation.
fn write_rust_box_extern(out: &mut OutFile, inner: &str, inst: &str)
    ensures
        final(out).content@ == old(out).content@ + rust_box_extern_text(inner@, inst@),
        same_frame(*final(out), *old(out)),
{
    write_rust_box_extern_0(out, inner, inst);
    write_rust_box_extern_1(out, inner, inst);
    assert(out.content@ =~= old(out).content@ + rust_box_extern_text(inner@, inst@));
}

/// The guarded entry-point declarations of one host-owned buffer instantiation.
pub open spec fn rust_vec_extern_text(inner: Seq<char>, inst: Seq<char>) -> Seq<char> {
    line("#ifndef CXXBRIDGE01_RUST_VEC_"@ + inst)
        + line("#define CXXBRIDGE01_RUST_VEC_"@ + inst)
        + line("void cxxbridge01$rust_vec$"@ + inst + "$drop(cxxbridge::RustVec<"@ + inner + "> *ptr) noexcept;"@)
        + line("void cxxbridge01$rust_vec$"@ + inst + "$to_vector(const cxxbridge::RustVec<"@ + inner + "> *ptr, const std::vector<"@ + inner + "> &vector) noexcept;"@)
        + line("#endif // CXXBRIDGE01_RUST_VEC_"@ + inst)
}

/// Writes the guarded entry-point declarations of one host-owned buffer instantiation.
fn write_rust_vec_extern(out: &mut OutFile, inner: &str, inst: &str)
    ensures
        final(out).content@ == old(out).content@ + rust_vec_extern_text(inner@, inst@),
        same_frame(*final(out), *old(out)),
{
    let ghost c0 = out.content@;
    out.write("#ifndef CXXBRIDGE01_RUST_VEC_");
    out.writeln(inst);
    let ghost c1 = out.content@;
    assert(c1 =~= c0 + line("#ifndef CXXBRIDGE01_RUST_VEC_"@ + inst@));
    out.write("#define CXXBRIDGE01_RUST_VEC_");
    out.writeln(inst);
    let ghost c2 = out.content@;
    assert(c2 =~= c1 + line("#define CXXBRIDGE01_RUST_VEC_"@ + inst@));
    out.write("void cxxbridge01$rust_vec$");
    out.write(inst);
    out.write("$drop(cxxbridge::RustVec<");
    out.write(inner);
    out.writeln("> *ptr) noexcept;");
    let ghost c3 = out.content@;
    assert(c3 =~= c2 + line("void cxxbridge01$rust_vec$"@ + inst@ + "$drop(cxxbridge::RustVec<"@ + inner@ + "> *ptr) noexcept;"@));
    out.write("void cxxbridge01$rust_vec$");
    out.write(inst);
    out.write("$to_vector(const cxxbridge::RustVec<");
    out.write(inner);
    out.write("> *ptr, const std::vector<");
    out.write(inner);
    out.writeln("> &vector) noexcept;");
    let ghost c4 = out.content@;
    assert(c4 =~= c3 + line("void cxxbridge01$rust_vec$"@ + inst@ + "$to_vector(const cxxbridge::RustVec<"@ + inner@ + "> *ptr, const std::vector<"@ + inner@ + "> &vector) noexcept;"@));
    out.write("#endif // CXXBRIDGE01_RUST_VEC_");
    out.writeln(inst);
    let ghost c5 = out.content@;
    assert(c5 =~= c4 + line("#endif // CXXBRIDGE01_RUST_VEC_"@ + inst@));
    assert(out.content@ =~= old(out).content@ + rust_vec_extern_text(inner@, inst@));
}

/// Lines 1 to 4 of `rust_box_impl_text`.
pub open spec fn rust_box_impl_text_0(inner: Seq<char>, inst: Seq<char>) -> Seq<char> {
    line("template <>"@)
        + line("void RustBox<"@ + inner + ">::uninit() noexcept {"@)
        + line("  return cxxbridge01$rust_box$"@ + inst + "$uninit(this);"@)
        + line("}"@)
}

/// Lines 1 to 4 of `write_rust_box_impl`.
fn write_rust_box_impl_0(out: &mut OutFile, inner: &str, inst: &str)
    ensures
        final(out).content@ == old(out).content@ + rust_box_impl_text_0(inner@, inst@),
        same_frame(*final(out), *old(out)),
{
    let ghost c0 = out.content@;
    out.writeln("template <>");
    let ghost c1 = out.content@;
    assert(c1 =~= c0 + line("template <>"@));
    out.write("void RustBox<");
    out.write(inner);
    out.writeln(">::uninit() noexcept {");
    let ghost c2 = out.content@;
    assert(c2 =~= c1 + line("void RustBox<"@ + inner@ + ">::uninit() noexcept {"@));
    out.write("  return cxxbridge01$rust_box$");
    out.write(inst);
    out.writeln("$uninit(this);");
    let ghost c3 = out.content@;
    assert(c3 =~= c2 + line("  return cxxbridge01$rust_box$"@ + inst@ + "$uninit(this);"@));
    out.writeln("}");
    let ghost c4 = out.content@;
    assert(c4 =~= c3 + line("}"@));
    assert(out.content@ =~= old(out).content@ + rust_box_impl_text_0(inner@, inst@));
}

/// Lines 5 to 8 of `rust_box_impl_text`.
pub open spec fn rust_box_impl_text_1(inner: Seq<char>, inst: Seq<char>) -> Seq<char> {
    line("template <>"@)
        + line("void RustBox<"@ + inner + ">::set_raw("@ + inner + " *raw) noexcept {"@)
        + line("  return cxxbridge01$rust_box$"@ + inst + "$set_raw(this, raw);"@)
        + line("}"@)
}

/// Lines 5 to 8 of `write_rust_box_impl`.
fn write_rust_box_impl_1(out: &mut OutFile, inner: &str, inst: &str)
    ensures
        final(out).content@ == old(out).content@ + rust_box_impl_text_1(inner@, inst@),
        same_frame(*final(out), *old(out)),
{
    let ghost c0 = out.content@;
    out.writeln("template <>");
    let ghost c1 = out.content@;
    assert(c1 =~= c0 + line("template <>"@));
    out.write("void RustBox<");
    out.write(inner);
    out.write(">::set_raw(");
    out.write(inner);
    out.writeln(" *raw) noexcept {");
    let ghost c2 = out.content@;
    assert(c2 =~= c1 + line("void RustBox<"@ + inner@ + ">::set_raw("@ + inner@ + " *raw) noexcept {"@));
    out.write("  return cxxbridge01$rust_box$");
    out.write(inst);
    out.writeln("$set_raw(this, raw);");
    let ghost c3 = out.content@;
    assert(c3 =~= c2 + line("  return cxxbridge01$rust_box$"@ + inst@ + "$set_raw(this, raw);"@));
    out.writeln("}");
    let ghost c4 = out.content@;
    assert(c4 =~= c3 + line("}"@));
    assert(out.content@ =~= old(out).content@ + rust_box_impl_text_1(inner@, inst@));
}

/// Lines 9 to 12 of `rust_box_impl_text`.
pub open spec fn rust_box_impl_text_2(inner: Seq<char>, inst: Seq<char>) -> Seq<char> {
    line("template <>"@)
        + line("void RustBox<"@ + inner + ">::drop() noexcept {"@)
        + line("  return cxxbridge01$rust_box$"@ + inst + "$drop(this);"@)
        + line("}"@)
}

/// Lines 9 to 12 of `write_rust_box_impl`.
fn write_rust_box_impl_2(out: &mut OutFile, inner: &str, inst: &str)
    ensures
        final(out).content@ == old(out).content@ + rust_box_impl_text_2(inner@, inst@),
        same_frame(*final(out), *old(out)),
{
    let ghost c0 = out.content@;
    out.writeln("template <>");
    let ghost c1 = out.content@;
    assert(c1 =~= c0 + line("template <>"@));
    out.write("void RustBox<");
    out.write(inner);
    out.writeln(">::drop() noexcept {");
    let ghost c2 = out.content@;
    assert(c2 =~= c1 + line("void RustBox<"@ + inner@ + ">::drop() noexcept {"@));
    out.write("  return cxxbridge01$rust_box$");
    out.write(inst);
    out.writeln("$drop(this);");
    let ghost c3 = out.content@;
    assert(c3 =~= c2 + line("  return cxxbridge01$rust_box$"@ + inst@ + "$drop(this);"@));
    out.writeln("}");
    let ghost c4 = out.content@;
    assert(c4 =~= c3 + line("}"@));
    assert(out.content@ =~= old(out).content@ + rust_box_impl_text_2(inner@, inst@));
}

/// Lines 13 to 16 of `rust_box_impl_text`.
pub open spec fn rust_box_impl_text_3(inner: Seq<char>, inst: Seq<char>) -> Seq<char> {
    line("template <>"@)
        + line("const "@ + inner + " *RustBox<"@ + inner + ">::deref() const noexcept {"@)
        + line("  return cxxbridge01$rust_box$"@ + inst + "$deref(this);"@)
        + line("}"@)
}

/// Lines 13 to 16 of `write_rust_box_impl`.
fn write_rust_box_impl_3(out: &mut OutFile, inner: &str, inst: &str)
    ensures
        final(out).content@ == old(out).content@ + rust_box_impl_text_3(inner@, inst@),
        same_frame(*final(out), *old(out)),
{
    let ghost c0 = out.content@;
    out.writeln("template <>");
    let ghost c1 = out.content@;
    assert(c1 =~= c0 + line("template <>"@));
    out.write("const ");
    out.write(inner);
    out.write(" *RustBox<");
    out.write(inner);
    out.writeln(">::deref() const noexcept {");
    let ghost c2 = out.content@;
    assert(c2 =~= c1 + line("const "@ + inner@ + " *RustBox<"@ + inner@ + ">::deref() const noexcept {"@));
    out.write("  return cxxbridge01$rust_box$");
    out.write(inst);
    out.writeln("$deref(this);");
    let ghost c3 = out.content@;
    assert(c3 =~= c2 + line("  return cxxbridge01$rust_box$"@ + inst@ + "$deref(this);"@));
    out.writeln("}");
    let ghost c4 = out.content@;
    assert(c4 =~= c3 + line("}"@));
    assert(out.content@ =~= old(out).content@ + rust_box_impl_text_3(inner@, inst@));
}

/// Lines 17 to 20 of `rust_box_impl_text`.
pub open spec fn rust_box_impl_text_4(inner: Seq<char>, inst: Seq<char>) -> Seq<char> {
    line("template <>"@)
        + line(inner + " *RustBox<"@ + inner + ">::deref_mut() noexcept {"@)
        + line("  return cxxbridge01$rust_box$"@ + inst + "$deref_mut(this);"@)
        + line("}"@)
}

/// Lines 17 to 20 of `write_rust_box_impl`.
fn write_rust_box_impl_4(out: &mut OutFile, inner: &str, inst: &str)
    ensures
        final(out).content@ == old(out).content@ + rust_box_impl_text_4(inner@, inst@),
        same_frame(*final(out), *old(out)),
{
    let ghost c0 = out.content@;
    out.writeln("template <>");
    let ghost c1 = out.content@;
    assert(c1 =~= c0 + line("template <>"@));
    out.write(inner);
    out.write(" *RustBox<");
    out.write(inner);
    out.writeln(">::deref_mut() noexcept {");
    let ghost c2 = out.content@;
    assert(c2 =~= c1 + line(inner@ + " *RustBox<"@ + inner@ + ">::deref_mut() noexcept {"@));
    out.write("  return cxxbridge01$rust_box$");
    out.write(inst);
    out.writeln("$deref_mut(this);");
    let ghost c3 = out.content@;
    assert(c3 =~= c2 + line("  return cxxbridge01$rust_box$"@ + inst@ + "$deref_mut(this);"@));
    out.writeln("}");
    let ghost c4 = out.content@;
    assert(c4 =~= c3 + line("}"@));
    assert(out.content@ =~= old(out).content@ + rust_box_impl_text_4(inner@, inst@));
}

/// The member definitions of one owning-pointer-to-host-value instantiation, each delegating to its entry point.
pub open spec fn rust_box_impl_text(inner: Seq<char>, inst: Seq<char>) -> Seq<char> {
    rust_box_impl_text_0(inner, inst)
        + rust_box_impl_text_1(inner, inst)
        + rust_box_impl_text_2(inner, inst)
        + rust_box_impl_text_3(inner, inst)
        + rust_box_impl_text_4(inner, inst)
}

/// Writes the member definitions of one owning-pointer-to-host-value instantiation.
fn write_rust_box_impl(out: &mut OutFile, inner: &str, inst: &str)
    ensures
        final(out).content@ == old(out).content@ + rust_box_impl_text(inner@, inst@),
        same_frame(*final(out), *old(out)),
{
    write_rust_box_impl_0(out, inner, inst);
    write_rust_box_impl_1(out, inner, inst);
    write_rust_box_impl_2(out, inner, inst);
    write_rust_box_impl_3(out, inner, inst);
    write_rust_box_impl_4(out, inner, inst);
    assert(out.content@ =~= old(out).content@ + rust_box_impl_text(inner@, inst@));
}

/// Lines 1 to 4 of `rust_vec_impl_text`.
pub open spec fn rust_vec_impl_text_0(inner: Seq<char>, inst: Seq<char>) -> Seq<char> {
    line("template <>"@)
        + line("void RustVec<"@ + inner + ">::drop() noexcept {"@)
        + line("  return cxxbridge01$rust_vec$"@ + inst + "$drop(this);"@)
        + line("}"@)
}

/// Lines 1 to 4 of `write_rust_vec_impl`.
fn write_rust_vec_impl_0(out: &mut OutFile, inner: &str, inst: &str)
    ensures
        final(out).content@ == old(out).content@ + rust_vec_impl_text_0(inner@, inst@),
        same_frame(*final(out), *old(out)),
{
    let ghost c0 = out.content@;
    out.writeln("template <>");
    let ghost c1 = out.content@;
    assert(c1 =~= c0 + line("template <>"@));
    out.write("void RustVec<");
    out.write(inner);
    out.writeln(">::drop() noexcept {");
    let ghost c2 = out.content@;
    assert(c2 =~= c1 + line("void RustVec<"@ + inner@ + ">::drop() noexcept {"@));
    out.write("  return cxxbridge01$rust_vec$");
    out.write(inst);
    out.writeln("$drop(this);");
    let ghost c3 = out.content@;
    assert(c3 =~= c2 + line("  return cxxbridge01$rust_vec$"@ + inst@ + "$drop(this);"@));
    out.writeln("}");
    let ghost c4 = out.content@;
    assert(c4 =~= c3 + line("}"@));
    assert(out.content@ =~= old(out).content@ + rust_vec_impl_text_0(inner@, inst@));
}

/// Lines 5 to 8 of `rust_vec_impl_text`.
pub open spec fn rust_vec_impl_text_1(inner: Seq<char>, inst: Seq<char>) -> Seq<char> {
    line("template <>"@)
        + line("void RustVec<"@ + inner + ">::to_vector(const std::vector<"@ + inner + ">& vector) const noexcept {"@)
        + line("  return cxxbridge01$rust_vec$"@ + inst + "$to_vector(this, vector);"@)
        + line("}"@)
}

/// Lines 5 to 8 of `write_rust_vec_impl`.
fn write_rust_vec_impl_1(out: &mut OutFile, inner: &str, inst: &str)
    ensures
        final(out).content@ == old(out).content@ + rust_vec_impl_text_1(inner@, inst@),
        same_frame(*final(out), *old(out)),
{
    let ghost c0 = out.content@;
    out.writeln("template <>");
    let ghost c1 = out.content@;
    assert(c1 =~= c0 + line("template <>"@));
    out.write("void RustVec<");
    out.write(inner);
    out.write(">::to_vector(const std::vector<");
    out.write(inner);
    out.writeln(">& vector) const noexcept {");
    let ghost c2 = out.content@;
    assert(c2 =~= c1 + line("void RustVec<"@ + inner@ + ">::to_vector(const std::vector<"@ + inner@ + ">& vector) const noexcept {"@));
    out.write("  return cxxbridge01$rust_vec$");
    out.write(inst);
    out.writeln("$to_vector(this, vector);");
    let ghost c3 = out.content@;
    assert(c3 =~= c2 + line("  return cxxbridge01$rust_vec$"@ + inst@ + "$to_vector(this, vector);"@));
    out.writeln("}");
    let ghost c4 = out.content@;
    assert(c4 =~= c3 + line("}"@));
    assert(out.content@ =~= old(out).content@ + rust_vec_impl_text_1(inner@, inst@));
}

/// The member definitions of one host-owned buffer instantiation, each delegating to its entry point.
pub open spec fn rust_vec_impl_text(inner: Seq<char>, inst: Seq<char>) -> Seq<char> {
    rust_vec_impl_text_0(inner, inst)
        + rust_vec_impl_text_1(inner, inst)
}

/// Writes the member definitions of one host-owned buffer instantiation.
fn write_rust_vec_impl(out: &mut OutFile, inner: &str, inst: &str)
    ensures
        final(out).content@ == old(out).content@ + rust_vec_impl_text(inner@, inst@),
        same_frame(*final(out), *old(out)),
{
    write_rust_vec_impl_0(out, inner, inst);
    write_rust_vec_impl_1(out, inner, inst);
    assert(out.content@ =~= old(out).content@ + rust_vec_impl_text(inner@, inst@));
}

/// Lines 1 to 4 of `unique_ptr_text`.
pub open spec fn unique_ptr_text_0(inner: Seq<char>, inst: Seq<char>) -> Seq<char> {
    line("#ifndef CXXBRIDGE01_UNIQUE_PTR_"@ + inst)
        + line("#define CXXBRIDGE01_UNIQUE_PTR_"@ + inst)
        + line("static_assert(sizeof(std::unique_ptr<"@ + inner + ">) == sizeof(void *), \"\");"@)
        + line("static_assert(alignof(std::unique_ptr<"@ + inner + ">) == alignof(void *), \"\");"@)
}

/// Lines 1 to 4 of `write_unique_ptr`.
fn write_unique_ptr_0(out: &mut OutFile, inner: &str, inst: &str)
    ensures
        final(out).content@ == old(out).content@ + unique_ptr_text_0(inner@, inst@),
        same_frame(*final(out), *old(out)),
{
    let ghost c0 = out.content@;
    out.write("#ifndef CXXBRIDGE01_UNIQUE_PTR_");
    out.writeln(inst);
    let ghost c1 = out.content@;
    assert(c1 =~= c0 + line("#ifndef CXXBRIDGE01_UNIQUE_PTR_"@ + inst@));
    out.write("#define CXXBRIDGE01_UNIQUE_PTR_");
    out.writeln(inst);
    let ghost c2 = out.content@;
    assert(c2 =~= c1 + line("#define CXXBRIDGE01_UNIQUE_PTR_"@ + inst@));
    out.write("static_assert(sizeof(std::unique_ptr<");
    out.write(inner);
    out.writeln(">) == sizeof(void *), \"\");");
    let ghost c3 = out.content@;
    assert(c3 =~= c2 + line("static_assert(sizeof(std::unique_ptr<"@ + inner@ + ">) == sizeof(void *), \"\");"@));
    out.write("static_assert(alignof(std::unique_ptr<");
    out.write(inner);
    out.writeln(">) == alignof(void *), \"\");");
    let ghost c4 = out.content@;
    assert(c4 =~= c3 + line("static_assert(alignof(std::unique_ptr<"@ + inner@ + ">) == alignof(void *), \"\");"@));
    assert(out.content@ =~= old(out).content@ + unique_ptr_text_0(inner@, inst@));
}

/// Lines 5 to 8 of `unique_ptr_text`.
pub open spec fn unique_ptr_text_1(inner: Seq<char>, inst: Seq<char>) -> Seq<char> {
    line("void cxxbridge01$unique_ptr$"@ + inst + "$null(std::unique_ptr<"@ + inner + "> *ptr) noexcept {"@)
        + line("  new (ptr) std::unique_ptr<"@ + inner + ">();"@)
        + line("}"@)
        + line("void cxxbridge01$unique_ptr$"@ + inst + "$new(std::unique_ptr<"@ + inner + "> *ptr, "@ + inner + " *value) noexcept {"@)
}

/// Lines 5 to 8 of `write_unique_ptr`.
fn write_unique_ptr_1(out: &mut OutFile, inner: &str, inst: &str)
    ensures
        final(out).content@ == old(out).content@ + unique_ptr_text_1(inner@, inst@),
        same_frame(*final(out), *old(out)),
{
    let ghost c0 = out.content@;
    out.write("void cxxbridge01$unique_ptr$");
    out.write(inst);
    out.write("$null(std::unique_ptr<");
    out.write(inner);
    out.writeln("> *ptr) noexcept {");
    let ghost c1 = out.content@;
    assert(c1 =~= c0 + line("void cxxbridge01$unique_ptr$"@ + inst@ + "$null(std::unique_ptr<"@ + inner@ + "> *ptr) noexcept {"@));
    out.write("  new (ptr) std::unique_ptr<");
    out.write(inner);
    out.writeln(">();");
    let ghost c2 = out.content@;
    assert(c2 =~= c1 + line("  new (ptr) std::unique_ptr<"@ + inner@ + ">();"@));
    out.writeln("}");
    let ghost c3 = out.content@;
    assert(c3 =~= c2 + line("}"@));
    out.write("void cxxbridge01$unique_ptr$");
    out.write(inst);
    out.write("$new(std::unique_ptr<");
    out.write(inner);
    out.write("> *ptr, ");
    out.write(inner);
    out.writeln(" *value) noexcept {");
    let ghost c4 = out.content@;
    assert(c4 =~= c3 + line("void cxxbridge01$unique_ptr$"@ + inst@ + "$new(std::unique_ptr<"@ + inner@ + "> *ptr, "@ + inner@ + " *value) noexcept {"@));
    assert(out.content@ =~= old(out).content@ + unique_ptr_text_1(inner@, inst@));
}

/// Lines 9 to 12 of `unique_ptr_text`.
pub open spec fn unique_ptr_text_2(inner: Seq<char>, inst: Seq<char>) -> Seq<char> {
    line("  new (ptr) std::unique_ptr<"@ + inner + ">(new "@ + inner + "(std::move(*value)));"@)
        + line("}"@)
        + line("void cxxbridge01$unique_ptr$"@ + inst + "$raw(std::unique_ptr<"@ + inner + "> *ptr, "@ + inner + " *raw) noexcept {"@)
        + line("  new (ptr) std::unique_ptr<"@ + inner + ">(raw);"@)
}

/// Lines 9 to 12 of `write_unique_ptr`.
fn write_unique_ptr_2(out: &mut OutFile, inner: &str, inst: &str)
    ensures
        final(out).content@ == old(out).content@ + unique_ptr_text_2(inner@, inst@),
        same_frame(*final(out), *old(out)),
{
    let ghost c0 = out.content@;
    out.write("  new (ptr) std::unique_ptr<");
    out.write(inner);
    out.write(">(new ");
    out.write(inner);
    out.writeln("(std::move(*value)));");
    let ghost c1 = out.content@;
    assert(c1 =~= c0 + line("  new (ptr) std::unique_ptr<"@ + inner@ + ">(new "@ + inner@ + "(std::move(*value)));"@));
    out.writeln("}");
    let ghost c2 = out.content@;
    assert(c2 =~= c1 + line("}"@));
    out.write("void cxxbridge01$unique_ptr$");
    out.write(inst);
    out.write("$raw(std::unique_ptr<");
    out.write(inner);
    out.write("> *ptr, ");
    out.write(inner);
    out.writeln(" *raw) noexcept {");
    let ghost c3 = out.content@;
    assert(c3 =~= c2 + line("void cxxbridge01$unique_ptr$"@ + inst@ + "$raw(std::unique_ptr<"@ + inner@ + "> *ptr, "@ + inner@ + " *raw) noexcept {"@));
    out.write("  new (ptr) std::unique_ptr<");
    out.write(inner);
    out.writeln(">(raw);");
    let ghost c4 = out.content@;
    assert(c4 =~= c3 + line("  new (ptr) std::unique_ptr<"@ + inner@ + ">(raw);"@));
    assert(out.content@ =~= old(out).content@ + unique_ptr_text_2(inner@, inst@));
}

/// Lines 13 to 16 of `unique_ptr_text`.
pub open spec fn unique_ptr_text_3(inner: Seq<char>, inst: Seq<char>) -> Seq<char> {
    line("}"@)
        + line("const "@ + inner + " *cxxbridge01$unique_ptr$"@ + inst + "$get(const std::unique_ptr<"@ + inner + ">& ptr) noexcept {"@)
        + line("  return ptr.get();"@)
        + line("}"@)
}

/// Lines 13 to 16 of `write_unique_ptr`.
fn write_unique_ptr_3(out: &mut OutFile, inner: &str, inst: &str)
    ensures
        final(out).content@ == old(out).content@ + unique_ptr_text_3(inner@, inst@),
        same_frame(*final(out), *old(out)),
{
    let ghost c0 = out.content@;
    out.writeln("}");
    let ghost c1 = out.content@;
    assert(c1 =~= c0 + line("}"@));
    out.write("const ");
    out.write(inner);
    out.write(" *cxxbridge01$unique_ptr$");
    out.write(inst);
    out.write("$get(const std::unique_ptr<");
    out.write(inner);
    out.writeln(">& ptr) noexcept {");
    let ghost c2 = out.content@;
    assert(c2 =~= c1 + line("const "@ + inner@ + " *cxxbridge01$unique_ptr$"@ + inst@ + "$get(const std::unique_ptr<"@ + inner@ + ">& ptr) noexcept {"@));
    out.writeln("  return ptr.get();");
    let ghost c3 = out.content@;
    assert(c3 =~= c2 + line("  return ptr.get();"@));
    out.writeln("}");
    let ghost c4 = out.content@;
    assert(c4 =~= c3 + line("}"@));
    assert(out.content@ =~= old(out).content@ + unique_ptr_text_3(inner@, inst@));
}

/// Lines 17 to 20 of `unique_ptr_text`.
pub open spec fn unique_ptr_text_4(inner: Seq<char>, inst: Seq<char>) -> Seq<char> {
    line(inner + " *cxxbridge01$unique_ptr$"@ + inst + "$release(std::unique_ptr<"@ + inner + ">& ptr) noexcept {"@)
        + line("  return ptr.release();"@)
        + line("}"@)
        + line("void cxxbridge01$unique_ptr$"@ + inst + "$drop(std::unique_ptr<"@ + inner + "> *ptr) noexcept {"@)
}

/// Lines 17 to 20 of `write_unique_ptr`.
fn write_unique_ptr_4(out: &mut OutFile, inner: &str, inst: &str)
    ensures
        final(out).content@ == old(out).content@ + unique_ptr_text_4(inner@, inst@),
        same_frame(*final(out), *old(out)),
{
    let ghost c0 = out.content@;
    out.write(inner);
    out.write(" *cxxbridge01$unique_ptr$");
    out.write(inst);
    out.write("$release(std::unique_ptr<");
    out.write(inner);
    out.writeln(">& ptr) noexcept {");
    let ghost c1 = out.content@;
    assert(c1 =~= c0 + line(inner@ + " *cxxbridge01$unique_ptr$"@ + inst@ + "$release(std::unique_ptr<"@ + inner@ + ">& ptr) noexcept {"@));
    out.writeln("  return ptr.release();");
    let ghost c2 = out.content@;
    assert(c2 =~= c1 + line("  return ptr.release();"@));
    out.writeln("}");
    let ghost c3 = out.content@;
    assert(c3 =~= c2 + line("}"@));
    out.write("void cxxbridge01$unique_ptr$");
    out.write(inst);
    out.write("$drop(std::unique_ptr<");
    out.write(inner);
    out.writeln("> *ptr) noexcept {");
    let ghost c4 = out.content@;
    assert(c4 =~= c3 + line("void cxxbridge01$unique_ptr$"@ + inst@ + "$drop(std::unique_ptr<"@ + inner@ + "> *ptr) noexcept {"@));
    assert(out.content@ =~= old(out).content@ + unique_ptr_text_4(inner@, inst@));
}

/// Lines 21 to 23 of `unique_ptr_text`.
pub open spec fn unique_ptr_text_5(inner: Seq<char>, inst: Seq<char>) -> Seq<char> {
    line("  ptr->~unique_ptr();"@)
        + line("}"@)
        + line("#endif // CXXBRIDGE01_UNIQUE_PTR_"@ + inst)
}

/// Lines 21 to 23 of `write_unique_ptr`.
fn write_unique_ptr_5(out: &mut OutFile, inner: &str, inst: &str)
    ensures
        final(out).content@ == old(out).content@ + unique_ptr_text_5(inner@, inst@),
        same_frame(*final(out), *old(out)),
{
    let ghost c0 = out.content@;
    out.writeln("  ptr->~unique_ptr();");
    let ghost c1 = out.content@;
    assert(c1 =~= c0 + line("  ptr->~unique_ptr();"@));
    out.writeln("}");
    let ghost c2 = out.content@;
    assert(c2 =~= c1 + line("}"@));
    out.write("#endif // CXXBRIDGE01_UNIQUE_PTR_");
    out.writeln(inst);
    let ghost c3 = out.content@;
    assert(c3 =~= c2 + line("#endif // CXXBRIDGE01_UNIQUE_PTR_"@ + inst@));
    assert(out.content@ =~= old(out).content@ + unique_ptr_text_5(inner@, inst@));
}

/// The guarded entry-point definitions of one native owning-pointer instantiation.
pub open spec fn unique_ptr_text(inner: Seq<char>, inst: Seq<char>) -> Seq<char> {
    unique_ptr_text_0(inner, inst)
        + unique_ptr_text_1(inner, inst)
        + unique_ptr_text_2(inner, inst)
        + unique_ptr_text_3(inner, inst)
        + unique_ptr_text_4(inner, inst)
        + unique_ptr_text_5(inner, inst)
}

/// Writes the guarded entry-point definitions of one native owning-pointer instantiation.
fn write_unique_ptr(out: &mut OutFile, inner: &str, inst: &str)
    ensures
        final(out).content@ == old(out).content@ + unique_ptr_text(inner@, inst@),
        same_frame(*final(out), *old(out)),
{
    write_unique_ptr_0(out, inner, inst);
    write_unique_ptr_1(out, inner, inst);
    write_unique_ptr_2(out, inner, inst);
    write_unique_ptr_3(out, inner, inst);
    write_unique_ptr_4(out, inner, inst);
    write_unique_ptr_5(out, inner, inst);
    assert(out.content@ =~= old(out).content@ + unique_ptr_text(inner@, inst@));
}

/// Lines 1 to 4 of `vector_text`.
pub open spec fn vector_text_0(inner: Seq<char>, inst: Seq<char>) -> Seq<char> {
    line("#ifndef CXXBRIDGE01_vector_"@ + inst)
        + line("#define CXXBRIDGE01_vector_"@ + inst)
        + line("size_t cxxbridge01$std$vector$"@ + inst + "$length(const std::vector<"@ + inner + "> &s) noexcept {"@)
        + line("  return s.size();"@)
}

/// Lines 1 to 4 of `write_vector`.
fn write_vector_0(out: &mut OutFile, inner: &str, inst: &str)
    ensures
        final(out).content@ == old(out).content@ + vector_text_0(inner@, inst@),
        same_frame(*final(out), *old(out)),
{
    let ghost c0 = out.content@;
    out.write("#ifndef CXXBRIDGE01_vector_");
    out.writeln(inst);
    let ghost c1 = out.content@;
    assert(c1 =~= c0 + line("#ifndef CXXBRIDGE01_vector_"@ + inst@));
    out.write("#define CXXBRIDGE01_vector_");
    out.writeln(inst);
    let ghost c2 = out.content@;
    assert(c2 =~= c1 + line("#define CXXBRIDGE01_vector_"@ + inst@));
    out.write("size_t cxxbridge01$std$vector$");
    out.write(inst);
    out.write("$length(const std::vector<");
    out.write(inner);
    out.writeln("> &s) noexcept {");
    let ghost c3 = out.content@;
    assert(c3 =~= c2 + line("size_t cxxbridge01$std$vector$"@ + inst@ + "$length(const std::vector<"@ + inner@ + "> &s) noexcept {"@));
    out.writeln("  return s.size();");
    let ghost c4 = out.content@;
    assert(c4 =~= c3 + line("  return s.size();"@));
    assert(out.content@ =~= old(out).content@ + vector_text_0(inner@, inst@));
}

/// Lines 5 to 8 of `vector_text`.
pub open spec fn vector_text_1(inner: Seq<char>, inst: Seq<char>) -> Seq<char> {
    line("}"@)
        + line("void cxxbridge01$std$vector$"@ + inst + "$push_back(std::vector<"@ + inner + "> &s, const "@ + inner + " &item) noexcept {"@)
        + line("  s.push_back(item);"@)
        + line("}"@)
}

/// Lines 5 to 8 of `write_vector`.
fn write_vector_1(out: &mut OutFile, inner: &str, inst: &str)
    ensures
        final(out).content@ == old(out).content@ + vector_text_1(inner@, inst@),
        same_frame(*final(out), *old(out)),
{
    let ghost c0 = out.content@;
    out.writeln("}");
    let ghost c1 = out.content@;
    assert(c1 =~= c0 + line("}"@));
    out.write("void cxxbridge01$std$vector$");
    out.write(inst);
    out.write("$push_back(std::vector<");
    out.write(inner);
    out.write("> &s, const ");
    out.write(inner);
    out.writeln(" &item) noexcept {");
    let ghost c2 = out.content@;
    assert(c2 =~= c1 + line("void cxxbridge01$std$vector$"@ + inst@ + "$push_back(std::vector<"@ + inner@ + "> &s, const "@ + inner@ + " &item) noexcept {"@));
    out.writeln("  s.push_back(item);");
    let ghost c3 = out.content@;
    assert(c3 =~= c2 + line("  s.push_back(item);"@));
    out.writeln("}");
    let ghost c4 = out.content@;
    assert(c4 =~= c3 + line("}"@));
    assert(out.content@ =~= old(out).content@ + vector_text_1(inner@, inst@));
}

/// Lines 9 to 12 of `vector_text`.
pub open spec fn vector_text_2(inner: Seq<char>, inst: Seq<char>) -> Seq<char> {
    line("const uint8_t *cxxbridge01$std$vector$"@ + inst + "$get_unchecked(const std::vector<"@ + inner + "> &s, size_t pos) noexcept {"@)
        + line("  return &s[pos];"@)
        + line("}"@)
        + line("#endif // CXXBRIDGE01_vector_"@ + inst)
}

/// Lines 9 to 12 of `write_vector`.
fn write_vector_2(out: &mut OutFile, inner: &str, inst: &str)
    ensures
        final(out).content@ == old(out).content@ + vector_text_2(inner@, inst@),
        same_frame(*final(out), *old(out)),
{
    let ghost c0 = out.content@;
    out.write("const uint8_t *cxxbridge01$std$vector$");
    out.write(inst);
    out.write("$get_unchecked(const std::vector<");
    out.write(inner);
    out.writeln("> &s, size_t pos) noexcept {");
    let ghost c1 = out.content@;
    assert(c1 =~= c0 + line("const uint8_t *cxxbridge01$std$vector$"@ + inst@ + "$get_unchecked(const std::vector<"@ + inner@ + "> &s, size_t pos) noexcept {"@));
    out.writeln("  return &s[pos];");
    let ghost c2 = out.content@;
    assert(c2 =~= c1 + line("  return &s[pos];"@));
    out.writeln("}");
    let ghost c3 = out.content@;
    assert(c3 =~= c2 + line("}"@));
    out.write("#endif // CXXBRIDGE01_vector_");
    out.writeln(inst);
    let ghost c4 = out.content@;
    assert(c4 =~= c3 + line("#endif // CXXBRIDGE01_vector_"@ + inst@));
    assert(out.content@ =~= old(out).content@ + vector_text_2(inner@, inst@));
}

/// The guarded entry-point definitions of one native growable array instantiation.
pub open spec fn vector_text(inner: Seq<char>, inst: Seq<char>) -> Seq<char> {
    vector_text_0(inner, inst)
        + vector_text_1(inner, inst)
        + vector_text_2(inner, inst)
}

/// Writes the guarded entry-point definitions of one native growable array instantiation.
fn write_vector(out: &mut OutFile, inner: &str, inst: &str)
    ensures
        final(out).content@ == old(out).content@ + vector_text(inner@, inst@),
        same_frame(*final(out), *old(out)),
{
    write_vector_0(out, inner, inst);
    write_vector_1(out, inner, inst);
    write_vector_2(out, inner, inst);
    assert(out.content@ =~= old(out).content@ + vector_text(inner@, inst@));
}

/// Every segment followed by `::`.
pub open spec fn ns_path(ns: Seq<Seq<char>>) -> Seq<char>
    decreases ns.len(),
{
    if ns.len() == 0 {
        Seq::empty()
    } else {
        ns_path(ns.drop_last()) + ns.last() + "::"@
    }
}

/// The fully qualified native name of an instantiating type; atoms are not
/// qualified.
pub open spec fn typename(ns: Seq<Seq<char>>, t: TypeV) -> Seq<char>
    decreases t,
{
    match t {
        TypeV::Ident(id) => match atom_of(id) {
            Some(a) => cxx_name(a),
            None => ns_path(ns) + id,
        },
        TypeV::Vector(x) => "std::vector<"@ + typename(ns, *x) + ">"@,
        _ => Seq::empty(),
    }
}

/// The mangled name of an instantiating type.
pub open spec fn instance(ns: Seq<Seq<char>>, t: TypeV) -> Seq<char>
    decreases t,
{
    match t {
        TypeV::Ident(id) => match atom_of(id) {
            Some(_) => id,
            None => ns_prefix(ns) + id,
        },
        TypeV::Vector(x) => "std$vector$"@ + instance(ns, *x),
        _ => Seq::empty(),
    }
}

proof fn lemma_prefix_ends_in_separator(ns: Seq<Seq<char>>)
    requires
        ns.len() > 0,
    ensures
        ns_prefix(ns).len() > 0,
        ns_prefix(ns).last() == '$',
{
    reveal_strlit("$");
}

/// Instance names of named instantiating types are injective: two named
/// types of one namespace whose segments and names hold no `$` get the same
/// instance name, and hence the same glue symbols, exactly when their names
/// are equal.
pub proof fn lemma_instance_injective_named(ns: Seq<Seq<char>>, id1: Seq<char>, id2: Seq<char>)
    requires
        plain(id1),
        plain(id2),
    ensures
        (instance(ns, TypeV::Ident(id1)) == instance(ns, TypeV::Ident(id2))) <==> (id1 == id2),
{
    let a = instance(ns, TypeV::Ident(id1));
    let b = instance(ns, TypeV::Ident(id2));
    if a == b {
        let p = ns_prefix(ns);
        match (atom_of(id1), atom_of(id2)) {
            (Some(_), Some(_)) => {},
            (None, None) => {
                assert(id1 =~= a.subrange(p.len() as int, a.len() as int));
                assert(id2 =~= b.subrange(p.len() as int, b.len() as int));
            },
            (Some(_), None) => {
                if ns.len() > 0 {
                    lemma_prefix_ends_in_separator(ns);
                    assert(b[p.len() - 1] == '$');
                } else {
                    assert(p =~= Seq::<char>::empty());
                    assert(b =~= id2);
                }
            },
            (None, Some(_)) => {
                if ns.len() > 0 {
                    lemma_prefix_ends_in_separator(ns);
                    assert(a[p.len() - 1] == '$');
                } else {
                    assert(p =~= Seq::<char>::empty());
                    assert(a =~= id1);
                }
            },
        }
    }
}

fn qualify_path(ns: &Vec<String>, ident: &str) -> (r: String)
    ensures
        r@ == ns_path(ns_view(ns@)) + ident@,
{
    let mut r = String::new();
    let mut i: usize = 0;
    while i < ns.len()
        invariant
            i <= ns@.len(),
            r@ == ns_path(ns_view(ns@.subrange(0, i as int))),
        decreases ns@.len() - i,
    {
        r.append(ns[i].as_str());
        r.append("::");
        proof {
            let v = ns_view(ns@.subrange(0, i as int + 1));
            assert(v.drop_last() =~= ns_view(ns@.subrange(0, i as int)));
        }
        i = i + 1;
    }
    assert(ns@.subrange(0, ns@.len() as int) =~= ns@);
    r.append(ident);
    r
}

fn qualify_mangled(ns: &Vec<String>, ident: &str) -> (r: String)
    ensures
        r@ == ns_prefix(ns_view(ns@)) + ident@,
{
    let mut r = String::new();
    let mut i: usize = 0;
    while i < ns.len()
        invariant
            i <= ns@.len(),
            r@ == ns_prefix(ns_view(ns@.subrange(0, i as int))),
        decreases ns@.len() - i,
    {
        r.append(ns[i].as_str());
        r.append("$");
        proof {
            let v = ns_view(ns@.subrange(0, i as int + 1));
            assert(v.drop_last() =~= ns_view(ns@.subrange(0, i as int)));
        }
        i = i + 1;
    }
    assert(ns@.subrange(0, ns@.len() as int) =~= ns@);
    r.append(ident);
    r
}

/// Builds the fully qualified native name of an instantiating type.
pub fn to_typename(ns: &Vec<String>, t: &Type) -> (r: String)
    ensures
        r@ == typename(ns_view(ns@), type_view(t)),
    decreases t,
{
    match t {
        Type::Ident(id) => match Atom::from(id.as_str()) {
            Some(a) => String::from_str(a.to_cxx()),
            None => qualify_path(ns, id.as_str()),
        },
        Type::Vector(x) => {
            let mut r = String::from_str("std::vector<");
            let inner = to_typename(ns, x);
            r.append(inner.as_str());
            r.append(">");
            r
        },
        _ => String::new(),
    }
}

/// Builds the mangled name of an instantiating type.
pub fn to_mangled(ns: &Vec<String>, t: &Type) -> (r: String)
    ensures
        r@ == instance(ns_view(ns@), type_view(t)),
    decreases t,
{
    match t {
        Type::Ident(id) => match Atom::from(id.as_str()) {
            Some(_) => id.clone(),
            None => qualify_mangled(ns, id.as_str()),
        },
        Type::Vector(x) => {
            let mut r = String::from_str("std$vector$");
            let inner = to_mangled(ns, x);
            r.append(inner.as_str());
            r
        },
        _ => String::new(),
    }
}

/// The entry-point block of one registered type: owning pointers to host
/// values and host-owned buffers of named types, native owning pointers to
/// user types or arrays, native arrays of bytes. Other types need none.
#[verifier::opaque]
pub open spec fn extern_glue(ns: Seq<Seq<char>>, t: TypeV) -> Seq<char> {
    match t {
        TypeV::RustBox(x) => match *x {
            TypeV::Ident(id) => "\n"@ + rust_box_extern_text(ns_path(ns) + id, ns_prefix(ns) + id),
            _ => Seq::empty(),
        },
        TypeV::RustVec(x) => match *x {
            TypeV::Ident(_) => "\n"@ + rust_vec_extern_text(typename(ns, *x), instance(ns, *x)),
            _ => Seq::empty(),
        },
        TypeV::UniquePtr(x) => match *x {
            TypeV::Ident(id) => if atom_of(id).is_none() {
                "\n"@ + unique_ptr_text(typename(ns, *x), instance(ns, *x))
            } else {
                Seq::empty()
            },
            TypeV::Vector(_) => "\n"@ + unique_ptr_text(typename(ns, *x), instance(ns, *x)),
            _ => Seq::empty(),
        },
        TypeV::Vector(x) => match *x {
            TypeV::Ident(id) => if atom_of(id) == Some(Atom::U8) {
                "\n"@ + vector_text(typename(ns, *x), instance(ns, *x))
            } else {
                Seq::empty()
            },
            _ => Seq::empty(),
        },
        _ => Seq::empty(),
    }
}

/// The member definitions of one registered type, for host-side generics.
#[verifier::opaque]
pub open spec fn impl_glue(ns: Seq<Seq<char>>, t: TypeV) -> Seq<char> {
    match t {
        TypeV::RustBox(x) => match *x {
            TypeV::Ident(id) => rust_box_impl_text(ns_path(ns) + id, ns_prefix(ns) + id),
            _ => Seq::empty(),
        },
        TypeV::RustVec(x) => match *x {
            TypeV::Ident(_) => rust_vec_impl_text(typename(ns, *x), instance(ns, *x)),
            _ => Seq::empty(),
        },
        _ => Seq::empty(),
    }
}

pub open spec fn all_extern_glue(ns: Seq<Seq<char>>, ts: Seq<TypeV>) -> Seq<char>
    decreases ts.len(),
{
    if ts.len() == 0 {
        Seq::empty()
    } else {
        all_extern_glue(ns, ts.drop_last()) + extern_glue(ns, ts.last())
    }
}

pub open spec fn all_impl_glue(ns: Seq<Seq<char>>, ts: Seq<TypeV>) -> Seq<char>
    decreases ts.len(),
{
    if ts.len() == 0 {
        Seq::empty()
    } else {
        all_impl_glue(ns, ts.drop_last()) + impl_glue(ns, ts.last())
    }
}

/// The per-instantiation glue of a module: one block per registered type
/// that needs one, in registry order.
pub open spec fn generic_instantiations_text(ns: Seq<Seq<char>>, ts: Seq<TypeV>) -> Seq<char> {
    line("extern \"C\" {"@) + all_extern_glue(ns, ts) + line("} // extern \"C\""@) + line(
        "namespace cxxbridge01 {"@,
    ) + all_impl_glue(ns, ts) + line("} // namespace cxxbridge01"@)
}

fn write_extern_glue(out: &mut OutFile, t: &Type)
    ensures
        final(out).content@ == old(out).content@ + extern_glue(
            ns_view(old(out).namespace@),
            type_view(t),
        ),
        same_frame(*final(out), *old(out)),
{
    proof {
        reveal_with_fuel(type_view, 2);
        reveal(extern_glue);
    }
    match t {
        Type::RustBox(x) => match &**x {
            Type::Ident(id) => {
                out.next_section();
                let inner = qualify_path(&out.namespace, id.as_str());
                let inst = qualify_mangled(&out.namespace, id.as_str());
                write_rust_box_extern(out, inner.as_str(), inst.as_str());
            },
            _ => {},
        },
        Type::RustVec(x) => match &**x {
            Type::Ident(_) => {
                out.next_section();
                let inner = to_typename(&out.namespace, x);
                let inst = to_mangled(&out.namespace, x);
                write_rust_vec_extern(out, inner.as_str(), inst.as_str());
            },
            _ => {},
        },
        Type::UniquePtr(x) => {
            let allowed = match &**x {
                Type::Ident(id) => Atom::from(id.as_str()).is_none(),
                Type::Vector(_) => true,
                _ => false,
            };
            if allowed {
                out.next_section();
                let inner = to_typename(&out.namespace, x);
                let inst = to_mangled(&out.namespace, x);
                write_unique_ptr(out, inner.as_str(), inst.as_str());
            }
        },
        Type::Vector(x) => match &**x {
            Type::Ident(id) => {
                if Atom::from(id.as_str()) == Some(Atom::U8) {
                    out.next_section();
                    let inner = to_typename(&out.namespace, x);
                    let inst = to_mangled(&out.namespace, x);
                    write_vector(out, inner.as_str(), inst.as_str());
                }
            },
            _ => {},
        },
        _ => {},
    }
    assert(out.content@ =~= old(out).content@ + extern_glue(ns_view(old(out).namespace@), type_view(t)));
}

fn write_impl_glue(out: &mut OutFile, t: &Type)
    ensures
        final(out).content@ == old(out).content@ + impl_glue(
            ns_view(old(out).namespace@),
            type_view(t),
        ),
        same_frame(*final(out), *old(out)),
{
    proof {
        reveal_with_fuel(type_view, 2);
        reveal(impl_glue);
    }
    match t {
        Type::RustBox(x) => match &**x {
            Type::Ident(id) => {
                let inner = qualify_path(&out.namespace, id.as_str());
                let inst = qualify_mangled(&out.namespace, id.as_str());
                write_rust_box_impl(out, inner.as_str(), inst.as_str());
            },
            _ => {},
        },
        Type::RustVec(x) => match &**x {
            Type::Ident(_) => {
                let inner = to_typename(&out.namespace, x);
                let inst = to_mangled(&out.namespace, x);
                write_rust_vec_impl(out, inner.as_str(), inst.as_str());
            },
            _ => {},
        },
        _ => {},
    }
    assert(out.content@ =~= old(out).content@ + impl_glue(ns_view(old(out).namespace@), type_view(t)));
}

fn write_all_extern_glue(out: &mut OutFile, types: &Types)
    ensures
        final(out).content@ == old(out).content@ + all_extern_glue(
            ns_view(old(out).namespace@),
            types.all_view(),
        ),
        same_frame(*final(out), *old(out)),
{
    let ghost ns = ns_view(out.namespace@);
    let ghost ts = types.all_view();
    let mut i: usize = 0;
    while i < types.all.len()
        invariant
            i <= ts.len(),
            ts == types.all_view(),
            ns == ns_view(out.namespace@),
            out.content@ == old(out).content@ + all_extern_glue(ns, ts.subrange(0, i as int)),
            same_frame(*out, *old(out)),
        decreases ts.len() - i,
    {
        write_extern_glue(out, &types.all[i]);
        proof {
            let t = ts.subrange(0, i as int + 1);
            assert(t.drop_last() =~= ts.subrange(0, i as int));
            assert(out.content@ =~= old(out).content@ + all_extern_glue(ns, t));
        }
        i = i + 1;
    }
    assert(ts.subrange(0, ts.len() as int) =~= ts);
}

fn write_all_impl_glue(out: &mut OutFile, types: &Types)
    ensures
        final(out).content@ == old(out).content@ + all_impl_glue(
            ns_view(old(out).namespace@),
            types.all_view(),
        ),
        same_frame(*final(out), *old(out)),
{
    let ghost ns = ns_view(out.namespace@);
    let ghost ts = types.all_view();
    let mut i: usize = 0;
    while i < types.all.len()
        invariant
            i <= ts.len(),
            ts == types.all_view(),
            ns == ns_view(out.namespace@),
            out.content@ == old(out).content@ + all_impl_glue(ns, ts.subrange(0, i as int)),
            same_frame(*out, *old(out)),
        decreases ts.len() - i,
    {
        write_impl_glue(out, &types.all[i]);
        proof {
            let t = ts.subrange(0, i as int + 1);
            assert(t.drop_last() =~= ts.subrange(0, i as int));
            assert(out.content@ =~= old(out).content@ + all_impl_glue(ns, t));
        }
        i = i + 1;
    }
    assert(ts.subrange(0, ts.len() as int) =~= ts);
}

/// Writes the glue of every generic instantiation in the registry; each
/// registered type contributes at most one guarded block.
pub fn write_generic_instantiations(out: &mut OutFile, types: &Types)
    ensures
        final(out).content@ == old(out).content@ + generic_instantiations_text(
            ns_view(old(out).namespace@),
            types.all_view(),
        ),
        same_frame(*final(out), *old(out)),
{
    out.writeln("extern \"C\" {");
    write_all_extern_glue(out, types);
    out.writeln("} // extern \"C\"");
    out.writeln("namespace cxxbridge01 {");
    write_all_impl_glue(out, types);
    out.writeln("} // namespace cxxbridge01");
    assert(out.content@ =~= old(out).content@ + generic_instantiations_text(
        ns_view(old(out).namespace@),
        types.all_view(),
    ));
}

/// The per-instantiation blocks of a header: the guarded entry-point blocks
/// alone, without member definitions.
pub open spec fn generic_decls_text(ns: Seq<Seq<char>>, ts: Seq<TypeV>) -> Seq<char> {
    line("extern \"C\" {"@) + all_extern_glue(ns, ts) + line("} // extern \"C\""@)
}

/// Writes the guarded entry-point block of every generic instantiation in
/// the registry, for a header.
pub fn write_generic_decls(out: &mut OutFile, types: &Types)
    ensures
        final(out).content@ == old(out).content@ + generic_decls_text(
            ns_view(old(out).namespace@),
            types.all_view(),
        ),
        same_frame(*final(out), *old(out)),
{
    out.writeln("extern \"C\" {");
    write_all_extern_glue(out, types);
    out.writeln("} // extern \"C\"");
    assert(out.content@ =~= old(out).content@ + generic_decls_text(
        ns_view(old(out).namespace@),
        types.all_view(),
    ));
}

} // verus!
