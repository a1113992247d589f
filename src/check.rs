use crate::atom::{atom_of, Atom};
use crate::syntax::{type_view, Api, ExternFn, Type, TypeV, Var};
use vstd::prelude::*;

verus! {

/// What an ABI-legality violation is.
#[derive(Clone, Copy, PartialEq, Eq, Debug, Structural)]
pub enum ErrorKind {
    /// A named type that is neither an atom nor declared in the module.
    UndeclaredType,
    /// A type declared more than once.
    DuplicateType,
    /// A function declared on both sides.
    DuplicateFunction,
    /// A native growable array by value, where only a reference or an owning
    /// pointer may hold one.
    VectorByValue,
    /// A generic container directly inside another.
    NestedContainer,
    /// A declared type named like an atom, which would shadow it.
    ReservedName,
}

/// One violation, with the name of the offending item or type.
pub struct CheckError {
    pub kind: ErrorKind,
    pub name: String,
}

pub type ErrV = (ErrorKind, Seq<char>);

pub open spec fn errs_view(es: Seq<CheckError>) -> Seq<ErrV> {
    es.map_values(|e: CheckError| (e.kind, e.name@))
}

/// The type name an item declares, if any.
pub open spec fn decl_name(a: Api) -> Option<Seq<char>> {
    match a {
        Api::Struct(s) => Some(s.ident@),
        Api::CxxType(id) => Some(id@),
        Api::RustType(id) => Some(id@),
        _ => None,
    }
}

pub open spec fn declared(apis: Seq<Api>, name: Seq<char>) -> bool {
    exists|i: int| 0 <= i < apis.len() && decl_name(apis[i]) == Some(name)
}

pub open spec fn is_container(t: TypeV) -> bool {
    t is RustBox || t is RustVec || t is UniquePtr || t is Vector
}

pub open spec fn one_if(b: bool, e: ErrV) -> Seq<ErrV> {
    if b {
        seq![e]
    } else {
        Seq::empty()
    }
}

/// The violations in type `t` of item `owner`; `by_value` holds where `t`
/// is held directly rather than behind a reference or pointer.
pub open spec fn type_errors(apis: Seq<Api>, owner: Seq<char>, t: TypeV, by_value: bool) -> Seq<
    ErrV,
>
    decreases t,
{
    match t {
        TypeV::Ident(id) => one_if(
            atom_of(id).is_none() && !declared(apis, id),
            (ErrorKind::UndeclaredType, id),
        ),
        TypeV::Vector(x) => one_if(by_value, (ErrorKind::VectorByValue, owner)) + one_if(
            is_container(*x),
            (ErrorKind::NestedContainer, owner),
        ) + type_errors(apis, owner, *x, false),
        TypeV::UniquePtr(x) => one_if(
            is_container(*x) && !(*x is Vector),
            (ErrorKind::NestedContainer, owner),
        ) + type_errors(apis, owner, *x, false),
        TypeV::RustBox(x) => one_if(is_container(*x), (ErrorKind::NestedContainer, owner))
            + type_errors(apis, owner, *x, false),
        TypeV::RustVec(x) => one_if(is_container(*x), (ErrorKind::NestedContainer, owner))
            + type_errors(apis, owner, *x, false),
        TypeV::Ref(_, x) => type_errors(apis, owner, *x, false),
        TypeV::Str => Seq::empty(),
    }
}

pub open spec fn vars_errors(apis: Seq<Api>, owner: Seq<char>, vs: Seq<Var>) -> Seq<ErrV>
    decreases vs.len(),
{
    if vs.len() == 0 {
        Seq::empty()
    } else {
        vars_errors(apis, owner, vs.drop_last()) + type_errors(
            apis,
            owner,
            type_view(&vs.last().ty),
            true,
        )
    }
}

pub open spec fn fn_errors(apis: Seq<Api>, f: ExternFn) -> Seq<ErrV> {
    vars_errors(apis, f.ident@, f.args@) + match f.ret {
        Some(t) => type_errors(apis, f.ident@, type_view(&t), true),
        None => Seq::empty(),
    }
}

/// Whether an item before position `i` declares the same type name as item `i`.
pub open spec fn redeclared(apis: Seq<Api>, i: int) -> bool {
    decl_name(apis[i]) is Some && exists|j: int| 0 <= j < i && decl_name(apis[j]) == decl_name(
        apis[i],
    )
}

/// Whether a function of the other side with the same name comes before
/// position `i`.
pub open spec fn crosses_sides(apis: Seq<Api>, i: int) -> bool {
    match apis[i] {
        Api::CxxFunction(f) => exists|j: int|
            0 <= j < i && (match #[trigger] apis[j] {
                Api::RustFunction(g) => g.ident@ == f.ident@,
                _ => false,
            }),
        Api::RustFunction(f) => exists|j: int|
            0 <= j < i && (match #[trigger] apis[j] {
                Api::CxxFunction(g) => g.ident@ == f.ident@,
                _ => false,
            }),
        _ => false,
    }
}

/// The violations of the declaration of type `name` at position `i`.
pub open spec fn decl_errors(apis: Seq<Api>, i: int, name: Seq<char>) -> Seq<ErrV> {
    one_if(atom_of(name) is Some, (ErrorKind::ReservedName, name)) + one_if(
        redeclared(apis, i),
        (ErrorKind::DuplicateType, name),
    )
}

pub open spec fn item_errors(apis: Seq<Api>, i: int) -> Seq<ErrV> {
    match apis[i] {
        Api::Struct(s) => decl_errors(apis, i, s.ident@) + vars_errors(apis, s.ident@, s.fields@),
        Api::CxxType(id) => decl_errors(apis, i, id@),
        Api::RustType(id) => decl_errors(apis, i, id@),
        Api::CxxFunction(f) => one_if(crosses_sides(apis, i), (ErrorKind::DuplicateFunction, f.ident@))
            + fn_errors(apis, f),
        Api::RustFunction(f) => one_if(crosses_sides(apis, i), (ErrorKind::DuplicateFunction, f.ident@))
            + fn_errors(apis, f),
        Api::Header(_) => Seq::empty(),
    }
}

/// Every violation in the first `n` items, in item order.
pub open spec fn errors_upto(apis: Seq<Api>, n: int) -> Seq<ErrV>
    decreases n,
{
    if n <= 0 {
        Seq::empty()
    } else {
        errors_upto(apis, n - 1) + item_errors(apis, n - 1)
    }
}

/// Every violation in an interface module.
pub open spec fn module_errors(apis: Seq<Api>) -> Seq<ErrV> {
    errors_upto(apis, apis.len() as int)
}

proof fn lemma_prefix_kept(apis: Seq<Api>, m: int, n: int)
    requires
        0 <= m <= n,
    ensures
        errors_upto(apis, m).len() <= errors_upto(apis, n).len(),
        errors_upto(apis, n).subrange(0, errors_upto(apis, m).len() as int) == errors_upto(apis, m),
    decreases n - m,
{
    if m < n {
        lemma_prefix_kept(apis, m, n - 1);
        let a = errors_upto(apis, m);
        let b = errors_upto(apis, n - 1);
        assert(errors_upto(apis, n) == b + item_errors(apis, n - 1));
        assert(errors_upto(apis, n).subrange(0, a.len() as int) =~= b.subrange(0, a.len() as int));
    } else {
        assert(errors_upto(apis, n).subrange(0, errors_upto(apis, n).len() as int) =~= errors_upto(
            apis,
            n,
        ));
    }
}

/// Diagnostics are gathered, not cut short: the violations of every item of
/// a module appear, whole and in order, in the module's report, whatever the
/// other items hold.
pub proof fn lemma_every_item_reported(apis: Seq<Api>, i: int)
    requires
        0 <= i < apis.len(),
    ensures
        exists|off: int|
            0 <= off && off + item_errors(apis, i).len() <= module_errors(apis).len()
                && #[trigger] module_errors(apis).subrange(off, off + item_errors(apis, i).len())
                == item_errors(apis, i),
{
    let off = errors_upto(apis, i).len() as int;
    let mine = item_errors(apis, i);
    lemma_prefix_kept(apis, i + 1, apis.len() as int);
    let upto = errors_upto(apis, i + 1);
    assert(upto == errors_upto(apis, i) + mine);
    assert(upto.subrange(off, off + mine.len()) =~= mine);
    let all = module_errors(apis);
    assert(all.subrange(0, upto.len() as int) == upto);
    assert(all.subrange(off, off + mine.len()) =~= upto.subrange(off, off + mine.len()));
}

fn decl_name_of(a: &Api) -> (r: Option<&String>)
    ensures
        match r {
            Some(s) => decl_name(*a) == Some(s@),
            None => decl_name(*a) is None,
        },
{
    match a {
        Api::Struct(s) => Some(&s.ident),
        Api::CxxType(id) => Some(id),
        Api::RustType(id) => Some(id),
        _ => None,
    }
}

fn is_declared(apis: &Vec<Api>, name: &str) -> (r: bool)
    ensures
        r == declared(apis@, name@),
{
    let mut i: usize = 0;
    while i < apis.len()
        invariant
            i <= apis@.len(),
            forall|j: int| 0 <= j < i ==> decl_name(apis@[j]) != Some(name@),
        decreases apis@.len() - i,
    {
        match decl_name_of(&apis[i]) {
            Some(n) => {
                if crate::text::str_eq(n.as_str(), name) {
                    return true;
                }
            },
            None => {},
        }
        i = i + 1;
    }
    false
}

fn is_redeclared(apis: &Vec<Api>, i: usize) -> (r: bool)
    requires
        i < apis@.len(),
    ensures
        r == redeclared(apis@, i as int),
{
    match decl_name_of(&apis[i]) {
        Some(name) => {
            let mut j: usize = 0;
            while j < i
                invariant
                    j <= i < apis@.len(),
                    decl_name(apis@[i as int]) == Some(name@),
                    forall|k: int| 0 <= k < j ==> decl_name(apis@[k]) != Some(name@),
                decreases i - j,
            {
                match decl_name_of(&apis[j]) {
                    Some(n) => {
                        if crate::text::str_eq(n.as_str(), name.as_str()) {
                            return true;
                        }
                    },
                    None => {},
                }
                j = j + 1;
            }
            false
        },
        None => false,
    }
}

fn is_crossing(apis: &Vec<Api>, i: usize) -> (r: bool)
    requires
        i < apis@.len(),
    ensures
        r == crosses_sides(apis@, i as int),
{
    let (native, name) = match &apis[i] {
        Api::CxxFunction(f) => (true, &f.ident),
        Api::RustFunction(f) => (false, &f.ident),
        _ => return false,
    };
    let mut j: usize = 0;
    while j < i
        invariant
            j <= i < apis@.len(),
            native ==> (apis@[i as int] matches Api::CxxFunction(f) && f.ident@ == name@),
            !native ==> (apis@[i as int] matches Api::RustFunction(f) && f.ident@ == name@),
            forall|k: int|
                0 <= k < j ==> !(match #[trigger] apis@[k] {
                    Api::RustFunction(g) => native && g.ident@ == name@,
                    Api::CxxFunction(g) => !native && g.ident@ == name@,
                    _ => false,
                }),
        decreases i - j,
    {
        let hit = match &apis[j] {
            Api::RustFunction(g) => native && crate::text::str_eq(g.ident.as_str(), name.as_str()),
            Api::CxxFunction(g) => !native && crate::text::str_eq(g.ident.as_str(), name.as_str()),
            _ => false,
        };
        if hit {
            return true;
        }
        j = j + 1;
    }
    false
}

fn push_err(errs: &mut Vec<CheckError>, kind: ErrorKind, name: &str)
    ensures
        errs_view(final(errs)@) == errs_view(old(errs)@) + seq![(kind, name@)],
{
    errs.push(CheckError { kind, name: String::from_str(name) });
    assert(errs_view(errs@) =~= errs_view(old(errs)@) + seq![(kind, name@)]);
}

fn is_container_type(t: &Type) -> (r: bool)
    ensures
        r == is_container(type_view(t)),
{
    match t {
        Type::RustBox(_) | Type::RustVec(_) | Type::UniquePtr(_) | Type::Vector(_) => true,
        _ => false,
    }
}

fn check_type(
    apis: &Vec<Api>,
    owner: &str,
    t: &Type,
    by_value: bool,
    errs: &mut Vec<CheckError>,
)
    ensures
        errs_view(final(errs)@) == errs_view(old(errs)@) + type_errors(
            apis@,
            owner@,
            type_view(t),
            by_value,
        ),
    decreases t,
{
    let ghost e0 = errs_view(errs@);
    match t {
        Type::Ident(id) => {
            if Atom::from(id.as_str()).is_none() && !is_declared(apis, id.as_str()) {
                push_err(errs, ErrorKind::UndeclaredType, id.as_str());
            }
        },
        Type::Vector(x) => {
            if by_value {
                push_err(errs, ErrorKind::VectorByValue, owner);
            }
            if is_container_type(x) {
                push_err(errs, ErrorKind::NestedContainer, owner);
            }
            check_type(apis, owner, x, false, errs);
        },
        Type::UniquePtr(x) => {
            let vector_inside = match &**x {
                Type::Vector(_) => true,
                _ => false,
            };
            if is_container_type(x) && !vector_inside {
                push_err(errs, ErrorKind::NestedContainer, owner);
            }
            check_type(apis, owner, x, false, errs);
        },
        Type::RustBox(x) | Type::RustVec(x) => {
            if is_container_type(x) {
                push_err(errs, ErrorKind::NestedContainer, owner);
            }
            check_type(apis, owner, x, false, errs);
        },
        Type::Ref(_, x) => check_type(apis, owner, x, false, errs),
        Type::Str => {},
    }
    assert(errs_view(errs@) =~= e0 + type_errors(apis@, owner@, type_view(t), by_value));
}

fn check_vars(apis: &Vec<Api>, owner: &str, vs: &Vec<Var>, errs: &mut Vec<CheckError>)
    ensures
        errs_view(final(errs)@) == errs_view(old(errs)@) + vars_errors(apis@, owner@, vs@),
{
    let mut i: usize = 0;
    while i < vs.len()
        invariant
            i <= vs@.len(),
            errs_view(errs@) == errs_view(old(errs)@) + vars_errors(
                apis@,
                owner@,
                vs@.subrange(0, i as int),
            ),
        decreases vs@.len() - i,
    {
        check_type(apis, owner, &vs[i].ty, true, errs);
        proof {
            let t = vs@.subrange(0, i as int + 1);
            assert(t.drop_last() =~= vs@.subrange(0, i as int));
            assert(errs_view(errs@) =~= errs_view(old(errs)@) + vars_errors(apis@, owner@, t));
        }
        i = i + 1;
    }
    assert(vs@.subrange(0, vs@.len() as int) =~= vs@);
}

fn check_fn(apis: &Vec<Api>, f: &ExternFn, errs: &mut Vec<CheckError>)
    ensures
        errs_view(final(errs)@) == errs_view(old(errs)@) + fn_errors(apis@, *f),
{
    check_vars(apis, f.ident.as_str(), &f.args, errs);
    match &f.ret {
        Some(t) => check_type(apis, f.ident.as_str(), t, true, errs),
        None => {},
    }
    assert(errs_view(errs@) =~= errs_view(old(errs)@) + fn_errors(apis@, *f));
}

/// Checks an interface module and reports every violation, in item order,
/// not only the first.
pub fn typecheck(apis: &Vec<Api>) -> (r: Vec<CheckError>)
    ensures
        errs_view(r@) == module_errors(apis@),
{
    let mut errs: Vec<CheckError> = Vec::new();
    let mut i: usize = 0;
    assert(errs_view(errs@) =~= Seq::<ErrV>::empty());
    while i < apis.len()
        invariant
            i <= apis@.len(),
            errs_view(errs@) == errors_upto(apis@, i as int),
        decreases apis@.len() - i,
    {
        let ghost e0 = errs_view(errs@);
        match &apis[i] {
            Api::Struct(s) => {
                if Atom::from(s.ident.as_str()).is_some() {
                    push_err(&mut errs, ErrorKind::ReservedName, s.ident.as_str());
                }
                if is_redeclared(apis, i) {
                    push_err(&mut errs, ErrorKind::DuplicateType, s.ident.as_str());
                }
                check_vars(apis, s.ident.as_str(), &s.fields, &mut errs);
            },
            Api::CxxType(id) | Api::RustType(id) => {
                if Atom::from(id.as_str()).is_some() {
                    push_err(&mut errs, ErrorKind::ReservedName, id.as_str());
                }
                if is_redeclared(apis, i) {
                    push_err(&mut errs, ErrorKind::DuplicateType, id.as_str());
                }
            },
            Api::CxxFunction(f) | Api::RustFunction(f) => {
                if is_crossing(apis, i) {
                    push_err(&mut errs, ErrorKind::DuplicateFunction, f.ident.as_str());
                }
                check_fn(apis, f, &mut errs);
            },
            Api::Header(_) => {},
        }
        assert(errs_view(errs@) =~= e0 + item_errors(apis@, i as int));
        i = i + 1;
    }
    errs
}

} // verus!
