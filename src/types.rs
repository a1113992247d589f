use crate::atom::{atom_of, Atom};
use crate::syntax::{clone_type, type_eq, type_view, Api, Type, TypeV, Var};
use vstd::prelude::*;

verus! {

/// Appends `t` unless it is already present.
pub open spec fn add_type(acc: Seq<TypeV>, t: TypeV) -> Seq<TypeV> {
    if acc.contains(t) {
        acc
    } else {
        acc.push(t)
    }
}

/// Adds `t` and then each type nested inside it.
pub open spec fn add_visit(acc: Seq<TypeV>, t: TypeV) -> Seq<TypeV>
    decreases t,
{
    match t {
        TypeV::RustBox(x) => add_visit(add_type(acc, t), *x),
        TypeV::RustVec(x) => add_visit(add_type(acc, t), *x),
        TypeV::UniquePtr(x) => add_visit(add_type(acc, t), *x),
        TypeV::Vector(x) => add_visit(add_type(acc, t), *x),
        TypeV::Ref(_, x) => add_visit(add_type(acc, t), *x),
        _ => add_type(acc, t),
    }
}

pub open spec fn add_vars(acc: Seq<TypeV>, vs: Seq<Var>) -> Seq<TypeV>
    decreases vs.len(),
{
    if vs.len() == 0 {
        acc
    } else {
        add_visit(add_vars(acc, vs.drop_last()), type_view(&vs.last().ty))
    }
}

pub open spec fn add_api(acc: Seq<TypeV>, a: Api) -> Seq<TypeV> {
    match a {
        Api::Struct(s) => add_vars(acc, s.fields@),
        Api::CxxFunction(f) | Api::RustFunction(f) => {
            let with_args = add_vars(acc, f.args@);
            match f.ret {
                Some(t) => add_visit(with_args, type_view(&t)),
                None => with_args,
            }
        },
        _ => acc,
    }
}

/// Every type mentioned in `apis`, nested ones included, each once, in order
/// of first mention.
pub open spec fn add_apis(acc: Seq<TypeV>, apis: Seq<Api>) -> Seq<TypeV>
    decreases apis.len(),
{
    if apis.len() == 0 {
        acc
    } else {
        add_api(add_apis(acc, apis.drop_last()), apis.last())
    }
}

/// The shared structs of a module: each name with its field types, in
/// declaration order.
pub type StructDefs = Seq<(Seq<char>, Seq<TypeV>)>;

/// The shared structs declared in `apis`.
pub open spec fn struct_defs(apis: Seq<Api>) -> StructDefs
    decreases apis.len(),
{
    if apis.len() == 0 {
        Seq::empty()
    } else {
        let rest = struct_defs(apis.drop_last());
        match apis.last() {
            Api::Struct(s) => rest.push((s.ident@, s.fields@.map_values(|v: Var| type_view(&v.ty)))),
            _ => rest,
        }
    }
}

/// The field types of the first struct named `id`, if any.
pub open spec fn lookup(defs: StructDefs, id: Seq<char>) -> Option<Seq<TypeV>>
    decreases defs.len(),
{
    if defs.len() == 0 {
        None
    } else if defs[0].0 == id {
        Some(defs[0].1)
    } else {
        lookup(defs.skip(1), id)
    }
}

/// Whether `t` needs indirect ABI, following struct fields at most `depth`
/// levels deep.
pub open spec fn indirect_at(defs: StructDefs, t: TypeV, depth: nat) -> bool
    decreases depth, 0nat,
{
    match t {
        TypeV::Ident(id) => match atom_of(id) {
            Some(a) => a == Atom::RustString,
            None => match lookup(defs, id) {
                Some(fs) => depth > 0 && any_indirect(defs, fs, (depth - 1) as nat),
                None => false,
            },
        },
        TypeV::RustVec(_) => true,
        _ => false,
    }
}

/// Whether one of the types `fs` needs indirect ABI, following struct fields
/// at most `depth` levels deep.
pub open spec fn any_indirect(defs: StructDefs, fs: Seq<TypeV>, depth: nat) -> bool
    decreases depth, fs.len(),
{
    if fs.len() == 0 {
        false
    } else {
        any_indirect(defs, fs.drop_last(), depth) || indirect_at(defs, fs.last(), depth)
    }
}

/// Whether a value of `t` crosses the boundary through a caller-supplied
/// buffer rather than by bit copy: host strings, host-owned buffers, and
/// shared structs with a field that needs it. A chain of nested structs is
/// followed as deep as there are structs, so a cycle ends.
pub open spec fn needs_indirect(structs: StructDefs, t: TypeV) -> bool {
    indirect_at(structs, t, structs.len())
}

pub open spec fn distinct(s: Seq<TypeV>) -> bool {
    forall|i: int, j: int| 0 <= i < j < s.len() ==> s[i] != s[j]
}

/// How a type crosses the boundary.
#[derive(Clone, Copy, PartialEq, Eq, Debug, Structural)]
pub enum AbiCategory {
    /// Held by value: primitive atoms and shared structs. Whether such a
    /// value is copied bit for bit or goes through a buffer is
    /// `needs_indirect`.
    TrivialByValue,
    /// An opaque type, only ever reached through a reference or pointer.
    OpaqueReferenceOnly,
    /// An owning pointer, on either side.
    OwningPointer,
    /// A growable buffer owned by the host.
    OwnedBuffer,
    /// A native growable array.
    BorrowedArray,
    /// A reference.
    Reference,
    /// A string of either side, or a borrowed string slice.
    String,
}

/// The category of `t` in a module whose shared structs are `structs`.
pub open spec fn category(structs: StructDefs, t: TypeV) -> AbiCategory {
    match t {
        TypeV::Ident(id) => match atom_of(id) {
            Some(Atom::RustString) | Some(Atom::CxxString) => AbiCategory::String,
            Some(_) => AbiCategory::TrivialByValue,
            None => if lookup(structs, id) is Some {
                AbiCategory::TrivialByValue
            } else {
                AbiCategory::OpaqueReferenceOnly
            },
        },
        TypeV::RustBox(_) | TypeV::UniquePtr(_) => AbiCategory::OwningPointer,
        TypeV::RustVec(_) => AbiCategory::OwnedBuffer,
        TypeV::Vector(_) => AbiCategory::BorrowedArray,
        TypeV::Ref(_, _) => AbiCategory::Reference,
        TypeV::Str => AbiCategory::String,
    }
}

proof fn lemma_add_type_distinct(acc: Seq<TypeV>, t: TypeV)
    requires
        distinct(acc),
    ensures
        distinct(add_type(acc, t)),
        add_type(acc, t).contains(t),
{
    if !acc.contains(t) {
        assert(acc.push(t)[acc.len() as int] == t);
    }
}

proof fn lemma_add_visit_distinct(acc: Seq<TypeV>, t: TypeV)
    requires
        distinct(acc),
    ensures
        distinct(add_visit(acc, t)),
    decreases t,
{
    lemma_add_type_distinct(acc, t);
    match t {
        TypeV::RustBox(x) => lemma_add_visit_distinct(add_type(acc, t), *x),
        TypeV::RustVec(x) => lemma_add_visit_distinct(add_type(acc, t), *x),
        TypeV::UniquePtr(x) => lemma_add_visit_distinct(add_type(acc, t), *x),
        TypeV::Vector(x) => lemma_add_visit_distinct(add_type(acc, t), *x),
        TypeV::Ref(_, x) => lemma_add_visit_distinct(add_type(acc, t), *x),
        _ => {},
    }
}

proof fn lemma_add_vars_distinct(acc: Seq<TypeV>, vs: Seq<Var>)
    requires
        distinct(acc),
    ensures
        distinct(add_vars(acc, vs)),
    decreases vs.len(),
{
    if vs.len() > 0 {
        lemma_add_vars_distinct(acc, vs.drop_last());
        lemma_add_visit_distinct(add_vars(acc, vs.drop_last()), type_view(&vs.last().ty));
    }
}

proof fn lemma_add_apis_distinct(acc: Seq<TypeV>, apis: Seq<Api>)
    requires
        distinct(acc),
    ensures
        distinct(add_apis(acc, apis)),
    decreases apis.len(),
{
    if apis.len() > 0 {
        let before = add_apis(acc, apis.drop_last());
        lemma_add_apis_distinct(acc, apis.drop_last());
        match apis.last() {
            Api::Struct(s) => lemma_add_vars_distinct(before, s.fields@),
            Api::CxxFunction(f) | Api::RustFunction(f) => {
                lemma_add_vars_distinct(before, f.args@);
                match f.ret {
                    Some(t) => lemma_add_visit_distinct(add_vars(before, f.args@), type_view(&t)),
                    None => {},
                }
            },
            _ => {},
        }
    }
}

/// The registry of a module holds every type at most once, however often the
/// module mentions it, so each generic instantiation is written out once.
pub proof fn lemma_registry_distinct(apis: Seq<Api>)
    ensures
        distinct(add_apis(Seq::empty(), apis)),
{
    lemma_add_apis_distinct(Seq::empty(), apis);
}

/// A shared struct as the registry keeps it.
pub struct StructDef {
    pub name: String,
    pub fields: Vec<Type>,
}

pub open spec fn def_view(d: StructDef) -> (Seq<char>, Seq<TypeV>) {
    (d.name@, d.fields@.map_values(|t: Type| type_view(&t)))
}

/// The registry of the types of one interface module.
pub struct Types {
    pub all: Vec<Type>,
    pub structs: Vec<StructDef>,
}

fn field_types(vs: &Vec<Var>) -> (r: Vec<Type>)
    ensures
        r@.map_values(|t: Type| type_view(&t)) == vs@.map_values(|v: Var| type_view(&v.ty)),
{
    let mut r: Vec<Type> = Vec::new();
    let mut i: usize = 0;
    while i < vs.len()
        invariant
            i <= vs@.len(),
            r@.len() == i,
            forall|j: int| 0 <= j < i ==> type_view(&r@[j]) == type_view(&vs@[j].ty),
        decreases vs@.len() - i,
    {
        r.push(clone_type(&vs[i].ty));
        i = i + 1;
    }
    assert(r@.map_values(|t: Type| type_view(&t)) =~= vs@.map_values(|v: Var| type_view(&v.ty)));
    r
}

impl Types {
    pub open spec fn all_view(&self) -> Seq<TypeV> {
        self.all@.map_values(|t: Type| type_view(&t))
    }

    pub closed spec fn struct_view(&self) -> StructDefs {
        self.structs@.map_values(|d: StructDef| def_view(d))
    }

    /// Whether `t` is already registered.
    fn contains(&self, t: &Type) -> (r: bool)
        ensures
            r == self.all_view().contains(type_view(t)),
    {
        let mut i: usize = 0;
        while i < self.all.len()
            invariant
                i <= self.all@.len(),
                forall|j: int| 0 <= j < i ==> self.all_view()[j] != type_view(t),
            decreases self.all@.len() - i,
        {
            if type_eq(&self.all[i], t) {
                assert(self.all_view()[i as int] == type_view(t));
                return true;
            }
            i = i + 1;
        }
        false
    }

    fn add(&mut self, t: &Type)
        ensures
            final(self).all_view() == add_type(old(self).all_view(), type_view(t)),
            final(self).structs@ == old(self).structs@,
    {
        if !self.contains(t) {
            self.all.push(clone_type(t));
            assert(self.all_view() =~= add_type(old(self).all_view(), type_view(t)));
        }
    }

    fn visit(&mut self, t: &Type)
        ensures
            final(self).all_view() == add_visit(old(self).all_view(), type_view(t)),
            final(self).structs@ == old(self).structs@,
        decreases t,
    {
        self.add(t);
        match t {
            Type::RustBox(x) => self.visit(x),
            Type::RustVec(x) => self.visit(x),
            Type::UniquePtr(x) => self.visit(x),
            Type::Vector(x) => self.visit(x),
            Type::Ref(_, x) => self.visit(x),
            _ => {},
        }
    }

    fn visit_vars(&mut self, vs: &Vec<Var>)
        ensures
            final(self).all_view() == add_vars(old(self).all_view(), vs@),
            final(self).structs@ == old(self).structs@,
    {
        let mut i: usize = 0;
        while i < vs.len()
            invariant
                i <= vs@.len(),
                self.all_view() == add_vars(old(self).all_view(), vs@.subrange(0, i as int)),
                self.structs@ == old(self).structs@,
            decreases vs@.len() - i,
        {
            self.visit(&vs[i].ty);
            assert(vs@.subrange(0, i as int + 1).drop_last() =~= vs@.subrange(0, i as int));
            i = i + 1;
        }
        assert(vs@.subrange(0, vs@.len() as int) =~= vs@);
    }

    /// Registers every type that `apis` mention, and the names of its structs.
    pub fn collect(apis: &Vec<Api>) -> (r: Types)
        ensures
            r.all_view() == add_apis(Seq::empty(), apis@),
            r.struct_view() == struct_defs(apis@),
    {
        let mut types = Types { all: Vec::new(), structs: Vec::new() };
        assert(types.all_view() =~= Seq::<TypeV>::empty());
        let mut i: usize = 0;
        while i < apis.len()
            invariant
                i <= apis@.len(),
                types.all_view() == add_apis(Seq::empty(), apis@.subrange(0, i as int)),
                types.struct_view() == struct_defs(apis@.subrange(0, i as int)),
            decreases apis@.len() - i,
        {
            let ghost before = types.struct_view();
            match &apis[i] {
                Api::Struct(s) => {
                    types.visit_vars(&s.fields);
                    let fields = field_types(&s.fields);
                    types.structs.push(StructDef { name: s.ident.clone(), fields });
                    assert(types.struct_view() =~= before.push(
                        (s.ident@, s.fields@.map_values(|v: Var| type_view(&v.ty))),
                    ));
                },
                Api::CxxFunction(f) | Api::RustFunction(f) => {
                    types.visit_vars(&f.args);
                    match &f.ret {
                        Some(t) => types.visit(t),
                        None => {},
                    }
                    assert(types.struct_view() =~= before);
                },
                _ => {},
            }
            assert(apis@.subrange(0, i as int + 1).drop_last() =~= apis@.subrange(0, i as int));
            i = i + 1;
        }
        assert(apis@.subrange(0, apis@.len() as int) =~= apis@);
        types
    }

    /// The position of the first struct named `name`, if any.
    fn find_struct(&self, name: &str) -> (r: Option<usize>)
        ensures
            match r {
                Some(k) => k < self.structs@.len() && lookup(self.struct_view(), name@) == Some(
                    self.struct_view()[k as int].1,
                ),
                None => lookup(self.struct_view(), name@) is None,
            },
    {
        let ghost defs = self.struct_view();
        let mut i: usize = 0;
        assert(defs.skip(0) =~= defs);
        while i < self.structs.len()
            invariant
                i <= self.structs@.len(),
                defs == self.struct_view(),
                lookup(defs, name@) == lookup(defs.skip(i as int), name@),
            decreases self.structs@.len() - i,
        {
            if crate::text::str_eq(self.structs[i].name.as_str(), name) {
                assert(defs.skip(i as int)[0] == defs[i as int]);
                return Some(i);
            }
            assert(defs.skip(i as int).skip(1) =~= defs.skip(i as int + 1));
            i = i + 1;
        }
        None
    }

    fn indirect_at(&self, t: &Type, depth: usize) -> (r: bool)
        ensures
            r == indirect_at(self.struct_view(), type_view(t), depth as nat),
        decreases depth,
    {
        match t {
            Type::Ident(id) => match Atom::from(id.as_str()) {
                Some(a) => a == Atom::RustString,
                None => match self.find_struct(id.as_str()) {
                    Some(k) => {
                        if depth == 0 {
                            return false;
                        }
                        let ghost fs = self.struct_view()[k as int].1;
                        let fields = &self.structs[k].fields;
                        let mut found = false;
                        let mut j: usize = 0;
                        while j < fields.len()
                            invariant
                                j <= fields@.len(),
                                depth > 0,
                                fs == fields@.map_values(|t: Type| type_view(&t)),
                                found == any_indirect(
                                    self.struct_view(),
                                    fs.subrange(0, j as int),
                                    (depth - 1) as nat,
                                ),
                            decreases fields@.len() - j,
                        {
                            let here = self.indirect_at(&fields[j], depth - 1);
                            assert(fs.subrange(0, j as int + 1).drop_last() =~= fs.subrange(
                                0,
                                j as int,
                            ));
                            found = found || here;
                            j = j + 1;
                        }
                        assert(fs.subrange(0, fs.len() as int) =~= fs);
                        found
                    },
                    None => false,
                },
            },
            Type::RustVec(_) => true,
            _ => false,
        }
    }

    /// The category of `t`.
    pub fn classify(&self, t: &Type) -> (r: AbiCategory)
        ensures
            r == category(self.struct_view(), type_view(t)),
    {
        match t {
            Type::Ident(id) => match Atom::from(id.as_str()) {
                Some(Atom::RustString) | Some(Atom::CxxString) => AbiCategory::String,
                Some(_) => AbiCategory::TrivialByValue,
                None => if self.find_struct(id.as_str()).is_some() {
                    AbiCategory::TrivialByValue
                } else {
                    AbiCategory::OpaqueReferenceOnly
                },
            },
            Type::RustBox(_) | Type::UniquePtr(_) => AbiCategory::OwningPointer,
            Type::RustVec(_) => AbiCategory::OwnedBuffer,
            Type::Vector(_) => AbiCategory::BorrowedArray,
            Type::Ref(_, _) => AbiCategory::Reference,
            Type::Str => AbiCategory::String,
        }
    }

    /// Whether `t` is passed and returned through a caller-supplied buffer.
    pub fn needs_indirect_abi(&self, t: &Type) -> (r: bool)
        ensures
            r == needs_indirect(self.struct_view(), type_view(t)),
    {
        self.indirect_at(t, self.structs.len())
    }
}

} // verus!
