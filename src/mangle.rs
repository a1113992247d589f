use vstd::prelude::*;

verus! {

/// The namespace segments of a generated file, as character sequences.
pub open spec fn ns_view(ns: Seq<String>) -> Seq<Seq<char>> {
    ns.map_values(|s: String| s@)
}

/// Every segment followed by the separator `$`.
pub open spec fn ns_prefix(ns: Seq<Seq<char>>) -> Seq<char>
    decreases ns.len(),
{
    if ns.len() == 0 {
        Seq::empty()
    } else {
        ns_prefix(ns.drop_last()) + ns.last() + "$"@
    }
}

/// The tag that sets every generated symbol apart from user names.
pub open spec fn tool_tag() -> Seq<char> {
    "cxxbridge01$"@
}

/// The linkage symbol of `ident` declared in namespace `ns`.
pub open spec fn symbol(ns: Seq<Seq<char>>, ident: Seq<char>) -> Seq<char> {
    ns_prefix(ns) + tool_tag() + ident
}

/// A name that holds no separator.
pub open spec fn plain(s: Seq<char>) -> bool {
    forall|i: int| 0 <= i < s.len() ==> s[i] != '$'
}

/// Builds the linkage symbol of `ident` in `ns`.
pub fn mangle(ns: &Vec<String>, ident: &str) -> (r: String)
    ensures
        r@ == symbol(ns_view(ns@), ident@),
{
    let mut r = String::new();
    let mut i: usize = 0;
    while i < ns.len()
        invariant
            i <= ns@.len(),
            r@ == ns_prefix(ns_view(ns@.subrange(0, i as int))),
        decreases ns@.len() - i,
    {
        r.append(ns[i].as_str());
        r.append("$");
        proof {
            let v = ns_view(ns@.subrange(0, i as int + 1));
            assert(v.drop_last() =~= ns_view(ns@.subrange(0, i as int)));
        }
        i = i + 1;
    }
    assert(ns@.subrange(0, ns@.len() as int) =~= ns@);
    r.append("cxxbridge01$");
    r.append(ident);
    r
}

proof fn lemma_prefix_front(ns: Seq<Seq<char>>)
    requires
        ns.len() > 0,
    ensures
        ns_prefix(ns) == ns[0] + "$"@ + ns_prefix(ns.skip(1)),
    decreases ns.len(),
{
    if ns.len() == 1 {
        assert(ns.skip(1) =~= Seq::<Seq<char>>::empty());
        assert(ns.drop_last() =~= Seq::<Seq<char>>::empty());
        assert(ns_prefix(ns) =~= ns[0] + "$"@ + ns_prefix(ns.skip(1)));
    } else {
        lemma_prefix_front(ns.drop_last());
        assert(ns.drop_last().skip(1) =~= ns.skip(1).drop_last());
        assert(ns.skip(1).last() == ns.last());
        assert(ns_prefix(ns) =~= ns[0] + "$"@ + ns_prefix(ns.skip(1)));
    }
}

/// Two plain names each followed by `$` can only start equal sequences if
/// they are equal.
proof fn lemma_split_at_separator(a: Seq<char>, x: Seq<char>, b: Seq<char>, y: Seq<char>)
    requires
        plain(a),
        plain(b),
        a + "$"@ + x == b + "$"@ + y,
    ensures
        a == b,
        x == y,
{
    reveal_strlit("$");
    let l = a + "$"@ + x;
    let rr = b + "$"@ + y;
    if a.len() < b.len() {
        assert(l[a.len() as int] == '$');
        assert(rr[a.len() as int] == b[a.len() as int]);
    } else if b.len() < a.len() {
        assert(rr[b.len() as int] == '$');
        assert(l[b.len() as int] == a[b.len() as int]);
    }
    assert(a =~= l.subrange(0, a.len() as int));
    assert(b =~= rr.subrange(0, b.len() as int));
    assert(x =~= l.subrange(a.len() as int + 1, l.len() as int));
    assert(y =~= rr.subrange(b.len() as int + 1, rr.len() as int));
}

proof fn lemma_tag_plain()
    ensures
        tool_tag() == "cxxbridge01"@ + "$"@,
        plain("cxxbridge01"@),
{
    reveal_strlit("cxxbridge01$");
    reveal_strlit("cxxbridge01");
    reveal_strlit("$");
    assert(tool_tag() =~= "cxxbridge01"@ + "$"@);
}

/// A symbol always holds a separator after its namespace prefix.
proof fn lemma_symbol_not_plain(ns: Seq<Seq<char>>, ident: Seq<char>)
    ensures
        !plain(symbol(ns, ident)),
{
    reveal_strlit("cxxbridge01$");
    let k = ns_prefix(ns).len() as int + 11;
    assert(symbol(ns, ident)[k] == '$');
}

/// Mangling is injective: symbols of two (namespace, identifier) pairs whose
/// segments and identifiers hold no `$` are equal exactly when the pairs are.
pub proof fn lemma_mangle_injective(
    ns1: Seq<Seq<char>>,
    id1: Seq<char>,
    ns2: Seq<Seq<char>>,
    id2: Seq<char>,
)
    requires
        forall|i: int| 0 <= i < ns1.len() ==> plain(#[trigger] ns1[i]),
        forall|i: int| 0 <= i < ns2.len() ==> plain(#[trigger] ns2[i]),
        plain(id1),
        plain(id2),
    ensures
        (symbol(ns1, id1) == symbol(ns2, id2)) <==> (ns1 == ns2 && id1 == id2),
    decreases ns1.len() + ns2.len(),
{
    if symbol(ns1, id1) == symbol(ns2, id2) {
        lemma_tag_plain();
        if ns1.len() == 0 && ns2.len() == 0 {
            assert(symbol(ns1, id1) == "cxxbridge01"@ + "$"@ + id1);
            assert(symbol(ns2, id2) == "cxxbridge01"@ + "$"@ + id2);
            lemma_split_at_separator("cxxbridge01"@, id1, "cxxbridge01"@, id2);
            assert(ns1 =~= ns2);
        } else if ns1.len() == 0 {
            lemma_prefix_front(ns2);
            let rest2 = symbol(ns2.skip(1), id2);
            assert(symbol(ns2, id2) =~= ns2[0] + "$"@ + rest2);
            assert(symbol(ns1, id1) =~= "cxxbridge01"@ + "$"@ + id1);
            lemma_split_at_separator("cxxbridge01"@, id1, ns2[0], rest2);
            lemma_symbol_not_plain(ns2.skip(1), id2);
        } else if ns2.len() == 0 {
            lemma_prefix_front(ns1);
            let rest1 = symbol(ns1.skip(1), id1);
            assert(symbol(ns1, id1) =~= ns1[0] + "$"@ + rest1);
            assert(symbol(ns2, id2) =~= "cxxbridge01"@ + "$"@ + id2);
            lemma_split_at_separator(ns1[0], rest1, "cxxbridge01"@, id2);
            lemma_symbol_not_plain(ns1.skip(1), id1);
        } else {
            lemma_prefix_front(ns1);
            lemma_prefix_front(ns2);
            let rest1 = symbol(ns1.skip(1), id1);
            let rest2 = symbol(ns2.skip(1), id2);
            assert(symbol(ns1, id1) =~= ns1[0] + "$"@ + rest1);
            assert(symbol(ns2, id2) =~= ns2[0] + "$"@ + rest2);
            lemma_split_at_separator(ns1[0], rest1, ns2[0], rest2);
            lemma_mangle_injective(ns1.skip(1), id1, ns2.skip(1), id2);
            assert(ns1 =~= seq![ns1[0]] + ns1.skip(1));
            assert(ns2 =~= seq![ns2[0]] + ns2.skip(1));
        }
    }
}

/// A function symbol never equals a symbol of generic-instantiation glue,
/// which starts with the tool tag followed by a kind (`rust_box`,
/// `rust_vec`, `unique_ptr`, `std`) and a separator. This holds for
/// identifiers without `$`, in a namespace that does not itself start with
/// the tool's tag as a segment.
pub proof fn lemma_function_symbol_not_glue(
    ns: Seq<Seq<char>>,
    ident: Seq<char>,
    kind: Seq<char>,
    rest: Seq<char>,
)
    requires
        forall|i: int| 0 <= i < ns.len() ==> plain(#[trigger] ns[i]),
        plain(ident),
        plain(kind),
        ns.len() > 0 ==> ns[0] != "cxxbridge01"@,
    ensures
        symbol(ns, ident) != tool_tag() + kind + "$"@ + rest,
{
    lemma_tag_plain();
    let glue = tool_tag() + kind + "$"@ + rest;
    if symbol(ns, ident) == glue {
        assert(glue =~= "cxxbridge01"@ + "$"@ + (kind + "$"@ + rest));
        if ns.len() == 0 {
            assert(symbol(ns, ident) =~= "cxxbridge01"@ + "$"@ + ident);
            lemma_split_at_separator("cxxbridge01"@, ident, "cxxbridge01"@, kind + "$"@ + rest);
            reveal_strlit("$");
            assert(ident[kind.len() as int] == '$');
        } else {
            lemma_prefix_front(ns);
            let tail = symbol(ns.skip(1), ident);
            assert(symbol(ns, ident) =~= ns[0] + "$"@ + tail);
            lemma_split_at_separator(ns[0], tail, "cxxbridge01"@, kind + "$"@ + rest);
        }
    }
}

} // verus!
