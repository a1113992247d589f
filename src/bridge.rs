use crate::check::{errs_view, module_errors, typecheck, CheckError};
use crate::emit::{gen, gen_text, Opt};
use crate::syntax::{Api, TypeV};
use crate::types::{add_apis, struct_defs, Types};
use vstd::prelude::*;

verus! {

/// The header generated for a module that checks clean.
pub open spec fn header_text(ns: Seq<String>, apis: Seq<Api>, opt: Opt) -> Seq<char> {
    gen_text(ns, apis, add_apis(Seq::empty(), apis), struct_defs(apis), opt, true)
}

/// The implementation generated for a module that checks clean.
pub open spec fn source_text(ns: Seq<String>, apis: Seq<Api>, opt: Opt) -> Seq<char> {
    gen_text(ns, apis, add_apis(Seq::empty(), apis), struct_defs(apis), opt, false)
}

/// Checks the module and, when it is free of violations, generates the
/// native header and implementation together. Otherwise every violation is
/// reported and nothing is generated.
pub fn generate(namespace: Vec<String>, apis: &Vec<Api>, opt: &Opt) -> (r: Result<
    (String, String),
    Vec<CheckError>,
>)
    ensures
        r is Ok <==> module_errors(apis@).len() == 0,
        r matches Ok(out) ==> out.0@ == header_text(namespace@, apis@, *opt) && out.1@
            == source_text(namespace@, apis@, *opt),
        r matches Err(es) ==> errs_view(es@) == module_errors(apis@),
{
    let errs = typecheck(apis);
    if errs.len() > 0 {
        return Err(errs);
    }
    let types = Types::collect(apis);
    let header = gen(namespace.clone(), apis, &types, opt, true).content();
    let source = gen(namespace, apis, &types, opt, false).content();
    Ok((header, source))
}

/// Generates the native header and implementation of a module with no
/// further headers and no runtime support text.
pub fn generate_header_and_cc(namespace: Vec<String>, apis: &Vec<Api>) -> (r: Result<
    (String, String),
    Vec<CheckError>,
>)
    ensures
        r is Ok <==> module_errors(apis@).len() == 0,
        r matches Ok(out) ==> exists|o: Opt|
            #[trigger] o.is_empty() && out.0@ == header_text(namespace@, apis@, o) && out.1@
                == source_text(namespace@, apis@, o),
        r matches Err(es) ==> errs_view(es@) == module_errors(apis@),
{
    let opt = Opt::empty();
    let r = generate(namespace, apis, &opt);
    proof {
        if r is Ok {
            assert(opt.is_empty());
        }
    }
    r
}

/// Generates the native header alone.
pub fn do_generate_header(namespace: Vec<String>, apis: &Vec<Api>, opt: &Opt) -> (r: Result<
    String,
    Vec<CheckError>,
>)
    ensures
        r is Ok <==> module_errors(apis@).len() == 0,
        r matches Ok(h) ==> h@ == header_text(namespace@, apis@, *opt),
        r matches Err(es) ==> errs_view(es@) == module_errors(apis@),
{
    let errs = typecheck(apis);
    if errs.len() > 0 {
        return Err(errs);
    }
    let types = Types::collect(apis);
    Ok(gen(namespace, apis, &types, opt, true).content())
}

/// Generates the native implementation alone.
pub fn do_generate_bridge(namespace: Vec<String>, apis: &Vec<Api>, opt: &Opt) -> (r: Result<
    String,
    Vec<CheckError>,
>)
    ensures
        r is Ok <==> module_errors(apis@).len() == 0,
        r matches Ok(c) ==> c@ == source_text(namespace@, apis@, *opt),
        r matches Err(es) ==> errs_view(es@) == module_errors(apis@),
{
    let errs = typecheck(apis);
    if errs.len() > 0 {
        return Err(errs);
    }
    let types = Types::collect(apis);
    Ok(gen(namespace, apis, &types, opt, false).content())
}

} // verus!
