//! Composers for namespaced Kubernetes object references and the
//! diagnostic heads built on them.

use vstd::prelude::*;
use vstd::string::StringExecFns;

verus! {

/// `<ns>/<name>`.
pub open spec fn qualified_ref_text(ns: Seq<char>, name: Seq<char>) -> Seq<char> {
    ns + seq!['/'] + name
}

/// `<verb> <kind> <ns>/<name>`.
pub open spec fn error_ctx_text(
    verb: Seq<char>,
    kind: Seq<char>,
    ns: Seq<char>,
    name: Seq<char>,
) -> Seq<char> {
    verb + seq![' '] + kind + seq![' '] + qualified_ref_text(ns, name)
}

/// The namespace-qualified reference `<ns>/<name>` of an object.
pub fn qualified_process_ref(ns: &str, name: &str) -> (r: String)
    ensures
        r@ == qualified_ref_text(ns@, name@),
{
    proof {
        reveal_strlit("/");
    }
    let mut r = ns.to_owned();
    r.append("/");
    r.append(name);
    r
}

/// The diagnostic head `<verb> <kind> <ns>/<name>` for an operation on
/// one namespaced object.
pub fn qualified_error_ctx(verb: &str, kind: &str, ns: &str, name: &str) -> (r: String)
    ensures
        r@ == error_ctx_text(verb@, kind@, ns@, name@),
{
    proof {
        reveal_strlit(" ");
    }
    let qualified = qualified_process_ref(ns, name);
    let mut r = verb.to_owned();
    r.append(" ");
    r.append(kind);
    r.append(" ");
    r.append(qualified.as_str());
    proof {
        assert(r@ =~= error_ctx_text(verb@, kind@, ns@, name@));
    }
    r
}

} // verus!
