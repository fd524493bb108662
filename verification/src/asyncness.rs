//! Decides whether a declared method qualifies as asynchronous.

use vstd::prelude::*;

use crate::ast::{ReturnType, ReturnTypeV, Signature, SignatureV, TypePathV};
use vstd::string::StringExecFns;

verus! {

/// Whether a capability path names `Future` as its final segment. The
/// check is structural — a same-named but unrelated capability is a
/// false positive, a known limitation.
pub open spec fn path_names_future(p: TypePathV) -> bool {
    p.segments.len() > 0 && p.segments.last() == "Future"@
}

/// A method is asynchronous if it carries the explicit qualifier, or if
/// its return type is an opaque capability type one of whose required
/// capabilities names `Future` as its final path segment, qualified or
/// not.
pub open spec fn signature_is_async(s: SignatureV) -> bool {
    ||| s.asyncness
    ||| (s.output matches ReturnTypeV::ImplTrait(bounds)
        && exists|i: int| 0 <= i < bounds.len() && #[trigger] path_names_future(bounds[i]))
}

/// A method marked with the explicit asynchronous qualifier is
/// asynchronous, whatever its return type.
pub proof fn lemma_explicit_async(s: SignatureV)
    requires
        s.asyncness,
    ensures
        signature_is_async(s),
{
}

/// A method without the explicit qualifier that returns an opaque
/// capability type one of whose capabilities names `Future` as its
/// final path segment — qualified or not — is asynchronous.
pub proof fn lemma_returns_future(s: SignatureV, i: int)
    requires
        s.output matches ReturnTypeV::ImplTrait(bounds) && 0 <= i < bounds.len()
            && path_names_future(bounds[i]),
    ensures
        signature_is_async(s),
{
}

/// A method without the explicit qualifier that does not return such a
/// type is not asynchronous.
pub proof fn lemma_not_asynchronous(s: SignatureV)
    requires
        !s.asyncness,
        s.output matches ReturnTypeV::ImplTrait(bounds) ==> forall|i: int|
            0 <= i < bounds.len() ==> !path_names_future(#[trigger] bounds[i]),
    ensures
        !signature_is_async(s),
{
}

/// Returns `true` exactly when the signature qualifies as asynchronous.
pub fn is_async(method_signature: &Signature) -> (r: bool)
    ensures
        r == signature_is_async(method_signature@),
{
    if method_signature.asyncness {
        return true;
    }
    match &method_signature.output {
        ReturnType::ImplTrait(bounds) => {
            let future_name: String = String::from_str("Future");
            let n = bounds.len();
            let mut i: usize = 0;
            while i < n
                invariant
                    i <= n,
                    n == bounds@.len(),
                    future_name@ == "Future"@,
                    method_signature@.output matches ReturnTypeV::ImplTrait(bs) && bs =~= crate::ast::view_seq(bounds@),
                    forall|j: int| 0 <= j < i ==> !#[trigger] path_names_future(bounds@[j]@),
                decreases n - i,
            {
                let m = bounds[i].segments.len();
                if m > 0 {
                    if bounds[i].segments[m - 1] == future_name {
                        proof {
                            let bs = method_signature@.output->ImplTrait_0;
                            assert(bs[i as int] == bounds@[i as int]@);
                            assert(bounds@[i as int]@.segments.last() == "Future"@);
                            assert(path_names_future(bs[i as int]));
                        }
                        return true;
                    }
                }
                proof {
                    assert(bounds@[i as int]@.segments.len() == m as int);
                    assert(m > 0 ==> bounds@[i as int]@.segments.last() == bounds@[i as int].segments@[m - 1]@);
                    assert(!path_names_future(bounds@[i as int]@));
                }
                i += 1;
            }
            proof {
                let bs = method_signature@.output->ImplTrait_0;
                assert(forall|j: int| 0 <= j < bs.len() ==> bs[j] == bounds@[j]@);
            }
            false
        },
        ReturnType::Default => false,
        ReturnType::Other(_) => false,
    }
}

} // verus!
