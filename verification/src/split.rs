//! The method pass: split an annotated method into the renamed original, the
//! mutating prefetch variant, and the non-mutating cached-read variant.

use vstd::prelude::*;

use crate::model::{
    MethodBody, MethodBodyV, MethodDecl, MethodDeclV, Param, ParamV, ReceiverDecl, Signature,
    SignatureV, TransformError, params_view,
};
use crate::names::{
    prefetch_method_name, renamed_method_name, spec_prefetch_method_name,
    spec_renamed_method_name,
};

verus! {

/// The three method declarations the method pass emits.
#[derive(Debug, PartialEq, Eq)]
pub struct MethodExpansion {
    /// The original computation under its conventional new name.
    pub renamed: MethodDecl,
    /// The mutating variant: compute on a miss, store a copy, return it.
    pub prefetch: MethodDecl,
    /// The non-mutating variant: return a cached copy, or compute without
    /// storing.
    pub cached_read: MethodDecl,
}

/// Whether a signature is supported by the method pass: exactly one input,
/// which is a receiver passed by reference (mutable or not).
pub open spec fn spec_signature_supported(sig: SignatureV) -> bool {
    &&& sig.inputs.len() == 1
    &&& sig.inputs[0] matches ParamV::Receiver(rec) && rec.by_reference
}

/// The renamed original: name by convention, receiver and body unchanged.
pub open spec fn spec_renamed_method(m: MethodDeclV) -> MethodDeclV {
    MethodDeclV {
        sig: SignatureV { name: spec_renamed_method_name(m.sig.name), inputs: m.sig.inputs },
        body: m.body,
    }
}

/// The prefetch variant: name by convention, receiver forced to a mutable
/// reference whatever the input declared, body caching the property named
/// like the input method.
pub open spec fn spec_prefetch_method(m: MethodDeclV) -> MethodDeclV {
    MethodDeclV {
        sig: SignatureV {
            name: spec_prefetch_method_name(m.sig.name),
            inputs: seq![
                ParamV::Receiver(ReceiverDecl { by_reference: true, mutable: true }),
            ],
        },
        body: MethodBodyV::Prefetch(m.sig.name),
    }
}

/// The cached-read variant: name and receiver exactly as declared in the
/// input, body reading the property named like the input method.
pub open spec fn spec_cached_read_method(m: MethodDeclV) -> MethodDeclV {
    MethodDeclV { sig: m.sig, body: MethodBodyV::CachedRead(m.sig.name) }
}

/// Split a method declaration into its three cached-property variants.
///
/// `payload` is the raw text of the annotation's payload, which must be
/// empty. The method's signature must consist of exactly one reference
/// receiver. Otherwise the matching error is returned and nothing is
/// emitted.
pub fn cached_property(payload: &str, method: MethodDecl) -> (r: Result<
    MethodExpansion,
    TransformError,
>)
    ensures
        match r {
            Result::Ok(exp) => {
                &&& payload@.len() == 0
                &&& spec_signature_supported(method@.sig)
                &&& exp.renamed@ == spec_renamed_method(method@)
                &&& exp.prefetch@ == spec_prefetch_method(method@)
                &&& exp.cached_read@ == spec_cached_read_method(method@)
            },
            Result::Err(e) => match e {
                TransformError::UnexpectedArguments => payload@.len() != 0,
                TransformError::UnsupportedSignature => payload@.len() == 0
                    && !spec_signature_supported(method@.sig),
                _ => false,
            },
        },
{
    if !payload.is_empty() {
        return Result::Err(TransformError::UnexpectedArguments);
    }
    let MethodDecl { sig, body } = method;
    let Signature { name, inputs } = sig;
    let supported: bool = if inputs.len() == 1 {
        match &inputs[0] {
            Param::Receiver(rec) => rec.by_reference,
            Param::Typed(_, _) => false,
        }
    } else {
        false
    };
    if !supported {
        return Result::Err(TransformError::UnsupportedSignature);
    }
    let renamed_name = renamed_method_name(name.as_str());
    let prefetch_name = prefetch_method_name(name.as_str());
    let read_inputs = copy_params(&inputs);
    let renamed = MethodDecl { sig: Signature { name: renamed_name, inputs }, body };
    let mut prefetch_inputs: Vec<Param> = Vec::new();
    prefetch_inputs.push(Param::Receiver(ReceiverDecl { by_reference: true, mutable: true }));
    let prefetch = MethodDecl {
        sig: Signature { name: prefetch_name, inputs: prefetch_inputs },
        body: MethodBody::Prefetch(name.clone()),
    };
    let cached_read = MethodDecl {
        sig: Signature { name: name.clone(), inputs: read_inputs },
        body: MethodBody::CachedRead(name),
    };
    let exp = MethodExpansion { renamed, prefetch, cached_read };
    proof {
        assert(exp.renamed@ =~~= spec_renamed_method(method@));
        assert(exp.prefetch@ =~~= spec_prefetch_method(method@));
        assert(exp.cached_read@ =~~= spec_cached_read_method(method@));
    }
    Result::Ok(exp)
}

/// An element-by-element copy of a parameter list, equal in view.
fn copy_params(params: &Vec<Param>) -> (r: Vec<Param>)
    ensures
        params_view(r@) == params_view(params@),
{
    let mut out: Vec<Param> = Vec::new();
    let mut i: usize = 0;
    while i < params.len()
        invariant
            i <= params@.len(),
            out@.len() == i,
            forall|j: int| 0 <= j < i ==> out@[j]@ == params@[j]@,
        decreases params@.len() - i,
    {
        out.push(params[i].clone());
        i += 1;
    }
    proof {
        assert forall|k: int| 0 <= k < params@.len() implies params_view(out@)[k] == params_view(
            params@,
        )[k] by {
            assert(params_view(out@)[k] == out@[k]@);
            assert(params_view(params@)[k] == params@[k]@);
        }
        assert(params_view(out@) =~= params_view(params@));
    }
    out
}

impl MethodExpansion {
    /// The emitted declarations in splice order: the renamed original, the
    /// prefetch variant, then the cached-read variant.
    pub fn emit(self) -> (r: Vec<MethodDecl>)
        ensures
            r@.len() == 3,
            r@[0] == self.renamed,
            r@[1] == self.prefetch,
            r@[2] == self.cached_read,
    {
        let mut out: Vec<MethodDecl> = Vec::new();
        out.push(self.renamed);
        out.push(self.prefetch);
        out.push(self.cached_read);
        out
    }
}

} // verus!
