//! Diagnostics for the interface compiler. The generator itself keeps the
//! silent-omission behavior for unrecognized parameter types; this module
//! collects exactly those parameters so the surrounding build can surface
//! them as a compile-time diagnostic instead of dropping them unnoticed.

use vstd::prelude::*;

use crate::abi::{kind_of_name, AbstractType};
use crate::ast::{InterfaceDeclaration, MethodSignatureV, ParameterV};
use crate::generator::spec_supported_param;

verus! {

broadcast use vstd::seq::Seq::lemma_push_map_commute;

/// One parameter the interface compiler would drop: where it stands and
/// the type name no table entry recognizes.
#[derive(Debug, PartialEq, Eq)]
pub struct SkippedParam {
    /// The method the parameter belongs to.
    pub method: String,
    /// The parameter's identifier.
    pub param: String,
    /// The unrecognized type name.
    pub ty: String,
}

/// The mathematical value of a [`SkippedParam`].
pub ghost struct SkippedParamV {
    /// The method the parameter belongs to.
    pub method: Seq<char>,
    /// The parameter's identifier.
    pub param: Seq<char>,
    /// The unrecognized type name.
    pub ty: Seq<char>,
}

impl View for SkippedParam {
    type V = SkippedParamV;

    open spec fn view(&self) -> SkippedParamV {
        SkippedParamV { method: self.method@, param: self.param@, ty: self.ty@ }
    }
}

/// The parameters of one method, under its name, that the table does not
/// recognize, in declaration order.
pub open spec fn spec_skipped_of_params(
    method: Seq<char>,
    params: Seq<ParameterV>,
) -> Seq<SkippedParamV> {
    params.filter(|p: ParameterV| !spec_supported_param(p)).map_values(
        |p: ParameterV| SkippedParamV { method: method, param: p.name, ty: p.ty },
    )
}

/// The unrecognized parameters of a method list, methods in declaration
/// order, parameters in declaration order within each.
pub open spec fn spec_skipped_params(methods: Seq<MethodSignatureV>) -> Seq<SkippedParamV>
    decreases methods.len(),
{
    if methods.len() == 0 {
        Seq::<SkippedParamV>::empty()
    } else {
        spec_skipped_params(methods.drop_last()) + spec_skipped_of_params(
            methods.last().name,
            methods.last().params,
        )
    }
}

/// Appending a parameter extends the unrecognized ones with it exactly
/// when the table does not recognize it.
proof fn lemma_unkept_push(s: Seq<ParameterV>, p: ParameterV)
    ensures
        s.push(p).filter(|q: ParameterV| !spec_supported_param(q)) == if !spec_supported_param(p) {
            s.filter(|q: ParameterV| !spec_supported_param(q)).push(p)
        } else {
            s.filter(|q: ParameterV| !spec_supported_param(q))
        },
{
    reveal_with_fuel(Seq::<_>::filter, 2);
    assert(s.push(p).drop_last() =~= s);
    assert(s.push(p).last() == p);
}

/// A method's unrecognized-parameter list is empty exactly when the
/// table recognizes every one of its parameters.
proof fn lemma_params_skip_free(method: Seq<char>, params: Seq<ParameterV>)
    ensures
        spec_skipped_of_params(method, params).len() == 0 <==> (forall|j: int|
            0 <= j < params.len() ==> spec_supported_param(#[trigger] params[j])),
    decreases params.len(),
{
    reveal_with_fuel(Seq::<_>::filter, 1);
    if params.len() == 0 {
    } else {
        lemma_params_skip_free(method, params.drop_last());
        assert(forall|j: int|
            0 <= j < params.len() - 1 ==> #[trigger] params[j] == params.drop_last()[j]);
        assert(params.last() == params[params.len() - 1]);
    }
}

/// The diagnostic is empty exactly when the table recognizes every
/// parameter of every method: an interface compiles without loss if and
/// only if nothing is collected here.
pub proof fn lemma_diagnostic_empty_iff_all_supported(methods: Seq<MethodSignatureV>)
    ensures
        spec_skipped_params(methods).len() == 0 <==> (forall|i: int, j: int|
            0 <= i < methods.len() && 0 <= j < methods[i].params.len()
                ==> spec_supported_param(#[trigger] methods[i].params[j])),
    decreases methods.len(),
{
    if methods.len() == 0 {
    } else {
        lemma_diagnostic_empty_iff_all_supported(methods.drop_last());
        lemma_params_skip_free(methods.last().name, methods.last().params);
        assert(forall|i: int|
            0 <= i < methods.len() - 1 ==> #[trigger] methods[i] == methods.drop_last()[i]);
        assert(methods.last() == methods[methods.len() - 1]);
    }
}

/// Collects every parameter the interface compiler would drop from a
/// declaration: those whose type name has no table entry, in declaration
/// order. An empty result means the generated namespace loses nothing.
pub fn unsupported_params(decl: &InterfaceDeclaration) -> (r: Vec<SkippedParam>)
    ensures
        r@.map_values(|s: SkippedParam| s@) == spec_skipped_params(decl@.methods),
{
    let mut acc: Vec<SkippedParam> = Vec::new();
    let n = decl.methods.len();
    proof {
        assert(decl@.methods.take(0) =~= Seq::<MethodSignatureV>::empty());
        assert(acc@.map_values(|s: SkippedParam| s@) =~= spec_skipped_params(
            decl@.methods.take(0),
        ));
    }
    for i in 0..n
        invariant
            n == decl.methods.len(),
            decl@.methods.len() == n,
            forall|k: int| 0 <= k < n ==> decl@.methods[k] == decl.methods@[k]@,
            acc@.map_values(|s: SkippedParam| s@) == spec_skipped_params(
                decl@.methods.take(i as int),
            ),
    {
        let m = &decl.methods[i];
        let p_count = m.params.len();
        proof {
            reveal_with_fuel(Seq::<_>::filter, 1);
            assert(m@.params.take(0) =~= Seq::<ParameterV>::empty());
            assert(acc@.map_values(|s: SkippedParam| s@) =~= spec_skipped_params(
                decl@.methods.take(i as int),
            ) + spec_skipped_of_params(m@.name, m@.params.take(0)));
        }
        for j in 0..p_count
            invariant
                n == decl.methods.len(),
                decl@.methods.len() == n,
                i < n,
                forall|k: int| 0 <= k < n ==> decl@.methods[k] == decl.methods@[k]@,
                p_count == decl.methods@[i as int].params.len(),
                decl.methods@[i as int]@.params.len() == p_count,
                acc@.map_values(|s: SkippedParam| s@) == spec_skipped_params(
                    decl@.methods.take(i as int),
                ) + spec_skipped_of_params(
                    decl.methods@[i as int]@.name,
                    decl.methods@[i as int]@.params.take(j as int),
                ),
        {
            let p = &decl.methods[i].params[j];
            let kind = kind_of_name(p.ty.as_str());
            proof {
                assert(decl.methods@[i as int]@.params.take(j + 1)
                    =~= decl.methods@[i as int]@.params.take(j as int).push(p@));
                lemma_unkept_push(decl.methods@[i as int]@.params.take(j as int), p@);
            }
            if kind == AbstractType::Unsupported {
                acc.push(
                    SkippedParam {
                        method: decl.methods[i].name.clone(),
                        param: p.name.clone(),
                        ty: p.ty.clone(),
                    },
                );
            }
            proof {
                assert(acc@.map_values(|s: SkippedParam| s@) =~= spec_skipped_params(
                    decl@.methods.take(i as int),
                ) + spec_skipped_of_params(
                    decl.methods@[i as int]@.name,
                    decl.methods@[i as int]@.params.take(j + 1),
                ));
            }
        }
        proof {
            assert(decl.methods@[i as int]@.params.take(p_count as int)
                =~= decl.methods@[i as int]@.params);
            assert(decl@.methods.take(i + 1).drop_last() =~= decl@.methods.take(i as int));
            assert(decl@.methods.take(i + 1).last() == decl.methods@[i as int]@);
            assert(acc@.map_values(|s: SkippedParam| s@) =~= spec_skipped_params(
                decl@.methods.take(i + 1),
            ));
        }
    }
    proof {
        assert(decl@.methods.take(n as int) =~= decl@.methods);
    }
    acc
}

} // verus!
