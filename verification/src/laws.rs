//! The guarantees the interface compiler gives, stated and proved over the
//! specification functions that the compilers' own contracts use.

use vstd::prelude::*;

use crate::abi::{spec_kind_of, AbstractType, MarshalPrimitive};
use crate::ast::{InterfaceDeclarationV, MethodSignatureV, ParameterV};
use crate::generator::{
    spec_contract_id_param, spec_function_of, spec_kept_params, spec_marshal_call_of,
    spec_module_of, spec_native_param_of, spec_supported_param, EncodedArgV,
};

verus! {

/// A parameter list whose every entry the type mapping table recognizes is
/// kept whole, in order.
pub proof fn lemma_kept_params_all_supported(params: Seq<ParameterV>)
    requires
        forall|i: int| 0 <= i < params.len() ==> spec_supported_param(#[trigger] params[i]),
    ensures
        spec_kept_params(params) == params,
    decreases params.len(),
{
    reveal_with_fuel(Seq::<_>::filter, 1);
    if params.len() == 0 {
    } else {
        lemma_kept_params_all_supported(params.drop_last());
        assert(spec_kept_params(params) =~= params);
    }
}

/// For any method whose parameters are all of supported kinds, the
/// generated function has exactly one native parameter more than the
/// method — the prepended contract identifier, which always comes first —
/// and exactly one marshalling call per parameter, both in original
/// parameter order, and dispatches the method's own name.
pub proof fn lemma_supported_method_shape(m: MethodSignatureV)
    requires
        forall|i: int| 0 <= i < m.params.len() ==> spec_supported_param(#[trigger] m.params[i]),
    ensures
        spec_function_of(m).name == m.name,
        spec_function_of(m).params.len() == m.params.len() + 1,
        spec_function_of(m).params[0] == spec_contract_id_param(),
        forall|i: int|
            0 <= i < m.params.len() ==> spec_function_of(m).params[i + 1]
                == spec_native_param_of(#[trigger] m.params[i]),
        spec_function_of(m).marshalling.len() == m.params.len(),
        forall|i: int|
            0 <= i < m.params.len() ==> spec_function_of(m).marshalling[i]
                == spec_marshal_call_of(#[trigger] m.params[i]),
        spec_function_of(m).dispatch_method == m.name,
{
    lemma_kept_params_all_supported(m.params);
}

/// A method with zero parameters generates a function taking only the
/// contract-identifier parameter, with zero marshalling calls before the
/// dispatch of the method's own name.
pub proof fn lemma_empty_method_shape(m: MethodSignatureV)
    requires
        m.params.len() == 0,
    ensures
        spec_function_of(m).params == seq![spec_contract_id_param()],
        spec_function_of(m).marshalling == Seq::<crate::generator::MarshalCallV>::empty(),
        spec_function_of(m).dispatch_method == m.name,
{
    reveal_with_fuel(Seq::<_>::filter, 1);
    assert(m.params =~= Seq::<ParameterV>::empty());
    assert(spec_function_of(m).params =~= seq![spec_contract_id_param()]);
    assert(spec_function_of(m).marshalling =~= Seq::<crate::generator::MarshalCallV>::empty());
}

/// A payment-typed parameter contributes one marshalling call carrying two
/// encoded arguments, asset id first and amount second: one logical
/// parameter, two encoded components.
pub proof fn lemma_payment_marshalling(p: ParameterV)
    requires
        spec_kind_of(p.ty) == AbstractType::Payment,
    ensures
        spec_supported_param(p),
        spec_marshal_call_of(p).primitive == MarshalPrimitive::CallPayment,
        spec_marshal_call_of(p).args.len() == 2,
        spec_marshal_call_of(p).args[0] == EncodedArgV::AssetIdOf(p.name),
        spec_marshal_call_of(p).args[1] == EncodedArgV::AmountOf(p.name),
{
}

/// Two interface declarations with identical method lists produce
/// identical generated functions; the declaration's name reaches only the
/// enclosing namespace identifier.
pub proof fn lemma_namespace_name_independence(d1: InterfaceDeclarationV, d2: InterfaceDeclarationV)
    requires
        d1.methods == d2.methods,
    ensures
        spec_module_of(d1).functions == spec_module_of(d2).functions,
        spec_module_of(d1).name == d1.name,
        spec_module_of(d2).name == d2.name,
{
}

/// The kept parameters of a single unrecognized parameter are none.
proof fn lemma_kept_params_unsupported_singleton(p: ParameterV)
    requires
        !spec_supported_param(p),
    ensures
        spec_kept_params(seq![p]) == Seq::<ParameterV>::empty(),
{
    reveal_with_fuel(Seq::<_>::filter, 2);
    assert(seq![p].drop_last() =~= Seq::<ParameterV>::empty());
    assert(seq![p].last() == p);
}

/// A parameter of an unrecognized abstract type is entirely absent from
/// the generated artifact: the function generated for a method equals, in
/// every part, the one generated for the same method with that parameter
/// removed — no native parameter, no marshalling statement, no diagnostic.
pub proof fn lemma_unsupported_param_vanishes(m: MethodSignatureV, i: int)
    requires
        0 <= i < m.params.len(),
        !spec_supported_param(m.params[i]),
    ensures
        spec_function_of(m) == spec_function_of(
            MethodSignatureV { name: m.name, params: m.params.remove(i) },
        ),
{
    let pred = |p: ParameterV| spec_supported_param(p);
    let a = m.params.take(i);
    let b = seq![m.params[i]];
    let c = m.params.skip(i + 1);
    assert(m.params =~= a + b + c);
    assert(m.params.remove(i) =~= a + c);
    Seq::<ParameterV>::filter_distributes_over_add(a + b, c, pred);
    Seq::<ParameterV>::filter_distributes_over_add(a, b, pred);
    Seq::<ParameterV>::filter_distributes_over_add(a, c, pred);
    lemma_kept_params_unsupported_singleton(m.params[i]);
    assert(spec_kept_params(m.params) =~= spec_kept_params(m.params.remove(i)));
}

} // verus!
