use we_toolkit::abi::{kind_of_name, AbstractType, MarshalPrimitive, NativeType};
use we_toolkit::ast::{ActionDeclaration, InterfaceDeclaration, MethodSignature, Parameter, VerbatimParam};
use we_toolkit::diagnostics::{unsupported_params, SkippedParam};
use we_toolkit::generator::{action, interface, EncodedArg, GeneratedFunction, SUCCESS_STATUS};

fn param(name: &str, ty: &str) -> Parameter {
    Parameter { name: name.to_string(), ty: ty.to_string() }
}

fn method(name: &str, params: Vec<Parameter>) -> MethodSignature {
    MethodSignature { name: name.to_string(), params }
}

fn decl(name: &str, methods: Vec<MethodSignature>) -> InterfaceDeclaration {
    InterfaceDeclaration { name: name.to_string(), methods }
}

#[test]
fn type_table_recognizes_exactly_five_names() {
    assert_eq!(kind_of_name("Integer"), AbstractType::Integer);
    assert_eq!(kind_of_name("Boolean"), AbstractType::Boolean);
    assert_eq!(kind_of_name("Binary"), AbstractType::Binary);
    assert_eq!(kind_of_name("String"), AbstractType::Text);
    assert_eq!(kind_of_name("Payment"), AbstractType::Payment);
    assert_eq!(kind_of_name("Decimal"), AbstractType::Unsupported);
    assert_eq!(kind_of_name("integer"), AbstractType::Unsupported);
    assert_eq!(kind_of_name(""), AbstractType::Unsupported);
}

#[test]
fn all_supported_kinds_make_one_param_and_one_call_each() {
    let m = interface(&decl(
        "remote",
        vec![method(
            "everything",
            vec![
                param("a", "Integer"),
                param("b", "Boolean"),
                param("c", "Binary"),
                param("d", "String"),
                param("e", "Payment"),
            ],
        )],
    ));
    assert_eq!(m.name, "remote");
    assert_eq!(m.functions.len(), 1);
    let f = &m.functions[0];
    assert_eq!(f.name, "everything");
    // five source parameters give six native parameters, contract id first
    assert_eq!(f.params.len(), 6);
    assert_eq!(f.params[0].name, "contract_id");
    assert_eq!(f.params[0].ty, NativeType::ByteSlice);
    let expected = [
        ("a", NativeType::Int64),
        ("b", NativeType::Bool),
        ("c", NativeType::ByteSlice),
        ("d", NativeType::StrSlice),
        ("e", NativeType::PaymentPair),
    ];
    for (i, (name, ty)) in expected.iter().enumerate() {
        assert_eq!(f.params[i + 1].name, *name);
        assert_eq!(f.params[i + 1].ty, *ty);
    }
    // one marshalling call per source parameter, in order, before dispatch
    assert_eq!(f.marshalling.len(), 5);
    let primitives = [
        MarshalPrimitive::CallArgInt,
        MarshalPrimitive::CallArgBool,
        MarshalPrimitive::CallArgBinary,
        MarshalPrimitive::CallArgString,
        MarshalPrimitive::CallPayment,
    ];
    for (i, p) in primitives.iter().enumerate() {
        assert_eq!(f.marshalling[i].primitive, *p);
    }
    assert_eq!(f.dispatch_method, "everything");
}

#[test]
fn zero_parameters_leave_only_the_contract_id() {
    let m = interface(&decl("remote", vec![method("ping", vec![])]));
    let f = &m.functions[0];
    assert_eq!(f.params.len(), 1);
    assert_eq!(f.params[0].name, "contract_id");
    assert_eq!(f.params[0].ty, NativeType::ByteSlice);
    assert_eq!(f.marshalling.len(), 0);
    assert_eq!(f.dispatch_method, "ping");
}

#[test]
fn payment_marshals_two_components_asset_id_first() {
    let m = interface(&decl("remote", vec![method("pay", vec![param("p", "Payment")])]));
    let f = &m.functions[0];
    assert_eq!(f.params.len(), 2);
    assert_eq!(f.params[1].ty, NativeType::PaymentPair);
    assert_eq!(f.marshalling.len(), 1);
    let call = &f.marshalling[0];
    assert_eq!(call.primitive, MarshalPrimitive::CallPayment);
    assert_eq!(call.args.len(), 2);
    assert_eq!(call.args[0], EncodedArg::AssetIdOf("p".to_string()));
    assert_eq!(call.args[1], EncodedArg::AmountOf("p".to_string()));
}

#[test]
fn declaration_name_reaches_only_the_namespace() {
    let methods = || {
        vec![
            method("ping", vec![]),
            method("transfer", vec![param("to", "Binary"), param("amount", "Integer")]),
        ]
    };
    let m1 = interface(&decl("first", methods()));
    let m2 = interface(&decl("second", methods()));
    assert_eq!(m1.name, "first");
    assert_eq!(m2.name, "second");
    assert_eq!(m1.functions, m2.functions);
}

#[test]
fn unrecognized_type_vanishes_from_signature_and_marshalling() {
    let with = interface(&decl(
        "remote",
        vec![method(
            "mixed",
            vec![param("a", "Integer"), param("x", "Timestamp"), param("b", "Boolean")],
        )],
    ));
    let without = interface(&decl(
        "remote",
        vec![method("mixed", vec![param("a", "Integer"), param("b", "Boolean")])],
    ));
    assert_eq!(with.functions, without.functions);
    let f = &with.functions[0];
    assert_eq!(f.params.len(), 3);
    assert!(f.params.iter().all(|p| p.name != "x"));
    assert_eq!(f.marshalling.len(), 2);
}

#[test]
fn dropped_parameters_are_collected_for_diagnostics() {
    let d = decl(
        "remote",
        vec![
            method("mixed", vec![param("a", "Integer"), param("x", "Timestamp")]),
            method("odd", vec![param("y", "Decimal"), param("b", "Boolean")]),
        ],
    );
    let skipped = unsupported_params(&d);
    assert_eq!(
        skipped,
        vec![
            SkippedParam {
                method: "mixed".to_string(),
                param: "x".to_string(),
                ty: "Timestamp".to_string(),
            },
            SkippedParam {
                method: "odd".to_string(),
                param: "y".to_string(),
                ty: "Decimal".to_string(),
            },
        ]
    );
    let clean = decl("remote", vec![method("ok", vec![param("b", "Boolean")])]);
    assert!(unsupported_params(&clean).is_empty());
}

#[test]
fn transfer_example_marshals_in_order_then_dispatches() {
    let m = interface(&decl(
        "remote",
        vec![method("transfer", vec![param("to", "Binary"), param("amount", "Integer")])],
    ));
    let f = &m.functions[0];
    assert_eq!(f.name, "transfer");
    assert_eq!(f.params.len(), 3);
    assert_eq!(f.params[0].name, "contract_id");
    assert_eq!(f.params[1].name, "to");
    assert_eq!(f.params[1].ty, NativeType::ByteSlice);
    assert_eq!(f.params[2].name, "amount");
    assert_eq!(f.params[2].ty, NativeType::Int64);
    assert_eq!(f.marshalling.len(), 2);
    assert_eq!(f.marshalling[0].primitive, MarshalPrimitive::CallArgBinary);
    assert_eq!(f.marshalling[0].args, vec![EncodedArg::Whole("to".to_string())]);
    assert_eq!(f.marshalling[1].primitive, MarshalPrimitive::CallArgInt);
    assert_eq!(f.marshalling[1].args, vec![EncodedArg::Whole("amount".to_string())]);
    assert_eq!(f.dispatch_method, "transfer");
}

#[test]
fn an_interface_without_methods_generates_an_empty_namespace() {
    let m = interface(&decl("nothing", vec![]));
    assert_eq!(m.name, "nothing");
    assert!(m.functions.is_empty());
}

#[test]
fn methods_keep_declaration_order() {
    let m = interface(&decl(
        "remote",
        vec![method("first", vec![]), method("second", vec![]), method("third", vec![])],
    ));
    let names: Vec<&str> = m.functions.iter().map(|f: &GeneratedFunction| f.name.as_str()).collect();
    assert_eq!(names, vec!["first", "second", "third"]);
}

#[test]
fn empty_action_returns_the_success_status() {
    let e = action(&ActionDeclaration {
        name: "_constructor".to_string(),
        params: vec![],
        body: vec![],
    });
    assert_eq!(e.name, "_constructor");
    assert!(e.params.is_empty());
    assert!(e.body.is_empty());
    assert_eq!(e.status, SUCCESS_STATUS);
    assert_eq!(e.status, 0);
}

#[test]
fn action_copies_name_params_and_body_verbatim() {
    let e = action(&ActionDeclaration {
        name: "store_value".to_string(),
        params: vec![
            VerbatimParam { name: "key".to_string(), ty: "String".to_string() },
            VerbatimParam { name: "value".to_string(), ty: "Whatever".to_string() },
        ],
        body: vec!["let x = 1;".to_string(), "store(key, value, x);".to_string()],
    });
    assert_eq!(e.name, "store_value");
    assert_eq!(e.params.len(), 2);
    assert_eq!(e.params[0].name, "key");
    assert_eq!(e.params[0].ty, "String");
    assert_eq!(e.params[1].name, "value");
    assert_eq!(e.params[1].ty, "Whatever");
    assert_eq!(e.body, vec!["let x = 1;".to_string(), "store(key, value, x);".to_string()]);
    assert_eq!(e.status, 0);
}
